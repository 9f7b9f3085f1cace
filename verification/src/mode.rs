use vstd::prelude::*;

verus! {

/// The editing mode of the viewer, as in vim.
#[derive(Debug, Clone, Copy, PartialEq, Eq, Structural)]
pub enum Mode {
    Normal,
}

impl Mode {
    /// The name of the mode, as the status line shows it.
    pub open spec fn spec_name(self) -> Seq<char> {
        match self {
            Mode::Normal => "normal"@,
        }
    }

    pub fn as_str(&self) -> (r: &'static str)
        ensures
            r@ == self.spec_name(),
    {
        match self {
            Mode::Normal => "normal",
        }
    }

    /// The name of the mode as an owned string.
    pub fn to_string(&self) -> (r: String)
        ensures
            r@ == self.spec_name(),
    {
        String::from_str(self.as_str())
    }
}

/// The only mode is named `normal`.
pub proof fn law_mode_names(mode: Mode)
    ensures
        mode.spec_name() == seq!['n', 'o', 'r', 'm', 'a', 'l'],
{
    reveal_strlit("normal");
}

impl Default for Mode {
    /// The viewer starts in normal mode.
    fn default() -> (r: Self)
        ensures
            r == Mode::Normal,
    {
        Mode::Normal
    }
}

} // verus!

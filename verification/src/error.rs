use vstd::prelude::*;

verus! {

/// What went wrong, by area.
#[derive(Debug, Clone, Copy, PartialEq, Eq, Structural)]
pub enum ErrorKind {
    Window,
    File,
    UrlParsing,
}

impl ErrorKind {
    /// The name of the kind, as its debug form prints it.
    pub open spec fn spec_name(self) -> Seq<char> {
        match self {
            ErrorKind::Window => "Window"@,
            ErrorKind::File => "File"@,
            ErrorKind::UrlParsing => "UrlParsing"@,
        }
    }

    /// The name of the kind, as its debug form prints it.
    pub fn name(&self) -> (r: &'static str)
        ensures
            r@ == self.spec_name(),
    {
        match self {
            ErrorKind::Window => "Window",
            ErrorKind::File => "File",
            ErrorKind::UrlParsing => "UrlParsing",
        }
    }
}

/// An error of the viewer: a kind and a human readable message.
pub struct Error {
    kind: ErrorKind,
    message: String,
}

impl View for Error {
    type V = (ErrorKind, Seq<char>);

    closed spec fn view(&self) -> (ErrorKind, Seq<char>) {
        (self.kind, self.message@)
    }
}

impl Error {
    /// A new error of the given kind carrying a copy of `message`.
    pub fn new(kind: ErrorKind, message: &str) -> (r: Self)
        ensures
            r@ == (kind, message@),
    {
        Error { kind, message: String::from_str(message) }
    }

    pub fn kind(&self) -> (r: &ErrorKind)
        ensures
            *r == self@.0,
    {
        &self.kind
    }

    pub fn message(&self) -> (r: &str)
        ensures
            r@ == self@.1,
    {
        self.message.as_str()
    }

    /// The text the error is shown with: `[error] (<kind>) <message>`.
    pub fn to_debug_string(&self) -> (r: String)
        ensures
            r@ == debug_text(self@.0, self@.1),
    {
        let s = String::from_str("[error] (");
        let s = s.concat(self.kind.name());
        let s = s.concat(") ");
        s.concat(self.message.as_str())
    }
}

/// The text an error of kind `kind` with message `message` is shown with.
pub open spec fn debug_text(kind: ErrorKind, message: Seq<char>) -> Seq<char> {
    "[error] ("@ + kind.spec_name() + ") "@ + message
}

/// The message used when a GTK object is not of the expected type.
pub open spec fn mismatching_text(expected: Seq<char>) -> Seq<char> {
    "GTK object mismatched: expecting a `"@ + expected + "`"@
}

/// The message used when a GTK object is not of the `expected` type.
pub fn gtk_mismatching_error(expected: &str) -> (r: String)
    ensures
        r@ == mismatching_text(expected@),
{
    let s = String::from_str("GTK object mismatched: expecting a `");
    let s = s.concat(expected);
    s.concat("`")
}

/// An error is shown as `[error] (`, the name of its kind, `) ` and its
/// message; the kinds are named `Window`, `File` and `UrlParsing`, so the
/// text tells the kind and gives the message back unchanged at its end.
pub proof fn law_debug_text_shows_kind_and_message(kind: ErrorKind, message: Seq<char>)
    ensures
        ErrorKind::Window.spec_name() == seq!['W', 'i', 'n', 'd', 'o', 'w'],
        ErrorKind::File.spec_name() == seq!['F', 'i', 'l', 'e'],
        ErrorKind::UrlParsing.spec_name() == seq!['U', 'r', 'l', 'P', 'a', 'r', 's', 'i', 'n', 'g'],
        debug_text(kind, message) == seq!['[', 'e', 'r', 'r', 'o', 'r', ']', ' ', '('] + kind.spec_name()
            + seq![')', ' '] + message,
        debug_text(kind, message).subrange(
            debug_text(kind, message).len() - message.len(),
            debug_text(kind, message).len() as int,
        ) == message,
{
    reveal_strlit("Window");
    reveal_strlit("File");
    reveal_strlit("UrlParsing");
    reveal_strlit("[error] (");
    reveal_strlit(") ");
    let t = debug_text(kind, message);
    assert(t =~= seq!['[', 'e', 'r', 'r', 'o', 'r', ']', ' ', '('] + kind.spec_name() + seq![')', ' '] + message);
    assert(t.subrange(t.len() - message.len(), t.len() as int) =~= message);
}

/// The mismatch message is `GTK object mismatched: expecting a `, then the
/// expected type between backquotes.
pub proof fn law_mismatching_text_names_expected(expected: Seq<char>)
    ensures
        mismatching_text(expected) == "GTK object mismatched: expecting a "@ + seq!['`'] + expected + seq!['`'],
        mismatching_text(expected).len() == "GTK object mismatched: expecting a "@.len() + expected.len() + 2,
{
    reveal_strlit("GTK object mismatched: expecting a `");
    reveal_strlit("GTK object mismatched: expecting a ");
    reveal_strlit("`");
    assert(mismatching_text(expected) =~= "GTK object mismatched: expecting a "@ + seq!['`'] + expected + seq!['`']);
}

} // verus!

use vstd::prelude::*;

verus! {

/// The command line of the viewer.
#[derive(Debug)]
pub struct Cli {
    /// Path of file to open.
    pub file_path: Option<String>,
    /// Password of the document.
    pub password: Option<String>,
}

} // verus!

//! What a caller asks for, and the file contents that go with it.

use vstd::prelude::*;

verus! {

/// One request: the problem, the paths of the files that give it context,
/// and optional notes.
#[derive(Debug)]
pub struct OracleRequest {
    /// Natural-language description of the coding problem.
    pub problem: String,
    /// Paths of the files to include as context, in the order given.
    pub files: Option<Vec<String>>,
    /// Optional extra context or notes.
    pub extra_context: Option<String>,
}

/// What reading one of the requested files gave.
#[derive(Debug)]
pub enum FileOutcome {
    /// The text of the file.
    Content(String),
    /// The description of why it could not be read.
    Unreadable(String),
}

/// One requested file: its path as the request wrote it, and what reading
/// it gave.
#[derive(Debug)]
pub struct FileContext {
    pub path: String,
    pub outcome: FileOutcome,
}

impl OracleRequest {
    /// The extra notes as characters, where the request has any.
    pub open spec fn notes(self) -> Option<Seq<char>> {
        match self.extra_context {
            Some(notes) => Some(notes@),
            None => None,
        }
    }
}

} // verus!

//! The command line's arguments as plain values, and the rules that decide
//! where the problem text comes from and whether it can be used.

use vstd::prelude::*;
use crate::request::OracleRequest;
use crate::text::{is_blank, is_blank_text, str_eq};

verus! {

/// The arguments of the program.
pub struct Cli {
    pub command: Option<Command>,
}

impl Cli {
    /// What the program does: what the arguments name, and without a
    /// command it serves.
    pub fn command_or_serve(self) -> (r: Command)
        ensures
            match self.command {
                Some(command) => r == command,
                None => r is Serve,
            },
    {
        match self.command {
            Some(command) => command,
            None => Command::Serve,
        }
    }
}

/// What the program is asked to do.
pub enum Command {
    /// Run a one-off request from the command line.
    Call(CallArgs),
    /// Start the server over standard input and output.
    Serve,
}

/// The arguments of a one-off request. Paths are texts here.
pub struct CallArgs {
    /// Problem text passed inline.
    pub problem: Option<String>,
    /// File to read the problem text from; `-` stands for standard input.
    pub problem_file: Option<String>,
    /// Extra context or notes.
    pub extra_context: Option<String>,
    /// Paths of the files to include as context.
    pub files: Vec<String>,
}

/// An error of the command line, with the message that is shown.
#[derive(Debug)]
pub struct CliError(String);

impl View for CliError {
    type V = Seq<char>;

    closed spec fn view(&self) -> Seq<char> {
        self.0@
    }
}

impl CliError {
    /// The error with the message `msg`.
    pub fn new(msg: String) -> (r: Self)
        ensures
            r@ == msg@,
    {
        CliError(msg)
    }

    /// The message, as it is shown.
    pub fn to_text(&self) -> (r: String)
        ensures
            r@ == self@,
    {
        self.0.clone()
    }
}

/// Where a problem text was read from.
#[derive(Clone, Copy, PartialEq, Eq, Structural, Debug)]
pub enum Origin {
    Inline,
    Stdin,
    File,
}

/// What to do to obtain the problem text.
pub enum ProblemPlan {
    /// The inline text is the problem.
    Use(String),
    /// Read it from standard input.
    ReadStdin,
    /// Read it from the file at this path.
    ReadFile(String),
    /// Nothing can be read: the arguments are wrong.
    Fail(CliError),
}

/// The message for a blank problem text from `origin`.
pub open spec fn blank_message(origin: Origin) -> Seq<char> {
    match origin {
        Origin::Inline => "Problem text cannot be empty"@,
        Origin::Stdin => "Problem text read from stdin is empty"@,
        Origin::File => "Problem text file is empty"@,
    }
}

/// The message for arguments that name no problem text.
pub open spec fn missing_message() -> Seq<char> {
    "Provide --problem TEXT or --problem-file PATH (use '-' for stdin)"@
}

/// A problem text is accepted unless it is blank.
pub fn accept_problem_text(origin: Origin, text: String) -> (r: Result<String, CliError>)
    ensures
        is_blank(text@) ==> r is Err && r->Err_0@ == blank_message(origin),
        !is_blank(text@) ==> r == Ok::<String, CliError>(text),
{
    if is_blank_text(text.as_str()) {
        let message = match origin {
            Origin::Inline => "Problem text cannot be empty",
            Origin::Stdin => "Problem text read from stdin is empty",
            Origin::File => "Problem text file is empty",
        };
        Err(CliError::new(message.to_owned()))
    } else {
        Ok(text)
    }
}

/// Decides where the problem text comes from: the inline text wins over
/// the file, and the path `-` names standard input.
pub fn plan_problem_text(inline: Option<String>, problem_file: Option<String>) -> (r: ProblemPlan)
    ensures
        match (inline, problem_file) {
            (Some(text), _) => if is_blank(text@) {
                r matches ProblemPlan::Fail(err) && err@ == blank_message(Origin::Inline)
            } else {
                r == ProblemPlan::Use(text)
            },
            (None, Some(path)) => if path@ == "-"@ {
                r is ReadStdin
            } else {
                r == ProblemPlan::ReadFile(path)
            },
            (None, None) => r matches ProblemPlan::Fail(err) && err@ == missing_message(),
        },
{
    match inline {
        Some(text) => match accept_problem_text(Origin::Inline, text) {
            Ok(text) => ProblemPlan::Use(text),
            Err(err) => ProblemPlan::Fail(err),
        },
        None => match problem_file {
            Some(path) => if str_eq(path.as_str(), "-") {
                ProblemPlan::ReadStdin
            } else {
                ProblemPlan::ReadFile(path)
            },
            None => ProblemPlan::Fail(
                CliError::new(
                    "Provide --problem TEXT or --problem-file PATH (use '-' for stdin)".to_owned(),
                ),
            ),
        },
    }
}

/// The request of a one-off call: no list of files where none was named.
pub fn request_from_call(problem: String, extra_context: Option<String>, files: Vec<String>) -> (r:
    OracleRequest)
    ensures
        r.problem == problem,
        r.extra_context == extra_context,
        files@.len() == 0 ==> r.files is None,
        files@.len() > 0 ==> r.files == Some(files),
{
    let files = if files.len() == 0 {
        None
    } else {
        Some(files)
    };
    OracleRequest { problem, files, extra_context }
}

} // verus!

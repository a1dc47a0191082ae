//! The ways in which a call can fail, and how a failure is reported.

use vstd::prelude::*;

verus! {

/// The kind of a failure.
#[derive(Clone, Copy, PartialEq, Eq, Structural, Debug)]
pub enum ErrorKind {
    /// The credential of the service is missing.
    Configuration,
    /// A request could not be sent, or the service refused it.
    Transport,
    /// A reply could not be read, or lacks the job's identifier.
    Protocol,
    /// The job was still running when the deadline passed.
    PollTimeout,
    /// The service reported the job as failed, cancelled, or in need of
    /// an action that cannot be performed.
    TerminalFailure,
    /// The job is in a status that is not known.
    UnexpectedStatus,
    /// The job stopped early without any text, and may not be tried again.
    IncompleteNoText,
    /// The job completed, yet its payload holds no text.
    NoTextExtracted,
}

/// A failure: its kind, and the message for the caller.
#[derive(Debug)]
pub struct OracleError {
    pub kind: ErrorKind,
    pub message: String,
}

/// A failure as a plain value.
pub struct ErrorModel {
    pub kind: ErrorKind,
    pub message: Seq<char>,
}

impl View for OracleError {
    type V = ErrorModel;

    open spec fn view(&self) -> ErrorModel {
        ErrorModel { kind: self.kind, message: self.message@ }
    }
}

/// The failure of `kind` with `message`.
pub open spec fn failure(kind: ErrorKind, message: Seq<char>) -> ErrorModel {
    ErrorModel { kind, message }
}

/// The message for a missing credential.
pub open spec fn missing_key_message() -> Seq<char> {
    "Environment variable OPENAI_API_KEY is not set"@
}

/// The credential of the service, or the failure that says it is missing.
pub fn require_api_key(key: Option<String>) -> (r: Result<String, OracleError>)
    ensures
        match key {
            Some(value) => r == Ok::<String, OracleError>(value),
            None => r is Err && r->Err_0@ == failure(
                ErrorKind::Configuration,
                missing_key_message(),
            ),
        },
{
    match key {
        Some(value) => Ok(value),
        None => Err(
            OracleError {
                kind: ErrorKind::Configuration,
                message: "Environment variable OPENAI_API_KEY is not set".to_owned(),
            },
        ),
    }
}

/// The line that reports a failed call.
pub open spec fn error_report_text(message: Seq<char>) -> Seq<char> {
    "Oracle encountered an error: "@ + message
}

/// The line that reports a failed call with `message`.
pub fn error_report(message: &str) -> (r: String)
    ensures
        r@ == error_report_text(message@),
{
    let mut report = "Oracle encountered an error: ".to_owned();
    report.append(message);
    report
}

/// What the caller of the tool is handed: the text, and whether it
/// reports a failure.
#[derive(Debug)]
pub struct ToolReply {
    pub is_error: bool,
    pub text: String,
}

/// The reply of the tool for the outcome of a call: the answer as it is,
/// or the line that reports the failure. A failure is a reply like any
/// other, never a fault.
pub fn tool_reply(outcome: Result<String, OracleError>) -> (r: ToolReply)
    ensures
        match outcome {
            Ok(answer) => !r.is_error && r.text == answer,
            Err(err) => r.is_error && r.text@ == error_report_text(err.message@),
        },
{
    match outcome {
        Ok(answer) => ToolReply { is_error: false, text: answer },
        Err(err) => ToolReply { is_error: true, text: error_report(err.message.as_str()) },
    }
}

} // verus!

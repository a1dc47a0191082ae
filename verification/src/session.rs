//! One call as a state machine. The program around the library sends the
//! requests and waits; after each reply it asks here what to do next.

use vstd::prelude::*;
use crate::attempt::{
    conclude,
    conclusion,
    status_name,
    status_or_unknown,
    AttemptState,
    Conclusion,
    Verdict,
};
use crate::error::{failure, ErrorKind, ErrorModel, OracleError};
use crate::payload::{
    compact_text,
    decode_payload,
    error_message_text,
    is_json,
    job_id_text,
    openai_error_message,
    parse_error,
    parsed_document,
    preview,
    summarize_json,
    Payload,
};
use crate::poll::{classify_status, status_named, BackoffModel, BackoffState, Status};

verus! {

/// What came back for the request that the last step asked for.
#[derive(Debug)]
pub enum Reply {
    /// The request could not be sent, or no reply arrived; the text says
    /// why.
    Unsent(String),
    /// The service answered with a status other than success.
    Refused { status: String, body: String },
    /// The body of the reply is no JSON document; the text says why.
    Malformed(String),
    /// The payload of the reply.
    Payload(Payload),
}

/// Reads the body of a reply of the service: the payload that the body
/// holds where it is a JSON document, else a malformed reply with the
/// parser's description.
pub fn read_reply(body: &[u8]) -> (r: Reply)
    ensures
        is_json(body@) ==> (r matches Reply::Payload(payload) && payload.document
            == parsed_document(body@) && payload.rendered@ == compact_text(body@)),
        !is_json(body@) ==> (r matches Reply::Malformed(detail) && detail@ == parse_error(body@)),
{
    match decode_payload(body) {
        Ok(payload) => Reply::Payload(payload),
        Err(detail) => Reply::Malformed(detail),
    }
}

/// A call between two steps.
#[derive(Debug)]
pub enum Session {
    /// The generation request of this attempt is on its way.
    Submitting { attempt: AttemptState },
    /// The job `job_id` of this attempt is being polled.
    Polling { attempt: AttemptState, job_id: String, backoff: BackoffState },
}

/// A call between two steps, as a plain value.
pub enum SessionModel {
    Submitting { attempt: AttemptState },
    Polling { attempt: AttemptState, job_id: Seq<char>, backoff: BackoffModel },
}

impl View for Session {
    type V = SessionModel;

    open spec fn view(&self) -> SessionModel {
        match self {
            Session::Submitting { attempt } => SessionModel::Submitting { attempt: *attempt },
            Session::Polling { attempt, job_id, backoff } => SessionModel::Polling {
                attempt: *attempt,
                job_id: job_id@,
                backoff: backoff@,
            },
        }
    }
}

/// What the program around the library does next.
#[derive(Debug)]
pub enum Step {
    /// Send the generation request with this output budget, then advance
    /// the session with the reply.
    Submit { session: Session, output_budget: u32 },
    /// Wait for `delay_ms` milliseconds, fetch the job `job_id`, then
    /// advance the session with the reply.
    Fetch { session: Session, job_id: String, delay_ms: u64 },
    /// The call has ended, with the answer or with a failure.
    Done(Result<String, OracleError>),
}

/// A step as a plain value.
pub enum StepModel {
    Submit { session: SessionModel, output_budget: u32 },
    Fetch { session: SessionModel, job_id: Seq<char>, delay_ms: u64 },
    Done(Result<Seq<char>, ErrorModel>),
}

impl View for Step {
    type V = StepModel;

    open spec fn view(&self) -> StepModel {
        match self {
            Step::Submit { session, output_budget } => StepModel::Submit {
                session: session@,
                output_budget: *output_budget,
            },
            Step::Fetch { session, job_id, delay_ms } => StepModel::Fetch {
                session: session@,
                job_id: job_id@,
                delay_ms: *delay_ms,
            },
            Step::Done(Ok(answer)) => StepModel::Done(Ok(answer@)),
            Step::Done(Err(err)) => StepModel::Done(Err(err@)),
        }
    }
}

/// The step that ends a call with the failure of `kind` and `message`.
pub open spec fn failed(kind: ErrorKind, message: Seq<char>) -> StepModel {
    StepModel::Done(Err(failure(kind, message)))
}

/// The message for a generation request that could not be sent.
pub open spec fn send_failed_message(detail: Seq<char>) -> Seq<char> {
    "Failed to call OpenAI API: "@ + detail
}

/// The message for a reply with a status other than success.
pub open spec fn refused_message(status: Seq<char>, body: Seq<char>) -> Seq<char> {
    "OpenAI API returned non-success status "@ + status + ": "@ + body
}

/// The message for a reply to the submission that is no JSON document.
pub open spec fn unreadable_message(detail: Seq<char>) -> Seq<char> {
    "Failed to parse OpenAI response: "@ + detail
}

/// The message for a reply to the submission that does not name the job.
pub open spec fn missing_id_message(shown: Seq<char>) -> Seq<char> {
    "OpenAI response missing an id. Raw payload: "@ + shown
}

/// The message for a fetch of the job that could not be sent.
pub open spec fn poll_failed_message(detail: Seq<char>) -> Seq<char> {
    "Failed to poll OpenAI response: "@ + detail
}

/// The message for a fetched reply that is no JSON document.
pub open spec fn poll_unreadable_message(detail: Seq<char>) -> Seq<char> {
    "Failed to parse OpenAI poll response: "@ + detail
}

/// The message for a job that was still running at the deadline.
pub open spec fn timeout_message(job_id: Seq<char>, shown: Seq<char>) -> Seq<char> {
    "Timed out waiting for OpenAI response "@ + job_id + " to finish. Last payload: "@ + shown
}

/// The message for a job that the service reports as failed: the
/// service's own words where it gives any.
pub open spec fn job_failed_message(payload: Payload) -> Seq<char> {
    (match error_message_text(payload.document) {
        Some(message) => message,
        None => "OpenAI response marked as failed"@,
    }) + ". Raw payload: "@ + preview(payload.rendered@)
}

/// The message for a job that waits for an action.
pub open spec fn requires_action_message(shown: Seq<char>) -> Seq<char> {
    "OpenAI response requires additional action that Oracle cannot perform. Raw payload: "@
        + shown
}

/// The message for a job that was cancelled.
pub open spec fn cancelled_message(shown: Seq<char>) -> Seq<char> {
    "OpenAI response was cancelled before completion. Raw payload: "@ + shown
}

/// The message for a job in a status that is not known.
pub open spec fn unexpected_status_message(name: Seq<char>, shown: Seq<char>) -> Seq<char> {
    "OpenAI response entered unexpected status '"@ + name + "'. Raw payload: "@ + shown
}

/// The step after the payload of the job `job_id` was seen, in the state
/// `attempt` and with the waiting `backoff` behind it.
///
/// A job that has ended with a payload to read is concluded. A job that
/// is still running is fetched again after the current delay, unless the
/// deadline has passed. Every other status ends the call.
pub open spec fn observed(
    attempt: AttemptState,
    job_id: Seq<char>,
    backoff: BackoffModel,
    payload: Payload,
) -> StepModel {
    let shown = preview(payload.rendered@);
    match status_named(status_name(payload)) {
        Status::Completed | Status::Incomplete => match conclusion(payload, attempt) {
            Verdict::Answer(text) => StepModel::Done(Ok(text)),
            Verdict::Retry(next) => StepModel::Submit {
                session: SessionModel::Submitting { attempt: next },
                output_budget: next.output_budget,
            },
            Verdict::Fail(err) => StepModel::Done(Err(err)),
        },
        Status::Queued | Status::InProgress | Status::Cancelling => if backoff.expired() {
            failed(ErrorKind::PollTimeout, timeout_message(job_id, shown))
        } else {
            StepModel::Fetch {
                session: SessionModel::Polling { attempt, job_id, backoff: backoff.after_wait() },
                job_id,
                delay_ms: backoff.delay_ms,
            }
        },
        Status::Failed => failed(ErrorKind::TerminalFailure, job_failed_message(payload)),
        Status::RequiresAction => failed(
            ErrorKind::TerminalFailure,
            requires_action_message(shown),
        ),
        Status::Cancelled => failed(ErrorKind::TerminalFailure, cancelled_message(shown)),
        Status::Unexpected => failed(
            ErrorKind::UnexpectedStatus,
            unexpected_status_message(status_name(payload), shown),
        ),
    }
}

/// The step that follows `reply` in the state `session`.
///
/// Only a payload lets a call go on. A reply to the submission must name
/// the job, and polling then starts with a fresh schedule. A refusal ends
/// the call in either state.
pub open spec fn advanced(session: SessionModel, reply: Reply) -> StepModel {
    match session {
        SessionModel::Submitting { attempt } => match reply {
            Reply::Unsent(detail) => failed(ErrorKind::Transport, send_failed_message(detail@)),
            Reply::Refused { status, body } => failed(
                ErrorKind::Transport,
                refused_message(status@, body@),
            ),
            Reply::Malformed(detail) => failed(ErrorKind::Protocol, unreadable_message(detail@)),
            Reply::Payload(payload) => match job_id_text(payload.document) {
                Some(job_id) => observed(attempt, job_id, BackoffModel::start(), payload),
                None => failed(
                    ErrorKind::Protocol,
                    missing_id_message(preview(payload.rendered@)),
                ),
            },
        },
        SessionModel::Polling { attempt, job_id, backoff } => match reply {
            Reply::Unsent(detail) => failed(ErrorKind::Transport, poll_failed_message(detail@)),
            Reply::Refused { status, body } => failed(
                ErrorKind::Transport,
                refused_message(status@, body@),
            ),
            Reply::Malformed(detail) => failed(
                ErrorKind::Protocol,
                poll_unreadable_message(detail@),
            ),
            Reply::Payload(payload) => observed(attempt, job_id, backoff, payload),
        },
    }
}

/// A job that is still running is fetched again exactly while the
/// deadline has not passed, and the call times out exactly when it has;
/// no other job is fetched again or times out.
pub proof fn lemma_timeout_at_deadline(
    attempt: AttemptState,
    job_id: Seq<char>,
    backoff: BackoffModel,
    payload: Payload,
)
    ensures
        observed(attempt, job_id, backoff, payload) is Fetch <==> status_named(
            status_name(payload),
        ).is_pending() && !backoff.expired(),
        (observed(attempt, job_id, backoff, payload) matches StepModel::Done(Err(err))
            && err.kind == ErrorKind::PollTimeout) <==> status_named(
            status_name(payload),
        ).is_pending() && backoff.expired(),
{
    if let Verdict::Fail(err) = conclusion(payload, attempt) {
        assert(err.kind != ErrorKind::PollTimeout);
    }
}

/// The text `head` followed by `tail`.
fn prefixed(head: &str, tail: &str) -> (r: String)
    ensures
        r@ == head@ + tail@,
{
    let mut text = head.to_owned();
    text.append(tail);
    text
}

/// The step that ends a call with a failure.
fn fail(kind: ErrorKind, message: String) -> (r: Step)
    ensures
        r@ == failed(kind, message@),
{
    Step::Done(Err(OracleError { kind, message }))
}

/// Decides the step after the payload of a job was seen.
pub fn observe(attempt: AttemptState, job_id: String, backoff: BackoffState, payload: &Payload) -> (r:
    Step)
    ensures
        r@ == observed(attempt, job_id@, backoff@, *payload),
{
    let name = status_or_unknown(payload);
    match classify_status(name) {
        Status::Completed | Status::Incomplete => match conclude(payload, attempt) {
            Conclusion::Answer(text) => Step::Done(Ok(text)),
            Conclusion::Retry(next) => Step::Submit {
                session: Session::Submitting { attempt: next },
                output_budget: next.output_budget,
            },
            Conclusion::Fail(err) => Step::Done(Err(err)),
        },
        Status::Queued | Status::InProgress | Status::Cancelling => {
            let mut backoff = backoff;
            match backoff.wait() {
                Some(delay_ms) => {
                    let fetched = job_id.clone();
                    Step::Fetch {
                        session: Session::Polling { attempt, job_id, backoff },
                        job_id: fetched,
                        delay_ms,
                    }
                },
                None => {
                    let mut message = prefixed(
                        "Timed out waiting for OpenAI response ",
                        job_id.as_str(),
                    );
                    message.append(" to finish. Last payload: ");
                    message.append(summarize_json(payload).as_str());
                    fail(ErrorKind::PollTimeout, message)
                },
            }
        },
        Status::Failed => {
            let mut message = match openai_error_message(&payload.document) {
                Some(message) => message,
                None => "OpenAI response marked as failed".to_owned(),
            };
            message.append(". Raw payload: ");
            message.append(summarize_json(payload).as_str());
            fail(ErrorKind::TerminalFailure, message)
        },
        Status::RequiresAction => fail(
            ErrorKind::TerminalFailure,
            prefixed(
                "OpenAI response requires additional action that Oracle cannot perform. Raw payload: ",
                summarize_json(payload).as_str(),
            ),
        ),
        Status::Cancelled => fail(
            ErrorKind::TerminalFailure,
            prefixed(
                "OpenAI response was cancelled before completion. Raw payload: ",
                summarize_json(payload).as_str(),
            ),
        ),
        Status::Unexpected => {
            let mut message = prefixed("OpenAI response entered unexpected status '", name);
            message.append("'. Raw payload: ");
            message.append(summarize_json(payload).as_str());
            fail(ErrorKind::UnexpectedStatus, message)
        },
    }
}

impl Session {
    /// The first step of a call: submit with the first output budget.
    pub fn start() -> (r: Step)
        ensures
            r@ == (StepModel::Submit {
                session: SessionModel::Submitting { attempt: AttemptState::first() },
                output_budget: AttemptState::first().output_budget,
            }),
    {
        let attempt = AttemptState::new();
        Step::Submit { session: Session::Submitting { attempt }, output_budget: attempt.output_budget }
    }

    /// The step that follows `reply`.
    pub fn advance(self, reply: Reply) -> (r: Step)
        ensures
            r@ == advanced(self@, reply),
    {
        match self {
            Session::Submitting { attempt } => match reply {
                Reply::Unsent(detail) => fail(
                    ErrorKind::Transport,
                    prefixed("Failed to call OpenAI API: ", detail.as_str()),
                ),
                Reply::Refused { status, body } => fail(
                    ErrorKind::Transport,
                    refusal(status.as_str(), body.as_str()),
                ),
                Reply::Malformed(detail) => fail(
                    ErrorKind::Protocol,
                    prefixed("Failed to parse OpenAI response: ", detail.as_str()),
                ),
                Reply::Payload(payload) => match payload.document.get_str("id") {
                    Some(job_id) => observe(attempt, job_id.to_owned(), BackoffState::new(), &payload),
                    None => fail(
                        ErrorKind::Protocol,
                        prefixed(
                            "OpenAI response missing an id. Raw payload: ",
                            summarize_json(&payload).as_str(),
                        ),
                    ),
                },
            },
            Session::Polling { attempt, job_id, backoff } => match reply {
                Reply::Unsent(detail) => fail(
                    ErrorKind::Transport,
                    prefixed("Failed to poll OpenAI response: ", detail.as_str()),
                ),
                Reply::Refused { status, body } => fail(
                    ErrorKind::Transport,
                    refusal(status.as_str(), body.as_str()),
                ),
                Reply::Malformed(detail) => fail(
                    ErrorKind::Protocol,
                    prefixed("Failed to parse OpenAI poll response: ", detail.as_str()),
                ),
                Reply::Payload(payload) => observe(attempt, job_id, backoff, &payload),
            },
        }
    }
}

/// Writes the message for a reply with a status other than success.
fn refusal(status: &str, body: &str) -> (r: String)
    ensures
        r@ == refused_message(status@, body@),
{
    let mut message = prefixed("OpenAI API returned non-success status ", status);
    message.append(": ");
    message.append(body);
    message
}

} // verus!

//! The retry policy: what to make of a job that has ended, and when a job
//! that ran out of output budget is submitted again with a larger one.

use vstd::prelude::*;
use crate::error::{failure, ErrorKind, ErrorModel, OracleError};
use crate::extract::{extract_output_text, extracted};
use crate::payload::{
    incomplete_reason,
    incomplete_reason_text,
    preview,
    response_status,
    status_text,
    summarize_json,
    Payload,
};
use crate::text::str_eq;

verus! {

/// The output budget of the first attempt.
pub const INITIAL_OUTPUT_BUDGET: u32 = 2048;

/// The largest output budget that is asked for.
pub const MAX_OUTPUT_BUDGET: u32 = 8192;

/// The number of attempts that one call may make.
pub const MAX_ATTEMPTS: u8 = 3;

/// The state of one call across its attempts: the output budget of the
/// current attempt, and which attempt it is, counted from one.
#[derive(Clone, Copy, PartialEq, Eq, Structural, Debug)]
pub struct AttemptState {
    pub output_budget: u32,
    pub attempt_count: u8,
}

impl AttemptState {
    /// The first attempt.
    pub open spec fn first() -> AttemptState {
        AttemptState { output_budget: INITIAL_OUTPUT_BUDGET, attempt_count: 1 }
    }

    /// Another attempt may follow: the budget can still grow and the
    /// attempts are not used up.
    pub open spec fn may_retry(self) -> bool {
        self.output_budget < MAX_OUTPUT_BUDGET && self.attempt_count < MAX_ATTEMPTS
    }

    /// The attempt that follows: twice the budget, at most the largest.
    pub open spec fn escalated(self) -> AttemptState {
        AttemptState {
            output_budget: if 2 * self.output_budget >= MAX_OUTPUT_BUDGET {
                MAX_OUTPUT_BUDGET
            } else {
                (2 * self.output_budget) as u32
            },
            attempt_count: (self.attempt_count + 1) as u8,
        }
    }

    /// The first attempt.
    pub fn new() -> (r: AttemptState)
        ensures
            r == AttemptState::first(),
    {
        AttemptState { output_budget: INITIAL_OUTPUT_BUDGET, attempt_count: 1 }
    }

    /// The attempt that follows this one, where one may follow.
    pub fn escalate(&self) -> (r: Option<AttemptState>)
        ensures
            self.may_retry() ==> r == Some(self.escalated()),
            !self.may_retry() ==> r is None,
    {
        if self.output_budget < MAX_OUTPUT_BUDGET && self.attempt_count < MAX_ATTEMPTS {
            let doubled: u32 = self.output_budget * 2;
            let output_budget = if doubled >= MAX_OUTPUT_BUDGET {
                MAX_OUTPUT_BUDGET
            } else {
                doubled
            };
            Some(AttemptState { output_budget, attempt_count: self.attempt_count + 1 })
        } else {
            None
        }
    }
}

/// What a finished job comes to.
#[derive(Debug)]
pub enum Conclusion {
    /// The final answer.
    Answer(String),
    /// Submit again, in this state.
    Retry(AttemptState),
    /// The call fails.
    Fail(OracleError),
}

/// What a finished job comes to, as a plain value.
pub enum Verdict {
    Answer(Seq<char>),
    Retry(AttemptState),
    Fail(ErrorModel),
}

impl View for Conclusion {
    type V = Verdict;

    open spec fn view(&self) -> Verdict {
        match self {
            Conclusion::Answer(text) => Verdict::Answer(text@),
            Conclusion::Retry(next) => Verdict::Retry(*next),
            Conclusion::Fail(err) => Verdict::Fail(err@),
        }
    }
}

/// The name of the status of a payload; `unknown` where it names none.
pub open spec fn status_name(payload: Payload) -> Seq<char> {
    match status_text(payload.document) {
        Some(name) => name,
        None => "unknown"@,
    }
}

/// The reason why a job stopped early, or the words that stand for a
/// missing one.
pub open spec fn reason_shown(payload: Payload) -> Seq<char> {
    match incomplete_reason_text(payload.document) {
        Some(reason) => reason,
        None => "reason unavailable"@,
    }
}

/// The warning that follows an answer that was cut short.
pub open spec fn truncation_warning(reason: Seq<char>) -> Seq<char> {
    "\n\n[oracle warning] OpenAI stopped early ("@ + reason
        + "). The answer may be truncated."@
}

/// The message for a job that stopped early without any text.
pub open spec fn incomplete_message(reason: Seq<char>, shown: Seq<char>) -> Seq<char> {
    "OpenAI response ended incomplete ("@ + reason
        + ") before returning any text. Raw payload: "@ + shown
}

/// The message for a job whose payload holds no text.
pub open spec fn no_text_message(shown: Seq<char>) -> Seq<char> {
    "OpenAI response did not contain any text output. Raw payload: "@ + shown
}

/// The job stopped because its output budget was used up.
pub open spec fn budget_exhausted(payload: Payload) -> bool {
    status_name(payload) == "incomplete"@ && incomplete_reason_text(payload.document) == Some(
        "max_output_tokens"@,
    )
}

/// What the finished job with `payload` comes to in the state `attempt`.
///
/// A text that was found is the answer, with a warning after it where the
/// job stopped early. Without a text, a job that used up its output
/// budget is tried again while the state allows it; any other job fails.
pub open spec fn conclusion(payload: Payload, attempt: AttemptState) -> Verdict {
    let incomplete = status_name(payload) == "incomplete"@;
    match extracted(payload.document) {
        Some(text) => if incomplete {
            Verdict::Answer(text + truncation_warning(reason_shown(payload)))
        } else {
            Verdict::Answer(text)
        },
        None => if budget_exhausted(payload) && attempt.may_retry() {
            Verdict::Retry(attempt.escalated())
        } else if incomplete {
            Verdict::Fail(
                failure(
                    ErrorKind::IncompleteNoText,
                    incomplete_message(reason_shown(payload), preview(payload.rendered@)),
                ),
            )
        } else {
            Verdict::Fail(
                failure(ErrorKind::NoTextExtracted, no_text_message(preview(payload.rendered@))),
            )
        },
    }
}

/// The name of the status of `payload`.
pub fn status_or_unknown(payload: &Payload) -> (r: &str)
    ensures
        r@ == status_name(*payload),
{
    match response_status(&payload.document) {
        Some(name) => name,
        None => "unknown",
    }
}

/// The reason to show for a job that stopped early.
pub fn reason_or_unavailable(payload: &Payload) -> (r: String)
    ensures
        r@ == reason_shown(*payload),
{
    match incomplete_reason(&payload.document) {
        Some(reason) => reason,
        None => "reason unavailable".to_owned(),
    }
}

/// Decides what the finished job with `payload` comes to.
pub fn conclude(payload: &Payload, attempt: AttemptState) -> (r: Conclusion)
    ensures
        r@ == conclusion(*payload, attempt),
{
    let incomplete = str_eq(status_or_unknown(payload), "incomplete");
    match extract_output_text(&payload.document) {
        Some(mut answer) => {
            if incomplete {
                let reason = reason_or_unavailable(payload);
                let ghost text = answer@;
                answer.append("\n\n[oracle warning] OpenAI stopped early (");
                answer.append(reason.as_str());
                answer.append("). The answer may be truncated.");
                assert(answer@ =~= text + truncation_warning(reason@));
            }
            Conclusion::Answer(answer)
        },
        None => {
            if incomplete {
                let exhausted = match incomplete_reason(&payload.document) {
                    Some(reason) => str_eq(reason.as_str(), "max_output_tokens"),
                    None => false,
                };
                if exhausted {
                    if let Some(next) = attempt.escalate() {
                        return Conclusion::Retry(next);
                    }
                }
                let mut message = "OpenAI response ended incomplete (".to_owned();
                message.append(reason_or_unavailable(payload).as_str());
                message.append(") before returning any text. Raw payload: ");
                message.append(summarize_json(payload).as_str());
                Conclusion::Fail(OracleError { kind: ErrorKind::IncompleteNoText, message })
            } else {
                let mut message =
                    "OpenAI response did not contain any text output. Raw payload: ".to_owned();
                message.append(summarize_json(payload).as_str());
                Conclusion::Fail(OracleError { kind: ErrorKind::NoTextExtracted, message })
            }
        },
    }
}

/// A retry raises the attempt count by one and never past the limit, and
/// its budget is larger and never past the largest.
pub proof fn lemma_retry_is_bounded(payload: Payload, attempt: AttemptState)
    ensures
        conclusion(payload, attempt) matches Verdict::Retry(next) ==> {
            &&& attempt.may_retry()
            &&& next.attempt_count == attempt.attempt_count + 1
            &&& next.attempt_count <= MAX_ATTEMPTS
            &&& next.output_budget <= MAX_OUTPUT_BUDGET
            &&& attempt.output_budget > 0 ==> next.output_budget > attempt.output_budget
        },
{
}

/// Three jobs in a row that use up their output budget without any text:
/// the budget goes from 2048 to 4096 to 8192, and the third ends the call.
pub proof fn lemma_three_exhausted_attempts(first: Payload, second: Payload, third: Payload)
    requires
        budget_exhausted(first) && extracted(first.document) is None,
        budget_exhausted(second) && extracted(second.document) is None,
        budget_exhausted(third) && extracted(third.document) is None,
    ensures
        conclusion(first, AttemptState::first()) == Verdict::Retry(
            AttemptState { output_budget: 4096, attempt_count: 2 },
        ),
        conclusion(second, AttemptState { output_budget: 4096, attempt_count: 2 })
            == Verdict::Retry(AttemptState { output_budget: 8192, attempt_count: 3 }),
        conclusion(third, AttemptState { output_budget: 8192, attempt_count: 3 })
            matches Verdict::Fail(err) && err.kind == ErrorKind::IncompleteNoText,
{
}

} // verus!

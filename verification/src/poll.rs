//! The schedule of polling: which statuses call for another look at the
//! job, how long to wait before it, and when to give up.

use vstd::prelude::*;
use crate::text::str_eq;

verus! {

/// The total time, in milliseconds, that may be waited before a job that
/// is still running is given up.
pub const POLL_TIMEOUT_MS: u64 = 120_000;

/// The first delay between two looks at a job, in milliseconds.
pub const POLL_START_DELAY_MS: u64 = 500;

/// The longest delay between two looks at a job, in milliseconds.
pub const POLL_MAX_DELAY_MS: u64 = 5_000;

/// The status of a job.
#[derive(Clone, Copy, PartialEq, Eq, Structural, Debug)]
pub enum Status {
    Queued,
    InProgress,
    Cancelling,
    Completed,
    Incomplete,
    Failed,
    RequiresAction,
    Cancelled,
    /// Any status that is not one of the others.
    Unexpected,
}

impl Status {
    /// The job is still running: look again later.
    pub open spec fn is_pending(self) -> bool {
        self == Status::Queued || self == Status::InProgress || self == Status::Cancelling
    }
}

/// The status that the service writes as `name`.
pub open spec fn status_named(name: Seq<char>) -> Status {
    if name == "queued"@ {
        Status::Queued
    } else if name == "in_progress"@ {
        Status::InProgress
    } else if name == "cancelling"@ {
        Status::Cancelling
    } else if name == "completed"@ {
        Status::Completed
    } else if name == "incomplete"@ {
        Status::Incomplete
    } else if name == "failed"@ {
        Status::Failed
    } else if name == "requires_action"@ {
        Status::RequiresAction
    } else if name == "cancelled"@ {
        Status::Cancelled
    } else {
        Status::Unexpected
    }
}

/// The status that the service writes as `status`.
pub fn classify_status(status: &str) -> (r: Status)
    ensures
        r == status_named(status@),
{
    if str_eq(status, "queued") {
        Status::Queued
    } else if str_eq(status, "in_progress") {
        Status::InProgress
    } else if str_eq(status, "cancelling") {
        Status::Cancelling
    } else if str_eq(status, "completed") {
        Status::Completed
    } else if str_eq(status, "incomplete") {
        Status::Incomplete
    } else if str_eq(status, "failed") {
        Status::Failed
    } else if str_eq(status, "requires_action") {
        Status::RequiresAction
    } else if str_eq(status, "cancelled") {
        Status::Cancelled
    } else {
        Status::Unexpected
    }
}

/// Whether `name` is one of the three statuses of a running job.
pub open spec fn polls(name: Seq<char>) -> bool {
    name == "queued"@ || name == "in_progress"@ || name == "cancelling"@
}

/// The names of the running statuses are exactly those that classify as
/// pending.
pub proof fn lemma_polls_is_pending(name: Seq<char>)
    ensures
        polls(name) == status_named(name).is_pending(),
{
}

/// Whether a job in `status` is still running.
pub fn should_poll_status(status: &str) -> (r: bool)
    ensures
        r == polls(status@),
        r == status_named(status@).is_pending(),
{
    proof {
        lemma_polls_is_pending(status@);
    }
    str_eq(status, "queued") || str_eq(status, "in_progress") || str_eq(status, "cancelling")
}

/// The delay that follows `current`: half as long again, at most the
/// longest delay; after no delay, the first one.
pub open spec fn next_delay(current: u64) -> u64 {
    if current == 0 {
        POLL_START_DELAY_MS
    } else if current + current / 2 >= POLL_MAX_DELAY_MS {
        POLL_MAX_DELAY_MS
    } else {
        (current + current / 2) as u64
    }
}

/// The delay, in milliseconds, that follows a delay of `current`.
pub fn next_poll_delay(current: u64) -> (r: u64)
    ensures
        r == next_delay(current),
        r <= POLL_MAX_DELAY_MS,
{
    if current == 0 {
        POLL_START_DELAY_MS
    } else if current >= POLL_MAX_DELAY_MS {
        POLL_MAX_DELAY_MS
    } else {
        let grown: u64 = current + current / 2;
        if grown >= POLL_MAX_DELAY_MS {
            POLL_MAX_DELAY_MS
        } else {
            grown
        }
    }
}

/// The waiting of one polling loop: the delay before the next look at the
/// job, and the time waited so far, both in milliseconds.
#[derive(Clone, Copy, Debug)]
pub struct BackoffState {
    delay_ms: u64,
    elapsed_ms: u64,
}

/// The waiting of one polling loop as a plain value.
pub struct BackoffModel {
    pub delay_ms: u64,
    pub elapsed_ms: u64,
}

impl BackoffModel {
    /// The waiting at the start of a polling loop.
    pub open spec fn start() -> BackoffModel {
        BackoffModel { delay_ms: POLL_START_DELAY_MS, elapsed_ms: 0 }
    }

    /// The deadline has passed: no further wait begins.
    pub open spec fn expired(self) -> bool {
        self.elapsed_ms >= POLL_TIMEOUT_MS
    }

    /// The delay is one of the schedule, and no wait began after the
    /// deadline.
    pub open spec fn bounded(self) -> bool {
        0 < self.delay_ms <= POLL_MAX_DELAY_MS && self.elapsed_ms < POLL_TIMEOUT_MS
            + POLL_MAX_DELAY_MS
    }

    /// The waiting after one more wait of the current delay.
    pub open spec fn after_wait(self) -> BackoffModel {
        BackoffModel {
            delay_ms: next_delay(self.delay_ms),
            elapsed_ms: (self.elapsed_ms + self.delay_ms) as u64,
        }
    }
}

impl View for BackoffState {
    type V = BackoffModel;

    closed spec fn view(&self) -> BackoffModel {
        BackoffModel { delay_ms: self.delay_ms, elapsed_ms: self.elapsed_ms }
    }
}

impl BackoffState {
    #[verifier::type_invariant]
    spec fn well_formed(self) -> bool {
        self@.bounded()
    }

    /// The waiting at the start of a polling loop.
    pub fn new() -> (r: BackoffState)
        ensures
            r@ == BackoffModel::start(),
    {
        BackoffState { delay_ms: POLL_START_DELAY_MS, elapsed_ms: 0 }
    }

    /// The delay before the next look at the job.
    pub fn delay_ms(&self) -> (r: u64)
        ensures
            r == self@.delay_ms,
            0 < r <= POLL_MAX_DELAY_MS,
    {
        proof {
            use_type_invariant(self);
        }
        self.delay_ms
    }

    /// The time waited so far.
    pub fn elapsed_ms(&self) -> (r: u64)
        ensures
            r == self@.elapsed_ms,
            r < POLL_TIMEOUT_MS + POLL_MAX_DELAY_MS,
    {
        proof {
            use_type_invariant(self);
        }
        self.elapsed_ms
    }

    /// Whether the deadline has passed.
    pub fn timed_out(&self) -> (r: bool)
        ensures
            r == self@.expired(),
    {
        self.elapsed_ms >= POLL_TIMEOUT_MS
    }

    /// Counts one wait of the current delay, unless the deadline has
    /// passed: gives the delay to wait, and moves on to the next one.
    pub fn wait(&mut self) -> (r: Option<u64>)
        ensures
            old(self)@.expired() ==> r is None && final(self)@ == old(self)@,
            !old(self)@.expired() ==> r == Some(old(self)@.delay_ms) && final(self)@ == old(
                self,
            )@.after_wait(),
            final(self)@.bounded(),
    {
        proof {
            use_type_invariant(&*self);
        }
        if self.elapsed_ms >= POLL_TIMEOUT_MS {
            None
        } else {
            let delay = self.delay_ms;
            let elapsed: u64 = self.elapsed_ms + delay;
            let next = next_poll_delay(delay);
            *self = BackoffState { delay_ms: next, elapsed_ms: elapsed };
            Some(delay)
        }
    }
}

/// The delay before the look at the job that follows `n` waits.
pub open spec fn nth_delay(n: nat) -> u64
    decreases n,
{
    if n == 0 {
        POLL_START_DELAY_MS
    } else {
        next_delay(nth_delay((n - 1) as nat))
    }
}

/// The time that `n` waits take together.
pub open spec fn waited(n: nat) -> int
    decreases n,
{
    if n == 0 {
        0
    } else {
        waited((n - 1) as nat) + nth_delay((n - 1) as nat)
    }
}

/// The waiting after `n` waits from the start of a polling loop.
pub open spec fn after_waits(n: nat) -> BackoffModel
    decreases n,
{
    if n == 0 {
        BackoffModel::start()
    } else {
        after_waits((n - 1) as nat).after_wait()
    }
}

/// After `n` waits the delay is the `n`-th of the schedule, and the time
/// waited is the sum of the delays before it.
pub proof fn lemma_waits_follow_schedule(n: nat)
    requires
        waited(n) <= u64::MAX,
    ensures
        after_waits(n) == (BackoffModel { delay_ms: nth_delay(n), elapsed_ms: waited(n) as u64 }),
        0 <= waited(n),
    decreases n,
{
    if n > 0 {
        lemma_delays_grow_to_cap((n - 1) as nat);
        if n > 1 {
            lemma_waited_is_not_negative((n - 1) as nat);
        }
        lemma_waits_follow_schedule((n - 1) as nat);
    }
}

proof fn lemma_waited_is_not_negative(n: nat)
    ensures
        0 <= waited(n),
    decreases n,
{
    if n > 0 {
        lemma_waited_is_not_negative((n - 1) as nat);
    }
}

/// Every delay of the schedule lies between the first and the longest,
/// and no delay is shorter than the one before it.
pub proof fn lemma_delays_grow_to_cap(n: nat)
    ensures
        POLL_START_DELAY_MS <= nth_delay(n) <= POLL_MAX_DELAY_MS,
        nth_delay(n) <= nth_delay(n + 1),
        nth_delay(n) == POLL_MAX_DELAY_MS ==> nth_delay(n + 1) == POLL_MAX_DELAY_MS,
    decreases n,
{
    if n > 0 {
        lemma_delays_grow_to_cap((n - 1) as nat);
    }
    assert(nth_delay(n + 1) == next_delay(nth_delay(n)));
}

/// A wait begins only before the deadline, so the time waited passes the
/// deadline by less than one longest delay.
pub proof fn lemma_wait_overshoot_is_bounded(n: nat)
    requires
        waited(n) < POLL_TIMEOUT_MS,
    ensures
        waited(n + 1) < POLL_TIMEOUT_MS + POLL_MAX_DELAY_MS,
{
    lemma_delays_grow_to_cap(n);
    assert(waited(n + 1) == waited(n) + nth_delay(n));
}

} // verus!

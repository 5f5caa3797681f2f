//! Bounded retry with exponential backoff for the delivery of one chunk.
//!
//! The client makes the requests and sleeps; this module decides what it
//! does next.

use crate::error::{prefixed, PipelineError};
use vstd::prelude::*;

verus! {

/// Attempts that may follow the first one.
pub const MAX_RETRIES: u32 = 3;

/// Delay that the backoff starts from, in milliseconds.
pub const BASE_DELAY_MS: u64 = 100;

/// `100 * 2^retry` milliseconds.
pub open spec fn backoff_ms(retry: nat) -> nat
    decreases retry,
{
    if retry == 0 {
        BASE_DELAY_MS as nat
    } else {
        2 * backoff_ms((retry - 1) as nat)
    }
}

/// Delay before attempt `attempt`, counted from zero: none before the first
/// attempt, `100 * 2^attempt` milliseconds before each retry.
pub open spec fn delay_before(attempt: nat) -> nat {
    if attempt == 0 {
        0
    } else {
        backoff_ms(attempt)
    }
}

/// The backoff grows with each retry.
pub proof fn lemma_backoff_grows(a: nat, b: nat)
    requires
        a <= b,
    ensures
        backoff_ms(a) <= backoff_ms(b),
    decreases b,
{
    if a < b {
        lemma_backoff_grows(a, (b - 1) as nat);
    }
}

/// The delays before the three retries are 200, 400 and 800 milliseconds,
/// and the first attempt is made at once.
pub proof fn law_backoff_schedule()
    ensures
        delay_before(0) == 0,
        delay_before(1) == 200,
        delay_before(2) == 400,
        delay_before(3) == 800,
{
    reveal_with_fuel(backoff_ms, 4);
}

/// Computes [`backoff_ms`].
pub fn backoff_delay_ms(retry: u32) -> (delay: u64)
    requires
        backoff_ms(retry as nat) <= u64::MAX,
    ensures
        delay == backoff_ms(retry as nat),
{
    let mut delay: u64 = BASE_DELAY_MS;
    let mut k: u32 = 0;
    while k < retry
        invariant
            k <= retry,
            delay == backoff_ms(k as nat),
            backoff_ms(retry as nat) <= u64::MAX,
        decreases retry - k,
    {
        proof {
            lemma_backoff_grows((k + 1) as nat, retry as nat);
        }
        delay = 2 * delay;
        k += 1;
    }
    delay
}

/// What the client does next.
#[derive(Debug)]
pub enum RetryStep {
    /// Wait `delay_ms` milliseconds, then make an attempt.
    Attempt { delay_ms: u64 },
    /// Make no further attempt and fail with `error`.
    GiveUp { error: PipelineError },
}

/// The failures of one delivery so far.
pub ghost struct RetryView {
    pub failures: nat,
    pub last_error: Seq<char>,
}

/// No failure yet.
pub open spec fn no_failures() -> RetryView {
    RetryView { failures: 0, last_error: Seq::empty() }
}

/// The record after one more failure. Failures past the last attempt are
/// not counted; their error still replaces the one before.
pub open spec fn with_failure(view: RetryView, error: Seq<char>) -> RetryView {
    RetryView {
        failures: if view.failures <= MAX_RETRIES {
            view.failures + 1
        } else {
            view.failures
        },
        last_error: error,
    }
}

/// The record after a sequence of failures, oldest first.
pub open spec fn after_failures(errors: Seq<Seq<char>>) -> RetryView
    decreases errors.len(),
{
    if errors.len() == 0 {
        no_failures()
    } else {
        with_failure(after_failures(errors.drop_last()), errors.last())
    }
}

/// The message of a delivery that has used up its retries.
pub open spec fn exhausted_message(last_error: Seq<char>) -> Seq<char> {
    "Failed after 3 retries. Last error: "@ + last_error
}

/// Whether a step is the one that a record calls for: another attempt
/// after the backoff while retries are left, else giving up with the last
/// error.
pub open spec fn step_matches(step: RetryStep, view: RetryView) -> bool {
    match step {
        RetryStep::Attempt { delay_ms } => view.failures <= MAX_RETRIES && delay_ms
            == delay_before(view.failures),
        RetryStep::GiveUp { error } => {
            &&& view.failures > MAX_RETRIES
            &&& error matches PipelineError::TranscriptionUnavailable(message)
            &&& message@ == exhausted_message(view.last_error)
        },
    }
}

/// The record after a sequence of failures counts them, up to one past the
/// last retry, and keeps the error of the last one.
pub proof fn law_retry_outcome(errors: Seq<Seq<char>>)
    ensures
        errors.len() <= MAX_RETRIES ==> after_failures(errors).failures == errors.len(),
        errors.len() > MAX_RETRIES ==> after_failures(errors).failures == MAX_RETRIES + 1,
        errors.len() > 0 ==> after_failures(errors).last_error == errors.last(),
    decreases errors.len(),
{
    if errors.len() > 0 {
        law_retry_outcome(errors.drop_last());
    }
}

/// A delivery whose first `n` attempts failed, with `n` at most three, makes
/// its next attempt after `100 * 2^n` milliseconds. A delivery whose four
/// attempts all failed gives up, and its error carries the message of the
/// fourth failure.
pub proof fn law_retry_steps(errors: Seq<Seq<char>>, step: RetryStep)
    requires
        step_matches(step, after_failures(errors)),
    ensures
        errors.len() == 0 ==> step == (RetryStep::Attempt { delay_ms: 0 }),
        errors.len() == 1 ==> step == (RetryStep::Attempt { delay_ms: 200 }),
        errors.len() == 2 ==> step == (RetryStep::Attempt { delay_ms: 400 }),
        errors.len() == 3 ==> step == (RetryStep::Attempt { delay_ms: 800 }),
        errors.len() >= 4 ==> (step matches RetryStep::GiveUp { error } && error.message_text()
            == exhausted_message(errors.last())),
{
    law_retry_outcome(errors);
    law_backoff_schedule();
}

/// Retry bookkeeping for the delivery of one chunk.
pub struct RetryState {
    failures: u32,
    last_error: String,
}

impl View for RetryState {
    type V = RetryView;

    closed spec fn view(&self) -> RetryView {
        RetryView { failures: self.failures as nat, last_error: self.last_error@ }
    }
}

impl RetryState {
    #[verifier::type_invariant]
    spec fn failures_are_bounded(self) -> bool {
        self.failures <= MAX_RETRIES + 1
    }

    /// A delivery that has not been attempted yet.
    pub fn new() -> (state: Self)
        ensures
            state@ == no_failures(),
    {
        RetryState { failures: 0, last_error: String::new() }
    }

    /// Number of failed attempts, counted up to one past the last retry.
    pub fn failures(&self) -> (n: u32)
        ensures
            n == self@.failures,
    {
        self.failures
    }

    /// Decides the next step.
    pub fn next_step(&self) -> (step: RetryStep)
        ensures
            step_matches(step, self@),
    {
        proof {
            use_type_invariant(self);
            reveal_with_fuel(backoff_ms, 4);
        }
        if self.failures == 0 {
            RetryStep::Attempt { delay_ms: 0 }
        } else if self.failures <= MAX_RETRIES {
            RetryStep::Attempt { delay_ms: backoff_delay_ms(self.failures) }
        } else {
            let message = prefixed(
                "Failed after 3 retries. Last error: ",
                self.last_error.as_str(),
            );
            RetryStep::GiveUp { error: PipelineError::TranscriptionUnavailable(message) }
        }
    }

    /// Records that an attempt failed with `error`.
    pub fn record_failure(&mut self, error: String)
        ensures
            final(self)@ == with_failure(old(self)@, error@),
    {
        proof {
            use_type_invariant(&*self);
        }
        if self.failures <= MAX_RETRIES {
            self.failures = self.failures + 1;
        }
        self.last_error = error;
    }
}

} // verus!

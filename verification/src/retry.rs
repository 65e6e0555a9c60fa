//! The retry orchestrator: what to do after each attempt of one remote call.
//!
//! A call is attempted; an answer that the rate limit was hit leads to another
//! attempt after a pause that doubles each time, until the retries are used
//! up. Any other answer ends the call at once.

use crate::sync::{SyncError, SyncErrorView};
use vstd::arithmetic::power2::{lemma2_to64, pow2};
use vstd::prelude::*;

verus! {

/// How often a rate-limited call is tried again.
pub const MAX_RETRIES: u32 = 5;

/// The pause before the first retry, in milliseconds. Each later pause is
/// twice the one before.
pub const BASE_RETRY_DELAY_MS: u64 = 500;

/// The status with which the remote says that the rate limit was hit.
pub const STATUS_RATE_LIMITED: u16 = 429;

/// What one attempt of a remote call gave.
#[derive(Debug, Clone, PartialEq, Eq)]
pub enum Reply {
    /// The remote accepted the call. Holds the identifier it returned, if its
    /// answer carried one.
    Success(Option<u64>),
    /// The remote answered that the rate limit was hit. Holds a description
    /// of the answer.
    RateLimited(String),
    /// The call failed in any other way. Holds a description of the failure.
    Rejected(String),
}

/// A reply as a mathematical value.
pub enum ReplyView {
    Success(Option<u64>),
    RateLimited(Seq<char>),
    Rejected(Seq<char>),
}

impl View for Reply {
    type V = ReplyView;

    open spec fn view(&self) -> ReplyView {
        match *self {
            Reply::Success(id) => ReplyView::Success(id),
            Reply::RateLimited(text) => ReplyView::RateLimited(text@),
            Reply::Rejected(text) => ReplyView::Rejected(text@),
        }
    }
}

/// How a remote call ended: with the identifier that the remote returned, if
/// any, or with the reason for its failure.
pub type CallResult = Result<Option<u64>, SyncError>;

/// The end of a remote call as a mathematical value.
pub type CallResultView = Result<Option<u64>, SyncErrorView>;

/// The view of the end of a remote call.
pub open spec fn result_view(result: CallResult) -> CallResultView {
    match result {
        Ok(id) => Ok(id),
        Err(e) => Err(e@),
    }
}

/// What follows an attempt.
#[derive(Debug, PartialEq, Eq)]
pub enum RetryStep {
    /// Pause for `delay_ms` milliseconds, then make attempt number `attempt`.
    Retry { attempt: u32, delay_ms: u64 },
    /// The call has ended.
    Done(CallResult),
}

/// What follows an attempt, as a mathematical value.
pub enum RetryStepView {
    Retry { attempt: u32, delay_ms: u64 },
    Done(CallResultView),
}

impl View for RetryStep {
    type V = RetryStepView;

    open spec fn view(&self) -> RetryStepView {
        match *self {
            RetryStep::Retry { attempt, delay_ms } => RetryStepView::Retry { attempt, delay_ms },
            RetryStep::Done(result) => RetryStepView::Done(result_view(result)),
        }
    }
}

/// The pause after attempt number `attempt` was rate-limited, in
/// milliseconds: the base delay doubled `attempt` times.
pub open spec fn backoff_delay(attempt: nat) -> nat {
    BASE_RETRY_DELAY_MS as nat * pow2(attempt)
}

/// The pause before the retry that follows the rate-limited attempt number
/// `attempt` (the first attempt has number 0), or `None` where no retry is
/// left.
pub fn backoff_delay_ms(attempt: u32) -> (r: Option<u64>)
    ensures
        attempt < MAX_RETRIES ==> r == Some(backoff_delay(attempt as nat) as u64),
        attempt < MAX_RETRIES ==> backoff_delay(attempt as nat) <= 8000,
        attempt >= MAX_RETRIES ==> r is None,
{
    if attempt >= MAX_RETRIES {
        return None;
    }
    let mut delay: u64 = BASE_RETRY_DELAY_MS;
    let mut i: u32 = 0;
    proof {
        lemma2_to64();
    }
    while i < attempt
        invariant
            i <= attempt < MAX_RETRIES,
            delay == backoff_delay(i as nat),
            delay <= 8000,
        decreases attempt - i,
    {
        proof {
            lemma2_to64();
        }
        delay = delay * 2;
        i = i + 1;
    }
    Some(delay)
}

/// The transition of the orchestrator: what follows when attempt number
/// `attempt` gave `reply`.
///
/// Success ends the call. A rate-limited attempt is followed by another one,
/// after the pause, as long as fewer than `MAX_RETRIES` retries were made;
/// after that the call fails as exhausted. Any other failure ends the call at
/// once.
pub open spec fn next_step(attempt: u32, reply: ReplyView) -> RetryStepView {
    match reply {
        ReplyView::Success(id) => RetryStepView::Done(Ok(id)),
        ReplyView::RateLimited(text) => {
            if attempt < MAX_RETRIES {
                RetryStepView::Retry {
                    attempt: (attempt + 1) as u32,
                    delay_ms: backoff_delay(attempt as nat) as u64,
                }
            } else {
                RetryStepView::Done(Err(SyncErrorView::RateLimitExhausted(text)))
            }
        },
        ReplyView::Rejected(text) => RetryStepView::Done(Err(SyncErrorView::RemoteRejected(text))),
    }
}

/// Decides what follows attempt number `attempt` (the first has number 0),
/// which gave `reply`.
pub fn retry_step(attempt: u32, reply: Reply) -> (step: RetryStep)
    ensures
        step@ == next_step(attempt, reply@),
{
    match reply {
        Reply::Success(id) => RetryStep::Done(Ok(id)),
        Reply::RateLimited(text) => {
            match backoff_delay_ms(attempt) {
                Some(delay_ms) => RetryStep::Retry { attempt: attempt + 1, delay_ms },
                None => RetryStep::Done(Err(SyncError::RateLimitExhausted(text))),
            }
        },
        Reply::Rejected(text) => RetryStep::Done(Err(SyncError::RemoteRejected(text))),
    }
}

/// The reply that an answer with HTTP status `status` stands for: 429 is the
/// rate limit, a status from 200 to 299 is success, and anything else is a
/// rejection.
pub open spec fn classify(status: u16, id: Option<u64>, text: Seq<char>) -> ReplyView {
    if status == STATUS_RATE_LIMITED {
        ReplyView::RateLimited(text)
    } else if 200 <= status <= 299 {
        ReplyView::Success(id)
    } else {
        ReplyView::Rejected(text)
    }
}

/// Turns an answer of the remote into a reply: `status` is its HTTP status,
/// `id` the identifier read from its body, if any, and `text` the description
/// to report should the answer be a failure.
pub fn classify_response(status: u16, id: Option<u64>, text: String) -> (reply: Reply)
    ensures
        reply@ == classify(status, id, text@),
{
    if status == STATUS_RATE_LIMITED {
        Reply::RateLimited(text)
    } else if 200 <= status && status <= 299 {
        Reply::Success(id)
    } else {
        Reply::Rejected(text)
    }
}

/// What the orchestrator does when the attempts of one call, starting with
/// attempt number `attempt`, are answered by `replies` in order: how many
/// attempts it makes, and how the call ends. The end is `None` where the
/// replies run out before the call has ended.
pub open spec fn drive(attempt: u32, replies: Seq<ReplyView>) -> (nat, Option<CallResultView>)
    decreases replies.len(),
{
    if replies.len() == 0 {
        (0, None)
    } else {
        match next_step(attempt, replies[0]) {
            RetryStepView::Done(result) => (1, Some(result)),
            RetryStepView::Retry { attempt: next, .. } => {
                let rest = drive(next, replies.drop_first());
                (rest.0 + 1, rest.1)
            },
        }
    }
}

/// A call that succeeds at the first attempt is attempted exactly once.
pub proof fn lemma_success_is_one_attempt(replies: Seq<ReplyView>)
    requires
        replies.len() > 0,
        replies[0] is Success,
    ensures
        drive(0, replies) == (1nat, Some(Ok::<Option<u64>, SyncErrorView>(replies[0]->Success_0))),
{
}

/// No call is attempted more than `MAX_RETRIES + 1` times, whatever the
/// remote answers.
pub proof fn lemma_attempts_are_bounded(attempt: u32, replies: Seq<ReplyView>)
    requires
        attempt <= MAX_RETRIES,
    ensures
        drive(attempt, replies).0 <= MAX_RETRIES + 1 - attempt,
    decreases replies.len(),
{
    if replies.len() > 0 {
        match next_step(attempt, replies[0]) {
            RetryStepView::Done(_) => {},
            RetryStepView::Retry { attempt: next, .. } => {
                lemma_attempts_are_bounded(next, replies.drop_first());
            },
        }
    }
}

/// A call that is rate-limited every time, from attempt number `attempt` on,
/// is attempted until the retries are used up and then fails as exhausted,
/// with the description of the last answer.
pub proof fn lemma_rate_limited_from(attempt: u32, replies: Seq<ReplyView>)
    requires
        attempt <= MAX_RETRIES,
        replies.len() > MAX_RETRIES - attempt,
        forall|i: int| 0 <= i <= MAX_RETRIES - attempt ==> replies[i] is RateLimited,
    ensures
        drive(attempt, replies) == (
            (MAX_RETRIES + 1 - attempt) as nat,
            Some(
                Err::<Option<u64>, SyncErrorView>(
                    SyncErrorView::RateLimitExhausted(replies[MAX_RETRIES - attempt]->RateLimited_0),
                ),
            ),
        ),
    decreases MAX_RETRIES - attempt,
{
    if attempt < MAX_RETRIES {
        let rest = replies.drop_first();
        assert forall|i: int| 0 <= i <= MAX_RETRIES - (attempt + 1) implies rest[i]
            is RateLimited by {
            assert(rest[i] == replies[i + 1]);
        }
        lemma_rate_limited_from((attempt + 1) as u32, rest);
        assert(rest[MAX_RETRIES - (attempt + 1)] == replies[MAX_RETRIES - attempt]);
    }
}

/// A remote that always answers that the rate limit was hit is attempted
/// exactly `MAX_RETRIES + 1` times; the call then fails as exhausted.
pub proof fn lemma_always_rate_limited(replies: Seq<ReplyView>)
    requires
        replies.len() > MAX_RETRIES,
        forall|i: int| 0 <= i < replies.len() ==> replies[i] is RateLimited,
    ensures
        drive(0, replies).0 == MAX_RETRIES + 1,
        drive(0, replies).1 matches Some(Err(e)) && e is RateLimitExhausted,
{
    lemma_rate_limited_from(0, replies);
}

/// The pauses of a call that is rate-limited every time: 500, 1000, 2000,
/// 4000 and 8000 milliseconds.
pub proof fn lemma_backoff_values()
    ensures
        backoff_delay(0) == 500,
        backoff_delay(1) == 1000,
        backoff_delay(2) == 2000,
        backoff_delay(3) == 4000,
        backoff_delay(4) == 8000,
{
    lemma2_to64();
}

} // verus!

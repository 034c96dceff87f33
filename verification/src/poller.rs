//! The long-poll loop's decisions: how long to wait after a failed poll,
//! which offset comes next, and when a rate-limited call is tried again.

use std::time::Duration;

use vstd::prelude::*;

use crate::gateway::{GatewayError, IncomingUpdate, seconds, whole_seconds};

verus! {

/// Telegram holds a `getUpdates` call open up to this many seconds.
pub const LONG_POLL_SECS: u64 = 50;

/// The longest wait between failed polls.
pub const MAX_BACKOFF_SECS: u64 = 30;

/// The wait after another poller took the bot (HTTP 409).
pub const CONFLICT_WAIT_SECS: u64 = 10;

pub open spec fn power_of_two(exponent: nat) -> nat
    decreases exponent,
{
    if exponent == 0 { 1 } else { 2 * power_of_two((exponent - 1) as nat) }
}

/// Seconds to wait after the `failures`-th failure in a row: 1, 2, 4, 8,
/// 16, then [`MAX_BACKOFF_SECS`].
pub open spec fn doubling_wait(failures: nat) -> nat {
    let exponent: nat = if failures <= 1 { 0 } else if failures - 1 < 5 { (failures - 1) as nat } else { 5 };
    if power_of_two(exponent) < MAX_BACKOFF_SECS { power_of_two(exponent) } else { MAX_BACKOFF_SECS as nat }
}

/// How long to wait after the `failures`-th consecutive poll error: what a
/// rate limit asks for, a fixed wait when another poller runs, and a
/// doubling wait otherwise.
pub open spec fn backoff_for(error: GatewayError, failures: u32) -> Duration {
    match error {
        GatewayError::RateLimited { retry_after } => retry_after,
        GatewayError::Conflict => whole_seconds(CONFLICT_WAIT_SECS),
        _ => whole_seconds(doubling_wait(failures as nat) as u64),
    }
}

/// How long to wait after the `failures`-th consecutive poll error.
pub fn backoff(error: &GatewayError, failures: u32) -> (wait: Duration)
    ensures
        wait == backoff_for(*error, failures),
{
    match error {
        GatewayError::RateLimited { retry_after } => *retry_after,
        GatewayError::Conflict => seconds(CONFLICT_WAIT_SECS),
        _ => {
            let exponent: u32 = if failures <= 1 {
                0
            } else if failures - 1 < 5 {
                failures - 1
            } else {
                5
            };
            let mut wait: u64 = 1;
            let mut k: u32 = 0;
            while k < exponent
                invariant
                    k <= exponent <= 5,
                    wait == power_of_two(k as nat),
                    wait <= 32,
                decreases exponent - k,
            {
                proof {
                    reveal_with_fuel(power_of_two, 6);
                    assert(k < 5);
                    assert(power_of_two(k as nat) <= 16) by {
                        reveal_with_fuel(power_of_two, 6);
                    }
                }
                wait = wait * 2;
                k = k + 1;
            }
            let capped = if wait < MAX_BACKOFF_SECS { wait } else { MAX_BACKOFF_SECS };
            seconds(capped)
        },
    }
}

/// Whether `std::time::Duration`'s `<=` holds for `wait` and `limit`.
pub uninterp spec fn duration_at_most(wait: Duration, limit: Duration) -> bool;

/// `wait <= limit` on `std::time::Duration`.
/// On whole seconds it compares the counts, as `Duration` orders by length.
#[verifier::external_body]
fn at_most(wait: &Duration, limit: &Duration) -> (within: bool)
    ensures
        within == duration_at_most(*wait, *limit),
        forall|a: u64, b: u64| *wait == whole_seconds(a) && *limit == whole_seconds(b) ==> within == (a <= b),
{
    wait <= limit
}

/// Rate-limit waits longer than this many seconds are not worth holding
/// the update loop for.
pub const MAX_RATE_LIMIT_WAIT_SECS: u64 = 30;

/// Calls made at most this many times when rate-limited.
pub const RATE_LIMIT_ATTEMPTS: u32 = 3;

/// After the `attempt`-th call failed with `error`: the wait before trying
/// again, for a short rate limit while attempts are left; `None` means the
/// result stands.
pub open spec fn retry_wait_for(error: GatewayError, attempt: u32) -> Option<Duration> {
    match error {
        GatewayError::RateLimited { retry_after } => if attempt < RATE_LIMIT_ATTEMPTS && duration_at_most(
            retry_after,
            whole_seconds(MAX_RATE_LIMIT_WAIT_SECS),
        ) {
            Some(retry_after)
        } else {
            None
        },
        _ => None,
    }
}

pub fn retry_wait(error: &GatewayError, attempt: u32) -> (wait: Option<Duration>)
    ensures
        wait == retry_wait_for(*error, attempt),
        forall|secs: u64| *error == (GatewayError::RateLimited { retry_after: whole_seconds(secs) }) ==> (wait is Some
            <==> attempt < RATE_LIMIT_ATTEMPTS && secs <= MAX_RATE_LIMIT_WAIT_SECS),
{
    match error {
        GatewayError::RateLimited { retry_after } => {
            if attempt >= RATE_LIMIT_ATTEMPTS {
                return None;
            }
            let limit = seconds(MAX_RATE_LIMIT_WAIT_SECS);
            if at_most(retry_after, &limit) {
                Some(*retry_after)
            } else {
                None
            }
        },
        _ => None,
    }
}

/// A rate-limited call is made at most [`RATE_LIMIT_ATTEMPTS`] times: from
/// that attempt on, no wait is offered whatever the error.
pub proof fn lemma_retries_stop(error: GatewayError, attempt: u32)
    requires
        attempt >= RATE_LIMIT_ATTEMPTS,
    ensures
        retry_wait_for(error, attempt) is None,
{
}

/// After a failure that is neither a rate limit nor a conflict, the wait
/// is whole seconds between 1 and [`MAX_BACKOFF_SECS`], and never shorter
/// after more failures; a rate limit is waited out as asked, however many
/// failures came before.
pub proof fn lemma_backoff_bounds(error: GatewayError, failures: u32, more: u32)
    requires
        failures <= more,
    ensures
        !(error is RateLimited) && !(error is Conflict) ==> backoff_for(error, failures) == whole_seconds(
            doubling_wait(failures as nat) as u64,
        ),
        1 <= doubling_wait(failures as nat) <= MAX_BACKOFF_SECS,
        doubling_wait(failures as nat) <= doubling_wait(more as nat),
        error matches GatewayError::RateLimited { retry_after } ==> backoff_for(error, failures) == retry_after
            && backoff_for(error, more) == retry_after,
{
    reveal_with_fuel(power_of_two, 6);
    lemma_power_of_two_grows(failures as nat, more as nat);
}

proof fn lemma_power_of_two_grows(failures: nat, more: nat)
    requires
        failures <= more,
    ensures
        1 <= doubling_wait(failures) <= MAX_BACKOFF_SECS,
        doubling_wait(failures) <= doubling_wait(more),
{
    reveal_with_fuel(power_of_two, 6);
    assert(power_of_two(0) == 1);
    assert(power_of_two(1) == 2);
    assert(power_of_two(2) == 4);
    assert(power_of_two(3) == 8);
    assert(power_of_two(4) == 16);
    assert(power_of_two(5) == 32);
}

/// Next offset to ask for and consecutive failures so far.
#[derive(Clone, Copy, Debug, PartialEq, Eq, Structural)]
pub struct PollCursor {
    pub offset: Option<i64>,
    pub failures: u32,
}

/// A poll that answered: failures start over; the offset moves past each
/// handled update.
pub open spec fn after_updates_of(cursor: PollCursor, updates: Seq<IncomingUpdate>) -> PollCursor {
    PollCursor {
        offset: if updates.len() == 0 { cursor.offset } else { Some((updates.last().update_id + 1) as i64) },
        failures: 0,
    }
}

/// The cursor after `updates` were handled, in order.
pub fn after_updates(cursor: PollCursor, updates: &[IncomingUpdate]) -> (next: PollCursor)
    requires
        forall|i: int| 0 <= i < updates@.len() ==> (#[trigger] updates@[i]).update_id < i64::MAX,
    ensures
        next == after_updates_of(cursor, updates@),
{
    let mut offset = cursor.offset;
    let mut i: usize = 0;
    while i < updates.len()
        invariant
            i <= updates@.len(),
            forall|k: int| 0 <= k < updates@.len() ==> (#[trigger] updates@[k]).update_id < i64::MAX,
            offset == (if i == 0 { cursor.offset } else { Some((updates@[i - 1].update_id + 1) as i64) }),
        decreases updates@.len() - i,
    {
        offset = Some(next_offset(updates[i].update_id));
        i = i + 1;
    }
    PollCursor { offset, failures: 0 }
}

/// The offset saved after handling update `update_id`.
pub fn next_offset(update_id: i64) -> (offset: i64)
    requires
        update_id < i64::MAX,
    ensures
        offset == update_id + 1,
{
    update_id + 1
}

/// A failed poll: one more failure in a row (saturating), and the wait
/// before the next poll.
pub fn after_failure(cursor: PollCursor, error: &GatewayError) -> (next: (PollCursor, Duration))
    ensures
        next.0.offset == cursor.offset,
        next.0.failures == (if cursor.failures == u32::MAX { u32::MAX as int } else { cursor.failures + 1 }),
        next.1 == backoff_for(*error, next.0.failures),
{
    let failures = if cursor.failures == u32::MAX { u32::MAX } else { cursor.failures + 1 };
    let next = PollCursor { offset: cursor.offset, failures };
    (next, backoff(error, failures))
}

} // verus!

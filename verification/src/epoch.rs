//! Epoch coordination. A challenge/difficulty pair read from the treasury is
//! valid until `last_reset_at + EPOCH_DURATION`; past that deadline, one of
//! the racing agents must land a reset transaction before mining can resume.
//! Each agent elects itself for that duty with probability `1 / RESET_ODDS`
//! and otherwise waits until it observes another agent's reset.

use vstd::prelude::*;

use crate::rng::sample_below;
use crate::{EPOCH_DURATION, RESET_ODDS, SUBMIT_SAFETY_MARGIN};

verus! {

/// `a + b`, clipped to the representable range of `i64`.
pub open spec fn saturating_add_i64(a: i64, b: i64) -> i64 {
    if a + b > i64::MAX {
        i64::MAX
    } else if a + b < i64::MIN {
        i64::MIN
    } else {
        (a + b) as i64
    }
}

/// The moment the current epoch expires.
pub open spec fn spec_epoch_deadline(last_reset_at: i64) -> i64 {
    saturating_add_i64(last_reset_at, EPOCH_DURATION)
}

/// The moment the current epoch expires: the last observed reset plus the
/// epoch duration.
pub fn epoch_deadline(last_reset_at: i64) -> (d: i64)
    ensures
        d == spec_epoch_deadline(last_reset_at),
{
    match last_reset_at.checked_add(EPOCH_DURATION) {
        Some(d) => d,
        None => i64::MAX,
    }
}

/// Whether the epoch that began at `last_reset_at` is still running at `now`.
pub fn epoch_is_active(last_reset_at: i64, now: i64) -> (r: bool)
    ensures
        r == (now < spec_epoch_deadline(last_reset_at)),
{
    now < epoch_deadline(last_reset_at)
}

/// What one coordination round decides.
#[derive(Clone, Copy, Debug, PartialEq, Eq)]
pub enum EpochDecision {
    /// The epoch is still running: mine and submit normally.
    Active,
    /// The epoch has expired and this agent elected itself to submit the
    /// reset transaction.
    Elected,
    /// The epoch has expired and this agent must wait for another agent's
    /// reset to land.
    Deferred,
}

/// The deterministic half of the election: a draw below `RESET_ODDS` elects
/// this agent exactly when it is zero, so election happens in one round out
/// of `RESET_ODDS` on average.
pub fn reset_election(drawn: u64) -> (r: bool)
    ensures
        r == (drawn == 0),
{
    drawn == 0
}

/// One round of epoch coordination at time `now`. While the epoch is active
/// the decision is `Active`; once it has expired, the agent draws lots and is
/// either `Elected` to submit the reset or `Deferred` to wait for someone
/// else's. Which of the two comes back depends on the draw alone.
pub fn check_epoch_reset(last_reset_at: i64, now: i64) -> (d: EpochDecision)
    ensures
        d is Active <==> now < spec_epoch_deadline(last_reset_at),
{
    if epoch_is_active(last_reset_at, now) {
        EpochDecision::Active
    } else {
        let drawn = sample_below(RESET_ODDS);
        if reset_election(drawn) {
            EpochDecision::Elected
        } else {
            EpochDecision::Deferred
        }
    }
}

/// How long to sleep, from `now`, until the epoch deadline has passed;
/// zero once it already has.
pub fn seconds_until_deadline(last_reset_at: i64, now: i64) -> (s: u64)
    ensures
        now < spec_epoch_deadline(last_reset_at) ==> s == spec_epoch_deadline(last_reset_at)
            - now,
        now >= spec_epoch_deadline(last_reset_at) ==> s == 0,
{
    let deadline = epoch_deadline(last_reset_at);
    if now < deadline {
        let gap: i128 = deadline as i128 - now as i128;
        assert(0 < gap <= u64::MAX as i128);
        gap as u64
    } else {
        0
    }
}

/// The epoch deadline as the unsigned seconds value the submission gate
/// takes. A deadline at or before the epoch origin becomes zero, which the
/// gate reads as "not deadline-gated": such an epoch is so long expired that
/// only a reset can follow, and the reset transaction itself is never gated.
pub fn epoch_deadline_u64(last_reset_at: i64) -> (d: u64)
    ensures
        spec_epoch_deadline(last_reset_at) >= 0 ==> d == spec_epoch_deadline(last_reset_at),
        spec_epoch_deadline(last_reset_at) < 0 ==> d == 0,
{
    let dl = epoch_deadline(last_reset_at);
    if dl < 0 {
        0
    } else {
        dl as u64
    }
}

/// Whether a mine transaction may still be sent at `now` against an epoch
/// that expires at `deadline` (seconds since the epoch origin). A zero
/// deadline means the transaction is not deadline-gated at all; otherwise
/// sending stops `SUBMIT_SAFETY_MARGIN` seconds early, since a transaction
/// landing after the reset would be rejected against the expired challenge.
pub fn submit_window_open(deadline: u64, now: u64) -> (r: bool)
    ensures
        r == (deadline == 0 || now + SUBMIT_SAFETY_MARGIN <= deadline),
{
    if deadline == 0 {
        return true;
    }
    match deadline.checked_sub(SUBMIT_SAFETY_MARGIN) {
        Some(latest) => now <= latest,
        None => false,
    }
}

} // verus!

//! Bus selection: pick one of the shared reward buses at random, never the
//! one used immediately before, and decide whether its remaining reward
//! budget is acceptable.

use vstd::prelude::*;

use crate::rng::sample_below;
use crate::BUS_COUNT;

verus! {

/// What the agent reads of one shared reward bus: its index among the bus
/// accounts and its remaining reward budget in base units.
#[derive(Clone, Copy, Debug, PartialEq, Eq)]
pub struct Bus {
    pub id: u64,
    pub rewards: u64,
}

/// Pick a bus id uniformly among all buses other than `excluded`;
/// consecutive selections that feed the previous pick back in can therefore
/// never repeat, which spreads contention across the buses between epochs.
/// When `excluded` is no bus id at all, every bus is a candidate.
pub fn find_bus_id(excluded: u64) -> (r: u64)
    ensures
        r < BUS_COUNT,
        r != excluded,
{
    if excluded >= BUS_COUNT {
        return sample_below(BUS_COUNT);
    }
    let drawn = sample_below(BUS_COUNT - 1);
    if drawn >= excluded {
        drawn + 1
    } else {
        drawn
    }
}

/// `a * b`, clipped to the largest representable value.
pub open spec fn saturating_mul_u64(a: u64, b: u64) -> u64 {
    if a * b > u64::MAX {
        u64::MAX
    } else {
        (a * b) as u64
    }
}

/// Whether a bus's remaining budget is acceptable: it must exceed
/// `reward_rate * min_factor` (clipped). A factor of zero accepts every bus
/// that has any reward left; a larger factor restores the stricter policy of
/// demanding several rewards' worth of budget.
pub fn bus_accepts(rewards: u64, reward_rate: u64, min_factor: u64) -> (r: bool)
    ensures
        r == (rewards > saturating_mul_u64(reward_rate, min_factor)),
{
    match reward_rate.checked_mul(min_factor) {
        Some(threshold) => rewards > threshold,
        None => false,
    }
}

} // verus!

//! Running statistics of the mining loop: timings, submission counts, the
//! observed reward rate, and the adaptive gateway delay derived from the last
//! landing latency. Reading the clock and printing stay with the caller; the
//! methods here take measured milliseconds as plain values.

use vstd::prelude::*;

use crate::GATEWAY_DELAY;

verus! {

/// `a + b`, clipped to the largest representable value.
pub open spec fn sat_add_u128(a: u128, b: u128) -> u128 {
    if a + b > u128::MAX {
        u128::MAX
    } else {
        (a + b) as u128
    }
}

/// `a + b`, clipped to the largest representable value.
pub open spec fn sat_add_u64(a: u64, b: u64) -> u64 {
    if a + b > u64::MAX {
        u64::MAX
    } else {
        (a + b) as u64
    }
}

/// The longest the adaptive gateway delay may grow, in milliseconds.
pub const MAX_GATEWAY_DELAY: u64 = 5_000;

/// What fraction of the last landing latency the next inter-attempt delay is.
pub const GATEWAY_DELAY_DIVISOR: u64 = 20;

/// The counters the mining loop accumulates. Reward rates are in base token
/// units; times are in milliseconds.
pub struct MinerStats {
    /// Sum of the distinct reward rates observed.
    pub reward_rate_total: u128,
    /// How many distinct reward rates were observed.
    pub reward_rate_count: u64,
    /// The reward rate observed last.
    pub last_reward_rate: u64,
    /// Milliseconds the last submission took to land.
    pub last_submit_time: u128,
    /// How many submissions have landed.
    pub total_times_submitted: u64,
    /// Milliseconds spent in submission altogether.
    pub total_submit_mills: u128,
    /// Milliseconds spent mining altogether.
    pub total_mining_mills: u128,
    /// Milliseconds the last mining round took.
    pub last_mine_time: u128,
    /// The name of every ledger call made, in order.
    pub api_calls: Vec<String>,
}

impl MinerStats {
    /// Fresh statistics: every counter at zero, no calls recorded.
    pub fn new() -> (s: MinerStats)
        ensures
            s.reward_rate_total == 0,
            s.reward_rate_count == 0,
            s.last_reward_rate == 0,
            s.last_submit_time == 0,
            s.total_times_submitted == 0,
            s.total_submit_mills == 0,
            s.total_mining_mills == 0,
            s.last_mine_time == 0,
            s.api_calls@ =~= Seq::<String>::empty(),
    {
        MinerStats {
            reward_rate_total: 0,
            reward_rate_count: 0,
            last_reward_rate: 0,
            last_submit_time: 0,
            total_times_submitted: 0,
            total_submit_mills: 0,
            total_mining_mills: 0,
            last_mine_time: 0,
            api_calls: Vec::new(),
        }
    }

    /// Milliseconds spent in mining and submission together.
    pub fn get_total_time(&self) -> (t: u128)
        ensures
            t == sat_add_u128(self.total_submit_mills, self.total_mining_mills),
    {
        self.total_submit_mills.saturating_add(self.total_mining_mills)
    }

    /// Fold a newly observed reward rate into the running average, skipping a
    /// rate equal to the one observed last so a rate that merely persists is
    /// not counted again.
    pub fn update_avg_reward_rate(&mut self, reward_rate: u64)
        ensures
            old(self).last_reward_rate == reward_rate ==> *final(self) == *old(self),
            old(self).last_reward_rate != reward_rate ==> *final(self) == (MinerStats {
                last_reward_rate: reward_rate,
                reward_rate_total: sat_add_u128(old(self).reward_rate_total, reward_rate as u128),
                reward_rate_count: sat_add_u64(old(self).reward_rate_count, 1),
                ..*old(self)
            }),
    {
        if self.last_reward_rate != reward_rate {
            self.last_reward_rate = reward_rate;
            self.reward_rate_total = self.reward_rate_total.saturating_add(reward_rate as u128);
            self.reward_rate_count = self.reward_rate_count.saturating_add(1);
        }
    }

    /// Record that one mining round took `elapsed_ms` milliseconds.
    pub fn record_mine(&mut self, elapsed_ms: u128)
        ensures
            *final(self) == (MinerStats {
                last_mine_time: elapsed_ms,
                total_mining_mills: sat_add_u128(old(self).total_mining_mills, elapsed_ms),
                ..*old(self)
            }),
    {
        self.last_mine_time = elapsed_ms;
        self.total_mining_mills = self.total_mining_mills.saturating_add(elapsed_ms);
    }

    /// Record that one submission landed after `elapsed_ms` milliseconds.
    pub fn record_submit(&mut self, elapsed_ms: u128)
        ensures
            *final(self) == (MinerStats {
                last_submit_time: elapsed_ms,
                total_submit_mills: sat_add_u128(old(self).total_submit_mills, elapsed_ms),
                total_times_submitted: sat_add_u64(old(self).total_times_submitted, 1),
                ..*old(self)
            }),
    {
        self.last_submit_time = elapsed_ms;
        self.total_submit_mills = self.total_submit_mills.saturating_add(elapsed_ms);
        self.total_times_submitted = self.total_times_submitted.saturating_add(1);
    }

    /// Forget everything recorded so far.
    pub fn reset_stats(&mut self)
        ensures
            final(self).reward_rate_total == 0,
            final(self).reward_rate_count == 0,
            final(self).last_reward_rate == 0,
            final(self).last_submit_time == 0,
            final(self).total_times_submitted == 0,
            final(self).total_submit_mills == 0,
            final(self).total_mining_mills == 0,
            final(self).last_mine_time == 0,
            final(self).api_calls@ =~= Seq::<String>::empty(),
    {
        self.reward_rate_total = 0;
        self.reward_rate_count = 0;
        self.last_reward_rate = 0;
        self.last_submit_time = 0;
        self.total_times_submitted = 0;
        self.total_submit_mills = 0;
        self.total_mining_mills = 0;
        self.last_mine_time = 0;
        self.api_calls = Vec::new();
    }

    /// Record one ledger call by the method name used.
    pub fn add_api_call(&mut self, method: String)
        ensures
            final(self).api_calls@ == old(self).api_calls@.push(method),
            final(self).reward_rate_total == old(self).reward_rate_total,
            final(self).reward_rate_count == old(self).reward_rate_count,
            final(self).last_reward_rate == old(self).last_reward_rate,
            final(self).last_submit_time == old(self).last_submit_time,
            final(self).total_times_submitted == old(self).total_times_submitted,
            final(self).total_submit_mills == old(self).total_submit_mills,
            final(self).total_mining_mills == old(self).total_mining_mills,
            final(self).last_mine_time == old(self).last_mine_time,
    {
        self.api_calls.push(method);
    }

    /// The inter-attempt delay for the next submission, adapted to the last
    /// observed landing latency: a fixed fraction of it, never below the
    /// fixed gateway delay and never above the cap. With no landing observed
    /// yet, the fixed delay.
    pub fn get_adj_gateway_delay(&self) -> (d: u64)
        ensures
            self.last_submit_time == 0 ==> d == GATEWAY_DELAY,
            self.last_submit_time != 0 ==> d as int == {
                let scaled = self.last_submit_time as int / GATEWAY_DELAY_DIVISOR as int;
                if scaled < GATEWAY_DELAY as int {
                    GATEWAY_DELAY as int
                } else if scaled > MAX_GATEWAY_DELAY as int {
                    MAX_GATEWAY_DELAY as int
                } else {
                    scaled
                }
            },
    {
        if self.last_submit_time == 0 {
            return GATEWAY_DELAY;
        }
        let scaled: u128 = self.last_submit_time / (GATEWAY_DELAY_DIVISOR as u128);
        if scaled < GATEWAY_DELAY as u128 {
            GATEWAY_DELAY
        } else if scaled > MAX_GATEWAY_DELAY as u128 {
            MAX_GATEWAY_DELAY
        } else {
            scaled as u64
        }
    }
}

} // verus!

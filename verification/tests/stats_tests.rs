use miner_core::stats::{MinerStats, GATEWAY_DELAY_DIVISOR, MAX_GATEWAY_DELAY};
use miner_core::GATEWAY_DELAY;

#[test]
fn fresh_stats_are_zero() {
    let s = MinerStats::new();
    assert_eq!(s.reward_rate_total, 0);
    assert_eq!(s.reward_rate_count, 0);
    assert_eq!(s.total_times_submitted, 0);
    assert_eq!(s.get_total_time(), 0);
    assert!(s.api_calls.is_empty());
}

#[test]
fn timings_accumulate() {
    let mut s = MinerStats::new();
    s.record_mine(40_000);
    s.record_mine(20_000);
    assert_eq!(s.last_mine_time, 20_000);
    assert_eq!(s.total_mining_mills, 60_000);
    s.record_submit(5_000);
    s.record_submit(7_000);
    assert_eq!(s.last_submit_time, 7_000);
    assert_eq!(s.total_submit_mills, 12_000);
    assert_eq!(s.total_times_submitted, 2);
    assert_eq!(s.get_total_time(), 72_000);
}

#[test]
fn repeated_reward_rate_counts_once() {
    let mut s = MinerStats::new();
    s.update_avg_reward_rate(100);
    s.update_avg_reward_rate(100);
    s.update_avg_reward_rate(100);
    assert_eq!(s.reward_rate_count, 1);
    assert_eq!(s.reward_rate_total, 100);
    s.update_avg_reward_rate(300);
    assert_eq!(s.reward_rate_count, 2);
    assert_eq!(s.reward_rate_total, 400);
    s.update_avg_reward_rate(100);
    assert_eq!(s.reward_rate_count, 3);
    assert_eq!(s.reward_rate_total, 500);
}

#[test]
fn reset_clears_everything() {
    let mut s = MinerStats::new();
    s.record_mine(10);
    s.record_submit(10);
    s.update_avg_reward_rate(10);
    s.add_api_call(String::from("getaccountinfo"));
    s.reset_stats();
    assert_eq!(s.get_total_time(), 0);
    assert_eq!(s.reward_rate_count, 0);
    assert_eq!(s.total_times_submitted, 0);
    assert!(s.api_calls.is_empty());
}

#[test]
fn api_calls_kept_in_order() {
    let mut s = MinerStats::new();
    s.add_api_call(String::from("getaccountinfo"));
    s.add_api_call(String::from("sendtransaction"));
    s.add_api_call(String::from("getaccountinfo"));
    assert_eq!(s.api_calls.len(), 3);
    assert_eq!(s.api_calls[1], "sendtransaction");
}

#[test]
fn gateway_delay_adapts_to_landing_latency() {
    let mut s = MinerStats::new();
    // No landing observed yet: the fixed delay.
    assert_eq!(s.get_adj_gateway_delay(), GATEWAY_DELAY);
    // A fast landing is floored at the fixed delay.
    s.record_submit(1_000);
    assert_eq!(s.get_adj_gateway_delay(), GATEWAY_DELAY);
    // A typical landing scales by the divisor.
    s.record_submit(20_000);
    assert_eq!(s.get_adj_gateway_delay(), 20_000 / GATEWAY_DELAY_DIVISOR);
    // A very slow landing is capped.
    s.record_submit(1_000_000);
    assert_eq!(s.get_adj_gateway_delay(), MAX_GATEWAY_DELAY);
}

use reconciler::funding::{mature_rewards, simulate_run, FundingLoop, COINBASE_MATURITY};

#[test]
fn maturity_tolerance_at_most_eleven_calls() {
    // With a batch of 10 and a ceiling of 110, a run never makes more than
    // 11 generation calls, even if the balance never turns positive.
    let balances: Vec<u64> = vec![0; 50];
    assert_eq!(simulate_run(&balances, 10, 110), 11);
}

#[test]
fn loop_stops_at_first_positive_balance() {
    // Zero balances for four batches, then a positive one: exactly five
    // generation calls.
    let balances: Vec<u64> = vec![0, 0, 0, 0, 250_000_000_000, 0, 0];
    assert_eq!(simulate_run(&balances, 10, 110), 5);
}

#[test]
fn loop_stops_immediately_on_positive_balance() {
    let balances: Vec<u64> = vec![1, 0, 0];
    assert_eq!(simulate_run(&balances, 10, 110), 1);
}

#[test]
fn loop_with_maturity_delay_stops_at_one_hundred_ten_blocks() {
    // Balances as the maturity rule yields them: rewards become spendable
    // only once 100 later blocks exist, so with batches of 10 the balance
    // first turns positive after 110 generated blocks — the 11th call.
    let mut balances: Vec<u64> = Vec::new();
    for i in 1..=20u64 {
        let mined = 10 * i;
        balances.push(mature_rewards(mined, COINBASE_MATURITY) * 5_000_000_000);
    }
    assert_eq!(simulate_run(&balances, 10, 110), 11);
}

#[test]
fn observe_advances_block_count() {
    let mut fl = FundingLoop::new(10, 110);
    assert_eq!(fl.blocks_mined, 0);
    assert!(fl.running);
    let more = fl.observe(0);
    assert!(more);
    assert_eq!(fl.blocks_mined, 10);
    let more = fl.observe(5_000_000_000);
    assert!(!more);
    assert_eq!(fl.blocks_mined, 20);
    assert!(!fl.running);
}

#[test]
fn observe_stops_at_ceiling_with_zero_balance() {
    // Reaching the ceiling without a positive balance stops the loop and
    // is not an error: the state machine simply reports no further batch.
    let mut fl = FundingLoop::new(10, 20);
    assert!(fl.observe(0));
    assert!(!fl.observe(0));
    assert_eq!(fl.blocks_mined, 20);
}

#[test]
fn mature_rewards_edges() {
    assert_eq!(mature_rewards(0, COINBASE_MATURITY), 0);
    assert_eq!(mature_rewards(100, COINBASE_MATURITY), 0);
    assert_eq!(mature_rewards(101, COINBASE_MATURITY), 1);
    assert_eq!(mature_rewards(110, COINBASE_MATURITY), 10);
}

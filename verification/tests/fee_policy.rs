use private_bridge::config::BridgeConfig;
use private_bridge::fee::compute_fee;
use private_bridge::ids::AccountId;

fn cfg(fee_bps: u16, min_fee: u64, max_fee: u64) -> BridgeConfig {
    BridgeConfig {
        owner: AccountId { id: 1 },
        fee_bps,
        min_fee,
        max_fee,
        claim_window_secs: 600,
        min_solver_bond: 100,
        slash_bps: 1000,
    }
}

#[test]
fn fee_scenario_large_deposit() {
    // 1_000_000 at 50 bps with bounds [10, 1000]: the raw fee is 5000 and
    // the max bound caps it at 1000.
    let (net, fee) = compute_fee(1_000_000, &cfg(50, 10, 1000));
    assert_eq!(fee, 1000);
    assert_eq!(net, 999_000);
}

#[test]
fn fee_scenario_fifty_bps() {
    // 1_000_000 at 50 bps: 0.5% is 5000, within generous bounds.
    let (net, fee) = compute_fee(1_000_000, &cfg(50, 10, 10_000));
    assert_eq!(fee, 5000);
    assert_eq!(net, 995_000);
}

#[test]
fn fee_scenario_half_amount_cap() {
    // amount=5 with min_fee=10: the lifted fee would eat the deposit, so it
    // is capped at amount/2 = 2 and net = 3.
    let (net, fee) = compute_fee(5, &cfg(50, 10, 1000));
    assert_eq!(fee, 2);
    assert_eq!(net, 3);
}

#[test]
fn fee_zero_amount() {
    let (net, fee) = compute_fee(0, &cfg(50, 10, 1000));
    assert_eq!(fee, 0);
    assert_eq!(net, 0);
}

#[test]
fn fee_amount_one() {
    let (net, fee) = compute_fee(1, &cfg(50, 10, 1000));
    assert_eq!(fee, 0);
    assert_eq!(net, 1);
}

#[test]
fn fee_min_bound_applies() {
    // raw = 10_000 * 50 / 10_000 = 50 < min_fee = 75: lifted to 75.
    let (net, fee) = compute_fee(10_000, &cfg(50, 75, 1000));
    assert_eq!(fee, 75);
    assert_eq!(net, 9_925);
}

#[test]
fn fee_within_bounds_unclamped() {
    // raw = 100_000 * 50 / 10_000 = 500, between min 10 and max 1000.
    let (net, fee) = compute_fee(100_000, &cfg(50, 10, 1000));
    assert_eq!(fee, 500);
    assert_eq!(net, 99_500);
}

#[test]
fn fee_and_net_recombine() {
    for amount in [0u64, 1, 2, 3, 17, 999, 10_000, u64::MAX] {
        let (net, fee) = compute_fee(amount, &cfg(250, 3, 700));
        assert_eq!(net + fee, amount);
        assert!(fee <= amount);
    }
}

#[test]
fn fee_max_amount_no_overflow() {
    let (net, fee) = compute_fee(u64::MAX, &cfg(10_000, 0, u64::MAX));
    // raw = u64::MAX * 10_000 / 10_000 = u64::MAX >= amount: half cap.
    assert_eq!(fee, u64::MAX / 2);
    assert_eq!(net, u64::MAX - u64::MAX / 2);
}

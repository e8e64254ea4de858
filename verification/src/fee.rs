use vstd::prelude::*;

use crate::config::{BridgeConfig, BPS_DENOMINATOR};

verus! {

/// The fee fraction of `amount` before any bound is applied:
/// `amount * fee_bps / 10000`, rounded down.
pub open spec fn spec_raw_fee(amount: u64, cfg: BridgeConfig) -> int {
    (amount * cfg.fee_bps) / (BPS_DENOMINATOR as int)
}

/// The raw fee lifted to `min_fee`, then capped at `max_fee`.
pub open spec fn spec_clamped_fee(amount: u64, cfg: BridgeConfig) -> int {
    let raw = spec_raw_fee(amount, cfg);
    let lifted = if raw < cfg.min_fee { cfg.min_fee as int } else { raw };
    if lifted > cfg.max_fee {
        cfg.max_fee as int
    } else {
        lifted
    }
}

/// Whether the clamped fee would eat the whole deposit, so the half-amount
/// cap takes over.
pub open spec fn spec_fee_capped(amount: u64, cfg: BridgeConfig) -> bool {
    spec_clamped_fee(amount, cfg) >= amount
}

/// The fee withheld from a gross deposit of `amount`: the clamped fee, or
/// half the amount when the clamped fee would reach the whole of it.
pub open spec fn spec_fee(amount: u64, cfg: BridgeConfig) -> int {
    if spec_fee_capped(amount, cfg) {
        amount as int / 2
    } else {
        spec_clamped_fee(amount, cfg)
    }
}

/// The net amount locked for delivery after the fee is withheld.
pub open spec fn spec_net(amount: u64, cfg: BridgeConfig) -> int {
    amount - spec_fee(amount, cfg)
}

/// Splits a gross deposit into `(net, fee)` under the configured bounds.
///
/// The multiplication is carried out in double width, so no overflow can
/// occur for any `amount`; the pair always adds back up to the gross amount.
pub fn compute_fee(amount: u64, cfg: &BridgeConfig) -> (r: (u64, u64))
    ensures
        r.1 == spec_fee(amount, *cfg),
        r.0 == spec_net(amount, *cfg),
        r.0 + r.1 == amount,
        r.1 <= amount,
{
    proof {
        vstd::arithmetic::mul::lemma_mul_upper_bound(
            amount as int,
            u64::MAX as int,
            cfg.fee_bps as int,
            u16::MAX as int,
        );
    }
    let wide: u128 = (amount as u128) * (cfg.fee_bps as u128);
    let mut fee: u128 = wide / (BPS_DENOMINATOR as u128);
    if fee < cfg.min_fee as u128 {
        fee = cfg.min_fee as u128;
    }
    if fee > cfg.max_fee as u128 {
        fee = cfg.max_fee as u128;
    }
    assert(fee == spec_clamped_fee(amount, *cfg));
    let mut fee64: u64 = fee as u64;
    if fee64 >= amount {
        fee64 = amount / 2;
    }
    let net: u64 = amount - fee64;
    (net, fee64)
}

/// The fee policy's guarantees: fee and net always recombine to the gross
/// amount, the fee never exceeds it, and unless the half-amount cap took
/// over, the fee lies within the configured bounds.
pub proof fn lemma_fee_policy(amount: u64, cfg: BridgeConfig)
    requires
        cfg.min_fee <= cfg.max_fee,
    ensures
        spec_net(amount, cfg) + spec_fee(amount, cfg) == amount,
        0 <= spec_fee(amount, cfg) <= amount,
        !spec_fee_capped(amount, cfg) ==> cfg.min_fee <= spec_fee(amount, cfg) <= cfg.max_fee,
{
    vstd::arithmetic::mul::lemma_mul_nonnegative(amount as int, cfg.fee_bps as int);
    vstd::arithmetic::div_mod::lemma_div_pos_is_pos(amount * cfg.fee_bps, BPS_DENOMINATOR as int);
}

} // verus!

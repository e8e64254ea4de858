use vstd::prelude::*;

use crate::ids::AccountId;

verus! {

/// Basis points in one whole: fee and slash fractions are given out of this.
pub const BPS_DENOMINATOR: u64 = 10000;

/// The bridge's global configuration.  The owner doubles as the relayer
/// authorized to settle requests and as the collector of slashed bonds.
#[derive(Clone, Copy, Debug, PartialEq, Eq, Structural)]
pub struct BridgeConfig {
    /// Identity authorized to mutate the configuration, settle requests and
    /// collect slashed bonds.
    pub owner: AccountId,
    /// Fee fraction in basis points, at most `BPS_DENOMINATOR`.
    pub fee_bps: u16,
    /// Lower bound on the fee, in token units.
    pub min_fee: u64,
    /// Upper bound on the fee, in token units.
    pub max_fee: u64,
    /// How long a claim stays exclusive, in seconds.
    pub claim_window_secs: i64,
    /// Bond a solver must post to claim a request, in native minor units.
    pub min_solver_bond: u64,
    /// Fraction of an expired claim's bond that is forfeited, in basis
    /// points, at most `BPS_DENOMINATOR`.
    pub slash_bps: u16,
}

impl BridgeConfig {
    /// Both basis-point fractions denote at most the whole.
    pub open spec fn wf(self) -> bool {
        &&& self.fee_bps <= BPS_DENOMINATOR
        &&& self.slash_bps <= BPS_DENOMINATOR
    }
}

} // verus!

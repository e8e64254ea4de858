use vstd::prelude::*;

use crate::ids::AccountId;

verus! {

/// A deposit was locked and a payout-planning job queued.
#[derive(Clone, Copy, Debug, PartialEq, Eq)]
pub struct BridgeInitiated {
    pub request_id: u64,
    pub sender: AccountId,
    pub token: AccountId,
    /// Net amount locked for delivery.
    pub amount_after_fee: u64,
    /// Fee withheld and locked beside it.
    pub fee: u64,
    /// Timestamp of the deposit.
    pub ts: u64,
}

/// The confidential computation resolved and an attestation is available,
/// correlated by the depositor's nonce.  Advisory only: it gates no custody.
#[derive(Clone, Copy, Debug, PartialEq, Eq)]
pub struct AttestationQueued {
    pub nonce: [u8; 16],
}

/// A request was settled: escrow (net plus fee) was paid to the solver.
#[derive(Clone, Copy, Debug, PartialEq, Eq)]
pub struct BridgePaidToSolver {
    pub request_id: u64,
    pub solver: AccountId,
    pub token_mint: AccountId,
    /// `amount_locked + fee_locked`.
    pub payout: u64,
}

/// An expired claim was released; part of the bond was slashed.
#[derive(Clone, Copy, Debug, PartialEq, Eq)]
pub struct BridgeClaimExpired {
    pub request_id: u64,
    pub solver: AccountId,
    /// Amount forfeited to the collector.
    pub slashed: u64,
}

/// A solver's bond left the bond vault and returned to the solver.
#[derive(Clone, Copy, Debug, PartialEq, Eq)]
pub struct SolverBondRefunded {
    pub request_id: u64,
    pub solver: AccountId,
    pub refunded_bond: u64,
}

/// The relayer's delivery evidence, recorded verbatim for off-chain audit.
/// The evidence is not verified here: the relayer is trusted.
#[derive(Debug, PartialEq, Eq)]
pub struct BridgeVerifiedUrl {
    pub request_id: u64,
    pub relayer: AccountId,
    pub dest_tx_hash: [u8; 32],
    pub evidence_hash: [u8; 32],
    pub evidence_url: String,
}

/// Funds arriving from the other ledger were released to a recipient.
#[derive(Clone, Copy, Debug, PartialEq, Eq)]
pub struct IncomingBridgeDelivered {
    pub recipient: AccountId,
    pub token: AccountId,
    pub amount: u64,
}

/// A solver won the exclusive right to deliver a request.
#[derive(Clone, Copy, Debug, PartialEq, Eq)]
pub struct BridgeClaimed {
    pub request_id: u64,
    pub solver: AccountId,
    /// Bond locked in the bond vault.
    pub bond: u64,
    /// Timestamp until which the claim stays exclusive.
    pub deadline: i64,
}

} // verus!

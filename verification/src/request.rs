use vstd::prelude::*;

use crate::ids::AccountId;

verus! {

/// One bridge request: the record created per deposit, keyed by
/// `(payer, request_id)`, carrying its locked value, its claim sub-state and
/// the confidential destination material.
///
/// Lifecycle: created open (`claimed == false`, `finalized == false`);
/// a claim sets `claimed`, `solver`, `claim_deadline` and `bond_lamports`;
/// expiry release clears them again; settlement sets `finalized` and clears
/// them for good.  A finalized record is terminal and never reused.
#[derive(Clone, Copy, Debug, PartialEq)]
pub struct BridgeRequest {
    pub request_id: u64,
    pub payer: AccountId,
    pub token_mint: AccountId,
    /// Net amount locked for delivery.
    pub amount_locked: u64,
    /// Fee withheld at deposit time, locked beside the net amount.
    pub fee_locked: u64,
    pub created_at: i64,
    /// Whether a claim is recorded.  Exclusivity is decided lazily, by
    /// comparing `claim_deadline` with the caller's observed time.
    pub claimed: bool,
    /// The claiming solver, or the unset identity.
    pub solver: AccountId,
    /// Timestamp up to which the recorded claim stays exclusive.
    pub claim_deadline: i64,
    /// Bond the recorded claim locked in the bond vault.
    pub bond_lamports: u64,
    /// Terminal flag set by settlement.
    pub finalized: bool,
    /// The depositor's ephemeral x25519 public key.
    pub client_pubkey: [u8; 32],
    /// Correlation nonce, little-endian value of the 16 bytes supplied.
    pub nonce_le: u128,
    /// The destination address as four fixed-width encrypted words: the
    /// computation primitive only accepts fixed-width encrypted integers.
    pub dest_ct_w0: [u8; 32],
    pub dest_ct_w1: [u8; 32],
    pub dest_ct_w2: [u8; 32],
    pub dest_ct_w3: [u8; 32],
}

impl BridgeRequest {
    /// Well-formedness kept by every transition: a finalized request holds
    /// no claim, an unclaimed request holds no bond and no solver, and the
    /// locked value fits the payout's width.
    pub open spec fn wf(self) -> bool {
        &&& self.finalized ==> !self.claimed
        &&& !self.claimed ==> self.bond_lamports == 0 && self.solver.is_absent()
        &&& self.amount_locked + self.fee_locked <= u64::MAX
    }

    /// The settlement payout: everything the escrow holds for this request.
    pub open spec fn payout(self) -> int {
        self.amount_locked + self.fee_locked
    }
}

/// A finalized well-formed request is quiescent: no claim is recorded, no
/// bond is outstanding, and no solver is named.
pub proof fn lemma_finalized_is_terminal(r: BridgeRequest)
    requires
        r.wf(),
        r.finalized,
    ensures
        !r.claimed,
        r.bond_lamports == 0,
        r.solver.is_absent(),
{
}

/// Builds a bare request record outside the deposit path, with an optional
/// pre-recorded claim and no bond.  The confidential material is left empty.
pub fn init_request(
    payer: AccountId,
    request_id: u64,
    token_mint: AccountId,
    amount_locked: u64,
    fee_locked: u64,
    solver: Option<AccountId>,
    claim_deadline: Option<i64>,
    now: i64,
) -> (r: BridgeRequest)
    requires
        amount_locked + fee_locked <= u64::MAX,
    ensures
        r.payer == payer,
        r.request_id == request_id,
        r.token_mint == token_mint,
        r.amount_locked == amount_locked,
        r.fee_locked == fee_locked,
        r.created_at == now,
        r.claimed == solver is Some,
        r.solver == (if solver is Some {
            solver->0
        } else {
            AccountId { id: 0 }
        }),
        r.claim_deadline == (if claim_deadline is Some {
            claim_deadline->0
        } else {
            0
        }),
        r.bond_lamports == 0,
        !r.finalized,
        r.wf(),
{
    let claimed = solver.is_some();
    let solver_id = match solver {
        Some(s) => s,
        None => AccountId::absent(),
    };
    let deadline = match claim_deadline {
        Some(d) => d,
        None => 0,
    };
    BridgeRequest {
        request_id,
        payer,
        token_mint,
        amount_locked,
        fee_locked,
        created_at: now,
        claimed,
        solver: solver_id,
        claim_deadline: deadline,
        bond_lamports: 0,
        finalized: false,
        client_pubkey: [0u8; 32],
        nonce_le: 0,
        dest_ct_w0: [0u8; 32],
        dest_ct_w1: [0u8; 32],
        dest_ct_w2: [0u8; 32],
        dest_ct_w3: [0u8; 32],
    }
}

} // verus!

use vstd::prelude::*;

use crate::config::{BridgeConfig, BPS_DENOMINATOR};
use crate::errors::ErrorCode;
use crate::ids::AccountId;
use crate::request::BridgeRequest;

verus! {

/// Whether `a + b` stays within `i64`.
pub open spec fn i64_add_in_range(a: i64, b: i64) -> bool {
    i64::MIN <= a + b <= i64::MAX
}

/// The claim transition on a request record.
///
/// A claim is admitted only on a non-finalized request whose previous claim,
/// if any, is past its deadline at `now`; the offered bond must reach the
/// configured minimum, which must itself be positive (a zero minimum is a
/// misconfiguration), and the new deadline `now + claim_window_secs` must be
/// representable.  The admitted claim records the solver, the deadline and
/// the bond.
pub open spec fn spec_claim(
    req: BridgeRequest,
    cfg: BridgeConfig,
    solver: AccountId,
    bond: u64,
    now: i64,
) -> Result<BridgeRequest, ErrorCode> {
    if req.finalized {
        Err(ErrorCode::AlreadyFinalized)
    } else if req.claimed && now <= req.claim_deadline {
        Err(ErrorCode::ActiveClaim)
    } else if cfg.min_solver_bond == 0 || bond < cfg.min_solver_bond {
        Err(ErrorCode::BondTooLow)
    } else if !i64_add_in_range(now, cfg.claim_window_secs) {
        Err(ErrorCode::MathOverflow)
    } else {
        Ok(
            (BridgeRequest {
                claimed: true,
                solver,
                claim_deadline: (now + cfg.claim_window_secs) as i64,
                bond_lamports: bond,
                ..req
            }),
        )
    }
}

/// The slashed part of an expired claim's bond: `bond * slash_bps / 10000`,
/// rounded down.
pub open spec fn spec_slash(bond: u64, cfg: BridgeConfig) -> int {
    (bond * cfg.slash_bps) / (BPS_DENOMINATOR as int)
}

/// The expiry-release transition on a request record.
///
/// It needs a recorded claim whose deadline has passed at `now`, the
/// recorded solver as refund target, and a positive bond.  The slashed part
/// of the bond must fit `u64` and not exceed the bond (under a well-formed
/// configuration it never does).  The released record is open again: claim
/// fields are cleared so a new solver may claim.
pub open spec fn spec_expire(
    req: BridgeRequest,
    cfg: BridgeConfig,
    prev_solver: AccountId,
    now: i64,
) -> Result<BridgeRequest, ErrorCode> {
    if !req.claimed {
        Err(ErrorCode::NoClaim)
    } else if now <= req.claim_deadline {
        Err(ErrorCode::ActiveClaim)
    } else if prev_solver != req.solver {
        Err(ErrorCode::InvalidOwner)
    } else if req.bond_lamports == 0 {
        Err(ErrorCode::BondTooLow)
    } else if spec_slash(req.bond_lamports, cfg) > req.bond_lamports {
        Err(ErrorCode::MathOverflow)
    } else {
        Ok(
            (BridgeRequest {
                claimed: false,
                solver: AccountId { id: 0 },
                claim_deadline: 0,
                bond_lamports: 0,
                ..req
            }),
        )
    }
}

/// The settlement transition on a request record.
///
/// Only the configured owner (acting as relayer) may settle, exactly once,
/// while a claim is live: the request must not be finalized, must carry a
/// claim whose deadline has not passed at `now`, and the named payout wallet
/// must be the recorded solver.  Settlement past the deadline is refused:
/// the claim must first go through expiry release and a fresh claim.  The
/// settled record is terminal: finalized, with all claim fields cleared.
pub open spec fn spec_settle(
    req: BridgeRequest,
    cfg: BridgeConfig,
    caller: AccountId,
    solver_wallet: AccountId,
    now: i64,
) -> Result<BridgeRequest, ErrorCode> {
    if caller != cfg.owner {
        Err(ErrorCode::OnlyOwner)
    } else if req.finalized {
        Err(ErrorCode::RequestAlreadyFinalized)
    } else if !req.claimed {
        Err(ErrorCode::NoClaim)
    } else if now > req.claim_deadline {
        Err(ErrorCode::ClaimExpired)
    } else if solver_wallet != req.solver {
        Err(ErrorCode::InvalidOwner)
    } else if req.payout() > u64::MAX {
        Err(ErrorCode::MathOverflow)
    } else {
        Ok(
            (BridgeRequest {
                finalized: true,
                claimed: false,
                solver: AccountId { id: 0 },
                claim_deadline: 0,
                bond_lamports: 0,
                ..req
            }),
        )
    }
}

/// Each transition preserves well-formedness, and none of them touches the
/// request's identity or its locked value.
pub proof fn lemma_transitions_preserve_wf(
    req: BridgeRequest,
    cfg: BridgeConfig,
    a: AccountId,
    b: AccountId,
    bond: u64,
    now: i64,
)
    requires
        req.wf(),
    ensures
        spec_claim(req, cfg, a, bond, now) matches Ok(r2) ==> r2.wf() && r2.payer == req.payer
            && r2.request_id == req.request_id && r2.amount_locked == req.amount_locked
            && r2.fee_locked == req.fee_locked && !r2.finalized,
        spec_expire(req, cfg, a, now) matches Ok(r2) ==> r2.wf() && r2.payer == req.payer
            && r2.request_id == req.request_id && r2.amount_locked == req.amount_locked
            && r2.fee_locked == req.fee_locked && !r2.finalized,
        spec_settle(req, cfg, a, b, now) matches Ok(r2) ==> r2.wf() && r2.payer == req.payer
            && r2.request_id == req.request_id && r2.amount_locked == req.amount_locked
            && r2.fee_locked == req.fee_locked && r2.finalized,
{
}

/// Claim exclusivity: after a successful claim, every further claim attempt
/// at or before the recorded deadline fails with `ActiveClaim`, whoever
/// makes it.  At most one claim is live at any instant.
pub proof fn lemma_claim_is_exclusive(
    req: BridgeRequest,
    cfg: BridgeConfig,
    first_solver: AccountId,
    first_bond: u64,
    claim_time: i64,
    second_solver: AccountId,
    second_bond: u64,
    retry_time: i64,
)
    requires
        spec_claim(req, cfg, first_solver, first_bond, claim_time) is Ok,
        retry_time <= spec_claim(req, cfg, first_solver, first_bond, claim_time)->Ok_0.claim_deadline,
    ensures
        spec_claim(
            spec_claim(req, cfg, first_solver, first_bond, claim_time)->Ok_0,
            cfg,
            second_solver,
            second_bond,
            retry_time,
        ) == Err::<BridgeRequest, ErrorCode>(ErrorCode::ActiveClaim),
{
}

/// Claim periods never overlap: when a second claim succeeds on the record
/// a first claim left behind, it was made strictly after the first claim's
/// deadline, so at every instant at most one claim window is open.
pub proof fn lemma_claim_windows_do_not_overlap(
    req: BridgeRequest,
    cfg: BridgeConfig,
    first_solver: AccountId,
    first_bond: u64,
    claim_time: i64,
    second_solver: AccountId,
    second_bond: u64,
    retry_time: i64,
)
    requires
        spec_claim(req, cfg, first_solver, first_bond, claim_time) is Ok,
        spec_claim(
            spec_claim(req, cfg, first_solver, first_bond, claim_time)->Ok_0,
            cfg,
            second_solver,
            second_bond,
            retry_time,
        ) is Ok,
    ensures
        retry_time > spec_claim(req, cfg, first_solver, first_bond, claim_time)->Ok_0.claim_deadline,
{
}

/// Settlement ends with the deadline: on a claimed, non-finalized request
/// whose deadline has passed, even the owner's settlement attempt fails with
/// `ClaimExpired`, and the record keeps showing the stale claim.  Recovery
/// goes through expiry release and a fresh claim.
pub proof fn lemma_expired_claim_must_be_released(
    req: BridgeRequest,
    cfg: BridgeConfig,
    caller: AccountId,
    solver_wallet: AccountId,
    now: i64,
)
    requires
        req.claimed,
        !req.finalized,
        now > req.claim_deadline,
        caller == cfg.owner,
    ensures
        spec_settle(req, cfg, caller, solver_wallet, now) == Err::<BridgeRequest, ErrorCode>(
            ErrorCode::ClaimExpired,
        ),
{
}

/// Settlement happens exactly once: on the record a successful settlement
/// leaves behind, every further settlement attempt by the owner fails with
/// `RequestAlreadyFinalized`, at any time and towards any wallet.
pub proof fn lemma_settle_exactly_once(
    req: BridgeRequest,
    cfg: BridgeConfig,
    caller: AccountId,
    solver_wallet: AccountId,
    now: i64,
    second_caller: AccountId,
    second_wallet: AccountId,
    later: i64,
)
    requires
        spec_settle(req, cfg, caller, solver_wallet, now) is Ok,
        second_caller == cfg.owner,
    ensures
        spec_settle(
            spec_settle(req, cfg, caller, solver_wallet, now)->Ok_0,
            cfg,
            second_caller,
            second_wallet,
            later,
        ) == Err::<BridgeRequest, ErrorCode>(ErrorCode::RequestAlreadyFinalized),
{
}

/// The expiry split conserves the bond: slash and refund always recombine
/// to the whole bond, and under a well-formed configuration the slash never
/// exceeds the bond.
pub proof fn lemma_expiry_split_conserves_bond(bond: u64, cfg: BridgeConfig)
    requires
        cfg.wf(),
    ensures
        0 <= spec_slash(bond, cfg) <= bond,
        spec_slash(bond, cfg) + (bond - spec_slash(bond, cfg)) == bond,
{
    let product = bond * cfg.slash_bps;
    vstd::arithmetic::mul::lemma_mul_nonnegative(bond as int, cfg.slash_bps as int);
    vstd::arithmetic::mul::lemma_mul_upper_bound(
        cfg.slash_bps as int,
        BPS_DENOMINATOR as int,
        bond as int,
        bond as int,
    );
    assert(cfg.slash_bps * bond == product) by {
        vstd::arithmetic::mul::lemma_mul_is_commutative(bond as int, cfg.slash_bps as int);
    }
    vstd::arithmetic::div_mod::lemma_div_pos_is_pos(product, BPS_DENOMINATOR as int);
    vstd::arithmetic::div_mod::lemma_div_is_ordered(
        product,
        (BPS_DENOMINATOR as int) * (bond as int),
        BPS_DENOMINATOR as int,
    );
    vstd::arithmetic::div_mod::lemma_div_multiples_vanish(
        bond as int,
        BPS_DENOMINATOR as int,
    );
}

} // verus!

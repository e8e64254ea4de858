use private_bridge::errors::ErrorCode;
use private_bridge::ids::AccountId;
use private_bridge::ledger::BridgeLedger;

fn owner() -> AccountId {
    AccountId { id: 100 }
}

fn payer() -> AccountId {
    AccountId { id: 1 }
}

fn mint() -> AccountId {
    AccountId { id: 2 }
}

fn deposited(min_solver_bond: u64, claim_window_secs: i64) -> BridgeLedger {
    let mut l = BridgeLedger::init_config(
        owner(),
        50,
        10,
        1000,
        claim_window_secs,
        min_solver_bond,
        1000,
    );
    l.initiate_bridge(
        payer(),
        mint(),
        11,
        42,
        [9u8; 32],
        [1u8; 16],
        [1u8; 32],
        [2u8; 32],
        [3u8; 32],
        [4u8; 32],
        1_000_000,
        0,
    )
    .unwrap();
    l
}

#[test]
fn second_claim_within_window_is_blocked() {
    // Mutual exclusion: while the first claim's window is open, any other
    // claim attempt fails with ActiveClaim.
    let mut l = deposited(100, 600);
    let first = l
        .claim_bridge(AccountId { id: 7 }, 12, payer(), 42, [8u8; 32], 100, 0)
        .unwrap();
    assert_eq!(first.deadline, 600);
    let r = l.claim_bridge(AccountId { id: 8 }, 13, payer(), 42, [7u8; 32], 100, 600);
    assert_eq!(r.unwrap_err(), ErrorCode::ActiveClaim);
    // The record still carries the first solver.
    let e = l.get_request(payer(), 42).unwrap();
    assert_eq!(e.req.solver, AccountId { id: 7 });
}

#[test]
fn claim_after_deadline_without_release_succeeds() {
    // Past the deadline the request may be re-claimed directly; the old
    // bond stays in the vault until an expiry release, so the vault holds
    // both bonds while the record shows only the new one.
    let mut l = deposited(100, 600);
    l.claim_bridge(AccountId { id: 7 }, 12, payer(), 42, [8u8; 32], 100, 0)
        .unwrap();
    let second = l
        .claim_bridge(AccountId { id: 8 }, 13, payer(), 42, [7u8; 32], 100, 601)
        .unwrap();
    assert_eq!(second.solver, AccountId { id: 8 });
    assert_eq!(second.deadline, 601 + 600);
    let e = l.get_request(payer(), 42).unwrap();
    assert_eq!(e.req.bond_lamports, 100);
    assert_eq!(e.bond_vault, 200);
}

#[test]
fn zero_min_bond_is_a_misconfiguration() {
    let mut l = deposited(0, 600);
    let r = l.claim_bridge(AccountId { id: 7 }, 12, payer(), 42, [8u8; 32], 100, 0);
    assert_eq!(r.unwrap_err(), ErrorCode::BondTooLow);
}

#[test]
fn bond_below_minimum_is_rejected() {
    let mut l = deposited(100, 600);
    let r = l.claim_bridge(AccountId { id: 7 }, 12, payer(), 42, [8u8; 32], 99, 0);
    assert_eq!(r.unwrap_err(), ErrorCode::BondTooLow);
    // A bond above the minimum is accepted and locked in full.
    let ev = l
        .claim_bridge(AccountId { id: 7 }, 12, payer(), 42, [8u8; 32], 150, 0)
        .unwrap();
    assert_eq!(ev.bond, 150);
    let e = l.get_request(payer(), 42).unwrap();
    assert_eq!(e.req.bond_lamports, 150);
    assert_eq!(e.bond_vault, 150);
}

#[test]
fn claim_deadline_overflow_is_fatal() {
    let mut l = deposited(100, 600);
    let r = l.claim_bridge(AccountId { id: 7 }, 12, payer(), 42, [8u8; 32], 100, i64::MAX);
    assert_eq!(r.unwrap_err(), ErrorCode::MathOverflow);
}

#[test]
fn claim_on_missing_request_fails() {
    let mut l = deposited(100, 600);
    let r = l.claim_bridge(AccountId { id: 7 }, 12, payer(), 999, [8u8; 32], 100, 0);
    assert_eq!(r.unwrap_err(), ErrorCode::RequestNotFound);
}

#[test]
fn claim_event_reports_bond_and_deadline() {
    let mut l = deposited(250, 3600);
    let ev = l
        .claim_bridge(AccountId { id: 7 }, 12, payer(), 42, [8u8; 32], 250, 50)
        .unwrap();
    assert_eq!(ev.request_id, 42);
    assert_eq!(ev.solver, AccountId { id: 7 });
    assert_eq!(ev.bond, 250);
    assert_eq!(ev.deadline, 3650);
}

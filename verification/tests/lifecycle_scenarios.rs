use private_bridge::errors::ErrorCode;
use private_bridge::ids::AccountId;
use private_bridge::ledger::BridgeLedger;

#[allow(non_snake_case)]
fn OWNER() -> AccountId {
    AccountId { id: 100 }
}

#[allow(non_snake_case)]
fn PAYER() -> AccountId {
    AccountId { id: 1 }
}

#[allow(non_snake_case)]
fn MINT() -> AccountId {
    AccountId { id: 2 }
}

#[allow(non_snake_case)]
fn SOLVER() -> AccountId {
    AccountId { id: 7 }
}

fn ledger_with_deposit() -> BridgeLedger {
    // fee_bps=50, min_fee=10, max_fee=1000, window=600s, bond=100, slash=10%.
    let mut l = BridgeLedger::init_config(OWNER(), 50, 10, 1000, 600, 100, 1000);
    let ev = l
        .initiate_bridge(
            PAYER(),
            MINT(),
            11,
            42,
            [9u8; 32],
            [1u8; 16],
            [1u8; 32],
            [2u8; 32],
            [3u8; 32],
            [4u8; 32],
            1_000_000,
            0,
        )
        .unwrap();
    assert_eq!(ev.amount_after_fee + ev.fee, 1_000_000);
    l
}

#[test]
fn scenario_expire_and_slash() {
    // Claim with bond 100 at t=0 (window 600); release at t=601 with
    // slash_bps=1000: slash 10 to the collector, refund 90 to the solver,
    // and the request is open again.
    let mut l = ledger_with_deposit();
    let claimed = l.claim_bridge(SOLVER(), 12, PAYER(), 42, [8u8; 32], 100, 0).unwrap();
    assert_eq!(claimed.bond, 100);
    assert_eq!(claimed.deadline, 600);

    let before = l.get_request(PAYER(), 42).unwrap();
    assert_eq!(before.bond_vault, 100);
    assert!(before.req.claimed);

    let (expired, refund) = l.release_expired_claim(PAYER(), 42, SOLVER(), 601).unwrap();
    assert_eq!(expired.slashed, 10);
    assert_eq!(refund, 90);
    assert_eq!(expired.solver, SOLVER());

    let after = l.get_request(PAYER(), 42).unwrap();
    assert!(!after.req.claimed);
    assert_eq!(after.req.bond_lamports, 0);
    assert_eq!(after.req.solver, AccountId { id: 0 });
    assert_eq!(after.bond_vault, 0);
    // Conservation: vault held 100; 10 + 90 left it.
    assert_eq!(before.bond_vault - after.bond_vault, expired.slashed + refund);

    // The reopened request may be claimed again.
    assert!(l.claim_bridge(SOLVER(), 13, PAYER(), 42, [8u8; 32], 100, 700).is_ok());
}

#[test]
fn scenario_settle_pays_solver_once() {
    // Claim at t=0, settle at t=300: payout = net + fee, bond refunded,
    // request finalized; a second settle fails with RequestAlreadyFinalized.
    let mut l = ledger_with_deposit();
    l.claim_bridge(SOLVER(), 12, PAYER(), 42, [8u8; 32], 100, 0).unwrap();

    let receipt = l
        .verify_and_settle_spl(
            OWNER(),
            PAYER(),
            42,
            SOLVER(),
            [0xAA; 32],
            [0xBB; 32],
            String::from("https://example.invalid/evidence"),
            300,
        )
        .unwrap();
    assert_eq!(receipt.paid.payout, 1_000_000);
    assert_eq!(receipt.paid.solver, SOLVER());
    assert_eq!(receipt.bond_refund, 100);
    assert_eq!(receipt.verified.relayer, OWNER());
    assert_eq!(receipt.verified.dest_tx_hash, [0xAA; 32]);
    assert_eq!(receipt.verified.evidence_hash, [0xBB; 32]);
    assert_eq!(
        receipt.verified.evidence_url,
        String::from("https://example.invalid/evidence")
    );

    let after = l.get_request(PAYER(), 42).unwrap();
    assert!(after.req.finalized);
    assert!(!after.req.claimed);
    assert_eq!(after.req.bond_lamports, 0);
    assert_eq!(after.req.solver, AccountId { id: 0 });
    assert_eq!(after.escrow, 0);
    assert_eq!(after.bond_vault, 0);

    let again = l.verify_and_settle_spl(
        OWNER(),
        PAYER(),
        42,
        SOLVER(),
        [0xAA; 32],
        [0xBB; 32],
        String::from("x"),
        301,
    );
    assert_eq!(again.unwrap_err(), ErrorCode::RequestAlreadyFinalized);
    // No additional fund movement: balances unchanged.
    let still = l.get_request(PAYER(), 42).unwrap();
    assert_eq!(still.escrow, 0);
    assert_eq!(still.bond_vault, 0);
}

#[test]
fn scenario_settle_after_deadline_is_refused() {
    // Claim at t=0 (window 600); the relayer tries to settle at t=700
    // without an expiry release: ClaimExpired, and the record still shows
    // the claim until someone releases it.
    let mut l = ledger_with_deposit();
    l.claim_bridge(SOLVER(), 12, PAYER(), 42, [8u8; 32], 100, 0).unwrap();

    let r = l.verify_and_settle_spl(
        OWNER(),
        PAYER(),
        42,
        SOLVER(),
        [0u8; 32],
        [0u8; 32],
        String::from("late"),
        700,
    );
    assert_eq!(r.unwrap_err(), ErrorCode::ClaimExpired);

    let e = l.get_request(PAYER(), 42).unwrap();
    assert!(e.req.claimed);
    assert!(!e.req.finalized);
    assert_eq!(e.req.solver, SOLVER());
    assert_eq!(e.bond_vault, 100);
}

#[test]
fn finalized_request_cannot_be_claimed() {
    let mut l = ledger_with_deposit();
    l.claim_bridge(SOLVER(), 12, PAYER(), 42, [8u8; 32], 100, 0).unwrap();
    l.verify_and_settle_spl(
        OWNER(),
        PAYER(),
        42,
        SOLVER(),
        [0u8; 32],
        [0u8; 32],
        String::from("ok"),
        10,
    )
    .unwrap();
    let r = l.claim_bridge(AccountId { id: 8 }, 14, PAYER(), 42, [8u8; 32], 100, 1000);
    assert_eq!(r.unwrap_err(), ErrorCode::AlreadyFinalized);
}

#[test]
fn conservation_across_full_lifecycle() {
    // Escrow + vault changes match exactly the declared movements at every
    // step of deposit, claim and settlement.
    let mut l = ledger_with_deposit();
    let e0 = l.get_request(PAYER(), 42).unwrap();
    assert_eq!(e0.escrow + e0.bond_vault, 1_000_000);

    l.claim_bridge(SOLVER(), 12, PAYER(), 42, [8u8; 32], 100, 0).unwrap();
    let e1 = l.get_request(PAYER(), 42).unwrap();
    assert_eq!(e1.escrow + e1.bond_vault, 1_000_000 + 100);

    let receipt = l
        .verify_and_settle_spl(
            OWNER(),
            PAYER(),
            42,
            SOLVER(),
            [0u8; 32],
            [0u8; 32],
            String::from("ok"),
            5,
        )
        .unwrap();
    let e2 = l.get_request(PAYER(), 42).unwrap();
    assert_eq!(
        e2.escrow + e2.bond_vault + receipt.paid.payout + receipt.bond_refund,
        e1.escrow + e1.bond_vault
    );
    assert_eq!(e2.escrow + e2.bond_vault, 0);
}

use private_bridge::codec::{nonce_from_bytes, nonce_to_bytes};
use private_bridge::errors::ErrorCode;
use private_bridge::gateway::{
    plan_payout, plan_payout_callback, reseal_destination, Argument, ComputationOutputs,
    DestWords, JobBoard, PlanPayoutOutput,
};
use private_bridge::ids::AccountId;
use private_bridge::ledger::BridgeLedger;

fn owner() -> AccountId {
    AccountId { id: 100 }
}

fn payer() -> AccountId {
    AccountId { id: 1 }
}

#[test]
fn deposit_queues_plan_payout_job_with_callback() {
    let mut l = BridgeLedger::init_config(owner(), 50, 10, 1000, 600, 100, 1000);
    l.initiate_bridge(
        payer(),
        AccountId { id: 2 },
        77,
        42,
        [9u8; 32],
        [5u8; 16],
        [1u8; 32],
        [2u8; 32],
        [3u8; 32],
        [4u8; 32],
        500,
        0,
    )
    .unwrap();
    assert_eq!(l.jobs.jobs.len(), 1);
    let job = &l.jobs.jobs[0];
    assert_eq!(job.job_id, 77);
    assert!(job.has_callback);
    assert_eq!(job.args.len(), 6);
    assert_eq!(job.args[0], Argument::ArcisPubkey([9u8; 32]));
    assert_eq!(
        job.args[1],
        Argument::PlaintextU128(u128::from_le_bytes([5u8; 16]))
    );
    assert_eq!(job.args[2], Argument::EncryptedU64([1u8; 32]));
    assert_eq!(job.args[5], Argument::EncryptedU64([4u8; 32]));
}

#[test]
fn claim_queues_reseal_job_without_callback() {
    let mut l = BridgeLedger::init_config(owner(), 50, 10, 1000, 600, 100, 1000);
    l.initiate_bridge(
        payer(),
        AccountId { id: 2 },
        77,
        42,
        [9u8; 32],
        [5u8; 16],
        [1u8; 32],
        [2u8; 32],
        [3u8; 32],
        [4u8; 32],
        500,
        0,
    )
    .unwrap();
    l.claim_bridge(AccountId { id: 7 }, 78, payer(), 42, [8u8; 32], 100, 0)
        .unwrap();
    assert_eq!(l.jobs.jobs.len(), 2);
    let job = &l.jobs.jobs[1];
    assert_eq!(job.job_id, 78);
    assert!(!job.has_callback);
    // Sealed to the solver's key; same nonce and ciphertext words.
    assert_eq!(job.args[0], Argument::ArcisPubkey([8u8; 32]));
    assert_eq!(
        job.args[1],
        Argument::PlaintextU128(u128::from_le_bytes([5u8; 16]))
    );
    assert_eq!(job.args[2], Argument::EncryptedU64([1u8; 32]));
}

#[test]
fn queue_plan_payout_pair_form() {
    let mut l = BridgeLedger::init_config(owner(), 50, 10, 1000, 600, 100, 1000);
    l.queue_plan_payout(5, [6u8; 32], 99, [7u8; 32], [8u8; 32]);
    assert_eq!(l.jobs.jobs.len(), 1);
    let job = &l.jobs.jobs[0];
    assert_eq!(job.job_id, 5);
    assert!(job.has_callback);
    assert_eq!(job.args.len(), 4);
    assert_eq!(job.args[0], Argument::ArcisPubkey([6u8; 32]));
    assert_eq!(job.args[1], Argument::PlaintextU128(99));
    assert_eq!(job.args[2], Argument::EncryptedU64([7u8; 32]));
    assert_eq!(job.args[3], Argument::EncryptedU64([8u8; 32]));
}

#[test]
fn job_resolves_at_most_once() {
    let mut board = JobBoard::new();
    board.queue(5, Vec::new(), true);
    board.queue(6, Vec::new(), false);
    let first = board.resolve(5);
    assert!(first.is_some());
    assert_eq!(first.unwrap().job_id, 5);
    // The job is gone: a second resolution yields nothing.
    assert!(board.resolve(5).is_none());
    // Unrelated jobs stay outstanding.
    assert_eq!(board.jobs.len(), 1);
    assert_eq!(board.jobs[0].job_id, 6);
}

#[test]
fn resolve_unknown_job_yields_nothing() {
    let mut board = JobBoard::new();
    assert!(board.resolve(5).is_none());
}

#[test]
fn callback_success_emits_attestation_nonce() {
    let nonce_bytes: [u8; 16] = [1, 2, 3, 4, 5, 6, 7, 8, 9, 10, 11, 12, 13, 14, 15, 16];
    let nonce = u128::from_le_bytes(nonce_bytes);
    let out = ComputationOutputs::Success(PlanPayoutOutput { nonce });
    let ev = plan_payout_callback(&out).unwrap();
    // The attestation carries the depositor's nonce, byte for byte.
    assert_eq!(ev.nonce, nonce_bytes);
}

#[test]
fn callback_failure_aborts_without_effect() {
    let r = plan_payout_callback(&ComputationOutputs::Failure);
    assert_eq!(r.unwrap_err(), ErrorCode::AbortedComputation);
}

#[test]
fn nonce_codec_matches_little_endian() {
    let b: [u8; 16] = [1, 0, 0, 0, 0, 0, 0, 0, 0, 0, 0, 0, 0, 0, 0, 2];
    let x = nonce_from_bytes(&b);
    assert_eq!(x, 1 + (2u128 << 120));
    assert_eq!(x, u128::from_le_bytes(b));
    assert_eq!(nonce_to_bytes(x), b);
    assert_eq!(nonce_to_bytes(0x0102_0304), [4, 3, 2, 1, 0, 0, 0, 0, 0, 0, 0, 0, 0, 0, 0, 0]);
}

#[test]
fn circuits_pass_destination_words_through() {
    let d = DestWords { w0: 1, w1: 2, w2: 3, w3: 4 };
    assert_eq!(plan_payout(&d), (1, 2, 3, 4));
    assert_eq!(reseal_destination(&d), (1, 2, 3, 4));
}

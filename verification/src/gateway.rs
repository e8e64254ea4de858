use vstd::prelude::*;

use crate::codec::{nonce_to_bytes, spec_nonce_to_bytes};
use crate::errors::ErrorCode;
use crate::events::AttestationQueued;

verus! {

/// One argument handed to the confidential-computation service.
#[derive(Clone, Copy, Debug, PartialEq, Eq)]
pub enum Argument {
    /// An x25519 public key the result is sealed to.
    ArcisPubkey([u8; 32]),
    /// A plaintext 128-bit value, used for the correlation nonce.
    PlaintextU128(u128),
    /// One fixed-width encrypted 64-bit word.
    EncryptedU64([u8; 32]),
}

/// An outstanding job on the confidential-computation service, keyed by a
/// caller-chosen offset.  A job either carries a callback (payout planning)
/// or none (reseal; its result is read out of band by the solver).
#[derive(Debug)]
pub struct ComputationJob {
    pub job_id: u64,
    pub args: Vec<Argument>,
    pub has_callback: bool,
}

/// The ghost image of an outstanding job.
pub struct JobView {
    pub job_id: u64,
    pub args: Seq<Argument>,
    pub has_callback: bool,
}

impl View for ComputationJob {
    type V = JobView;

    open spec fn view(&self) -> JobView {
        JobView { job_id: self.job_id, args: self.args@, has_callback: self.has_callback }
    }
}

/// The set of outstanding jobs: one message out per `queue`, at most one
/// resolution per job.  The service's reply may arrive at any later time or
/// never; nothing here waits for it.
#[derive(Debug)]
pub struct JobBoard {
    pub jobs: Vec<ComputationJob>,
}

impl JobBoard {
    /// The outstanding jobs, in queueing order.
    pub open spec fn job_views(self) -> Seq<JobView> {
        self.jobs@.map_values(|j: ComputationJob| j@)
    }

    /// Whether a job with this offset is outstanding.
    pub open spec fn contains_job(self, job_id: u64) -> bool {
        exists|i: int|
            #![trigger self.jobs@[i]]
            0 <= i < self.jobs@.len() && self.jobs@[i].job_id == job_id
    }

    /// Outstanding offsets are pairwise distinct: a caller must never reuse
    /// an offset while its job is still live.
    pub open spec fn wf(self) -> bool {
        forall|i: int, j: int|
            #![trigger self.jobs@[i], self.jobs@[j]]
            0 <= i < j < self.jobs@.len() ==> self.jobs@[i].job_id != self.jobs@[j].job_id
    }

    /// An empty board.
    pub fn new() -> (r: JobBoard)
        ensures
            r.wf(),
            r.job_views() == Seq::<JobView>::empty(),
    {
        let r = JobBoard { jobs: Vec::new() };
        proof {
            assert(r.job_views() =~= Seq::<JobView>::empty());
        }
        r
    }

    /// Submits a job under a fresh caller-chosen offset.
    pub fn queue(&mut self, job_id: u64, args: Vec<Argument>, has_callback: bool)
        requires
            old(self).wf(),
            !old(self).contains_job(job_id),
        ensures
            final(self).wf(),
            final(self).job_views() == old(self).job_views().push(
                (JobView { job_id, args: args@, has_callback }),
            ),
            final(self).contains_job(job_id),
    {
        let ghost pre_views = self.job_views();
        let ghost arg_view = args@;
        self.jobs.push(ComputationJob { job_id, args, has_callback });
        proof {
            assert(self.job_views() =~= pre_views.push(
                JobView { job_id, args: arg_view, has_callback },
            ));
            assert(self.jobs@[self.jobs@.len() - 1].job_id == job_id);
        }
    }

    /// Takes an outstanding job off the board when the service resolves it.
    /// A resolved job is gone: resolving the same offset again yields
    /// nothing, so no job is ever resolved twice.
    pub fn resolve(&mut self, job_id: u64) -> (r: Option<ComputationJob>)
        requires
            old(self).wf(),
        ensures
            final(self).wf(),
            !final(self).contains_job(job_id),
            old(self).contains_job(job_id) ==> (r matches Some(job) && job.job_id == job_id
                && old(self).job_views().contains(job@)),
            !old(self).contains_job(job_id) ==> r is None && final(self).job_views() == old(
                self,
            ).job_views(),
            forall|id: u64|
                id != job_id ==> final(self).contains_job(id) == old(self).contains_job(id),
    {
        let ghost pre = *old(self);
        let mut i: usize = 0;
        while i < self.jobs.len()
            invariant
                *self == pre,
                pre == *old(self),
                pre.wf(),
                0 <= i <= pre.jobs@.len(),
                forall|k: int| #![trigger pre.jobs@[k]] 0 <= k < i ==> pre.jobs@[k].job_id != job_id,
            decreases pre.jobs@.len() - i,
        {
            if self.jobs[i].job_id == job_id {
                let ghost gi = i as int;
                let job = self.jobs.remove(i);
                proof {
                    assert(pre.contains_job(job_id));
                    assert(pre.job_views().contains(job@)) by {
                        assert(pre.job_views()[gi] == job@);
                    }
                    assert(self.jobs@ == pre.jobs@.remove(gi));
                    pre.jobs@.remove_ensures(gi);
                    assert forall|k: int| 0 <= k < gi implies self.jobs@[k] == pre.jobs@[k] by {
                        assert(pre.jobs@.remove(gi)[k] == pre.jobs@[k]);
                    }
                    assert forall|k: int|
                        gi <= k < self.jobs@.len() implies self.jobs@[k] == pre.jobs@[k + 1] by {
                        assert(pre.jobs@.remove(gi)[k] == pre.jobs@[k + 1]);
                    }
                    assert forall|id: u64|
                        id != job_id implies self.contains_job(id) == pre.contains_job(id) by {
                        if self.contains_job(id) {
                            let k = choose|k: int|
                                0 <= k < self.jobs@.len() && #[trigger] self.jobs@[k].job_id == id;
                            if k < gi {
                                assert(pre.jobs@[k].job_id == id);
                            } else {
                                assert(pre.jobs@[k + 1].job_id == id);
                            }
                            assert(pre.contains_job(id));
                        }
                        if pre.contains_job(id) {
                            let k = choose|k: int|
                                0 <= k < pre.jobs@.len() && #[trigger] pre.jobs@[k].job_id == id;
                            assert(k != gi);
                            if k < gi {
                                assert(self.jobs@[k].job_id == id);
                            } else {
                                assert(self.jobs@[k - 1].job_id == id);
                            }
                            assert(self.contains_job(id));
                        }
                    }
                    assert(!self.contains_job(job_id)) by {
                        if self.contains_job(job_id) {
                            let k = choose|k: int|
                                0 <= k < self.jobs@.len() && #[trigger] self.jobs@[k].job_id
                                    == job_id;
                            if k < gi {
                                assert(pre.jobs@[k].job_id == job_id);
                                assert(false);
                            } else {
                                assert(pre.jobs@[k + 1].job_id == job_id);
                                assert(pre.jobs@[gi].job_id == job_id);
                                assert(false);
                            }
                        }
                    }
                    assert(self.wf()) by {
                        assert forall|a: int, b: int|
                            0 <= a < b < self.jobs@.len() implies self.jobs@[a].job_id
                            != self.jobs@[b].job_id by {
                            let a0: int = if a < gi {
                                a
                            } else {
                                a + 1
                            };
                            let b0: int = if b < gi {
                                b
                            } else {
                                b + 1
                            };
                            assert(self.jobs@[a] == pre.jobs@[a0]);
                            assert(self.jobs@[b] == pre.jobs@[b0]);
                            assert(pre.jobs@[a0].job_id != pre.jobs@[b0].job_id);
                        }
                    }
                }
                return Some(job);
            }
            i = i + 1;
        }
        proof {
            assert(!pre.contains_job(job_id));
        }
        None
    }
}

/// The argument list of a destination-bearing job: the recipient of the
/// sealed result, the correlation nonce, and the four encrypted words of the
/// destination address.  Payout planning seals to the depositor's key;
/// reseal seals to the claiming solver's key.
pub open spec fn spec_destination_args(
    recipient_key: [u8; 32],
    nonce_le: u128,
    w0: [u8; 32],
    w1: [u8; 32],
    w2: [u8; 32],
    w3: [u8; 32],
) -> Seq<Argument> {
    seq![
        Argument::ArcisPubkey(recipient_key),
        Argument::PlaintextU128(nonce_le),
        Argument::EncryptedU64(w0),
        Argument::EncryptedU64(w1),
        Argument::EncryptedU64(w2),
        Argument::EncryptedU64(w3),
    ]
}

/// Marshals the arguments of a destination-bearing job.
pub fn destination_args(
    recipient_key: [u8; 32],
    nonce_le: u128,
    w0: [u8; 32],
    w1: [u8; 32],
    w2: [u8; 32],
    w3: [u8; 32],
) -> (r: Vec<Argument>)
    ensures
        r@ == spec_destination_args(recipient_key, nonce_le, w0, w1, w2, w3),
{
    let mut v: Vec<Argument> = Vec::new();
    v.push(Argument::ArcisPubkey(recipient_key));
    v.push(Argument::PlaintextU128(nonce_le));
    v.push(Argument::EncryptedU64(w0));
    v.push(Argument::EncryptedU64(w1));
    v.push(Argument::EncryptedU64(w2));
    v.push(Argument::EncryptedU64(w3));
    proof {
        assert(v@ =~= spec_destination_args(recipient_key, nonce_le, w0, w1, w2, w3));
    }
    v
}

/// The argument list of a payout-planning job given directly as an
/// (amount, recipient tag) ciphertext pair.
pub open spec fn spec_payout_pair_args(
    pub_key: [u8; 32],
    nonce: u128,
    amount_ct: [u8; 32],
    recipient_tag_ct: [u8; 32],
) -> Seq<Argument> {
    seq![
        Argument::ArcisPubkey(pub_key),
        Argument::PlaintextU128(nonce),
        Argument::EncryptedU64(amount_ct),
        Argument::EncryptedU64(recipient_tag_ct),
    ]
}

/// Marshals the arguments of a payout-planning job given as a ciphertext
/// pair.
pub fn payout_pair_args(
    pub_key: [u8; 32],
    nonce: u128,
    amount_ct: [u8; 32],
    recipient_tag_ct: [u8; 32],
) -> (r: Vec<Argument>)
    ensures
        r@ == spec_payout_pair_args(pub_key, nonce, amount_ct, recipient_tag_ct),
{
    let mut v: Vec<Argument> = Vec::new();
    v.push(Argument::ArcisPubkey(pub_key));
    v.push(Argument::PlaintextU128(nonce));
    v.push(Argument::EncryptedU64(amount_ct));
    v.push(Argument::EncryptedU64(recipient_tag_ct));
    proof {
        assert(v@ =~= spec_payout_pair_args(pub_key, nonce, amount_ct, recipient_tag_ct));
    }
    v
}

/// The decoded payload of a resolved payout-planning job.
#[derive(Clone, Copy, Debug, PartialEq, Eq, Structural)]
pub struct PlanPayoutOutput {
    /// The correlation nonce the depositor supplied.
    pub nonce: u128,
}

/// What the confidential-computation service reports for a job: its decoded
/// payload on success, or nothing usable on any other outcome.
#[derive(Clone, Copy, Debug, PartialEq, Eq, Structural)]
pub enum ComputationOutputs {
    Success(PlanPayoutOutput),
    Failure,
}

/// Demultiplexes the payout-planning callback into a domain event.
///
/// On success it emits the attestation event carrying the correlation nonce
/// in wire form; the event is advisory and changes no request state.  Any
/// other outcome fails with `AbortedComputation` and mutates nothing: the
/// deposit it belongs to has long committed, so a failed computation only
/// delays attestation, never custody.
pub fn plan_payout_callback(output: &ComputationOutputs) -> (r: Result<
    AttestationQueued,
    ErrorCode,
>)
    ensures
        match *output {
            ComputationOutputs::Success(o) => r matches Ok(ev) && ev.nonce@
                == spec_nonce_to_bytes(o.nonce),
            ComputationOutputs::Failure => r == Err::<AttestationQueued, ErrorCode>(
                ErrorCode::AbortedComputation,
            ),
        },
{
    match output {
        ComputationOutputs::Success(o) => Ok(AttestationQueued { nonce: nonce_to_bytes(o.nonce) }),
        ComputationOutputs::Failure => Err(ErrorCode::AbortedComputation),
    }
}

/// The destination address in plaintext, as the four fixed-width words the
/// computation primitive works on.
#[derive(Clone, Copy, Debug, PartialEq, Eq, Structural)]
pub struct DestWords {
    pub w0: u64,
    pub w1: u64,
    pub w2: u64,
    pub w3: u64,
}

/// What the payout-planning circuit computes on its decrypted input: it
/// passes the four destination words through, resealed to the depositor's
/// key.  Stated here on plaintext; the encrypted evaluation itself is the
/// service's business.
pub fn plan_payout(input: &DestWords) -> (r: (u64, u64, u64, u64))
    ensures
        r == (input.w0, input.w1, input.w2, input.w3),
{
    (input.w0, input.w1, input.w2, input.w3)
}

/// What the reseal circuit computes on its decrypted input: the same
/// passthrough as payout planning, but sealed to the claiming solver's key.
pub fn reseal_destination(input: &DestWords) -> (r: (u64, u64, u64, u64))
    ensures
        r == (input.w0, input.w1, input.w2, input.w3),
{
    (input.w0, input.w1, input.w2, input.w3)
}

} // verus!

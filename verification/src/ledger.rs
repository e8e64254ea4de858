use vstd::prelude::*;

use crate::codec::{nonce_from_bytes, spec_nonce_from_bytes};
use crate::config::{BridgeConfig, BPS_DENOMINATOR};
use crate::errors::ErrorCode;
use crate::events::{
    BridgeClaimExpired, BridgeClaimed, BridgeInitiated, BridgePaidToSolver, BridgeVerifiedUrl,
    IncomingBridgeDelivered,
};
use crate::fee::{compute_fee, spec_fee, spec_net};
use crate::gateway::{
    destination_args, payout_pair_args, spec_destination_args, spec_payout_pair_args, JobBoard,
    JobView,
};
use crate::ids::AccountId;
use crate::lifecycle::{spec_claim, spec_expire, spec_settle, spec_slash};
use crate::request::BridgeRequest;

verus! {

/// One request's record together with its custodial balances: the escrow
/// holding `amount_locked + fee_locked` from deposit until settlement, and
/// the bond vault holding the current claim's bond.
#[derive(Clone, Copy, Debug)]
pub struct RequestEntry {
    pub req: BridgeRequest,
    /// Balance of the request's escrow sub-account.
    pub escrow: u64,
    /// Balance of the request's bond-vault sub-account.
    pub bond_vault: u64,
}

/// Custody invariant of one entry: the escrow holds exactly the locked value
/// until settlement drains it, and the vault covers at least the recorded
/// bond (a re-claim after an unreleased expiry can leave an excess behind).
pub open spec fn entry_wf(e: RequestEntry) -> bool {
    &&& e.req.wf()
    &&& e.escrow == if e.req.finalized {
        0int
    } else {
        e.req.amount_locked + e.req.fee_locked
    }
    &&& e.bond_vault >= e.req.bond_lamports
}

/// Whether an entry is stored under this `(payer, request_id)` key.
pub open spec fn entry_key_matches(e: RequestEntry, payer: AccountId, request_id: u64) -> bool {
    e.req.payer == payer && e.req.request_id == request_id
}

/// The entry a deposit of `amount` creates: an open request holding the fee
/// split of the amount, with the whole amount in escrow and an empty vault.
pub open spec fn spec_new_entry(
    payer: AccountId,
    mint: AccountId,
    request_id: u64,
    client_pubkey: [u8; 32],
    nonce_le: u128,
    w0: [u8; 32],
    w1: [u8; 32],
    w2: [u8; 32],
    w3: [u8; 32],
    amount: u64,
    cfg: BridgeConfig,
    now: i64,
) -> RequestEntry {
    RequestEntry {
        req: BridgeRequest {
            request_id,
            payer,
            token_mint: mint,
            amount_locked: spec_net(amount, cfg) as u64,
            fee_locked: spec_fee(amount, cfg) as u64,
            created_at: now,
            claimed: false,
            solver: AccountId { id: 0 },
            claim_deadline: 0,
            bond_lamports: 0,
            finalized: false,
            client_pubkey,
            nonce_le,
            dest_ct_w0: w0,
            dest_ct_w1: w1,
            dest_ct_w2: w2,
            dest_ct_w3: w3,
        },
        escrow: amount,
        bond_vault: 0,
    }
}

/// The claim transition on an entry: on top of the record's claim
/// transition, the solver's bond moves into the bond vault, whose new
/// balance must be representable.
pub open spec fn spec_claim_entry(
    e: RequestEntry,
    cfg: BridgeConfig,
    solver: AccountId,
    bond: u64,
    now: i64,
) -> Result<RequestEntry, ErrorCode> {
    match spec_claim(e.req, cfg, solver, bond, now) {
        Err(c) => Err(c),
        Ok(r2) => if e.bond_vault + bond > u64::MAX {
            Err(ErrorCode::MathOverflow)
        } else {
            Ok(
                (RequestEntry {
                    req: r2,
                    escrow: e.escrow,
                    bond_vault: (e.bond_vault + bond) as u64,
                }),
            )
        },
    }
}

/// The expiry-release transition on an entry: the whole recorded bond
/// leaves the vault (which must still cover it), split into the slashed
/// part for the collector and the refund for the previous solver.
/// The result carries `(entry, slashed, refunded)`.
pub open spec fn spec_expire_entry(
    e: RequestEntry,
    cfg: BridgeConfig,
    prev_solver: AccountId,
    now: i64,
) -> Result<(RequestEntry, u64, u64), ErrorCode> {
    match spec_expire(e.req, cfg, prev_solver, now) {
        Err(c) => Err(c),
        Ok(r2) => {
            let slash = spec_slash(e.req.bond_lamports, cfg);
            if e.bond_vault < e.req.bond_lamports {
                Err(ErrorCode::MathOverflow)
            } else {
                Ok(
                    ((RequestEntry {
                        req: r2,
                        escrow: e.escrow,
                        bond_vault: (e.bond_vault - e.req.bond_lamports) as u64,
                    }), slash as u64, (e.req.bond_lamports - slash) as u64),
                )
            }
        },
    }
}

/// The settlement transition on an entry: on top of the record's settlement
/// transition, the payout (net plus fee) leaves the escrow towards the
/// solver and the recorded bond leaves the vault back to the solver.
/// The result carries `(entry, payout, bond refund)`.
pub open spec fn spec_settle_entry(
    e: RequestEntry,
    cfg: BridgeConfig,
    caller: AccountId,
    solver_wallet: AccountId,
    now: i64,
) -> Result<(RequestEntry, u64, u64), ErrorCode> {
    match spec_settle(e.req, cfg, caller, solver_wallet, now) {
        Err(c) => Err(c),
        Ok(r2) => {
            let payout = e.req.payout();
            if e.escrow < payout {
                Err(ErrorCode::InsufficientEscrowBalance)
            } else if e.bond_vault < e.req.bond_lamports {
                Err(ErrorCode::MathOverflow)
            } else {
                Ok(
                    ((RequestEntry {
                        req: r2,
                        escrow: (e.escrow - payout) as u64,
                        bond_vault: (e.bond_vault - e.req.bond_lamports) as u64,
                    }), payout as u64, e.req.bond_lamports),
                )
            }
        },
    }
}

/// What a successful settlement hands back: the two events to publish and
/// the bond amount to move from the vault back to the solver's wallet.
#[derive(Debug)]
pub struct SettlementReceipt {
    pub verified: BridgeVerifiedUrl,
    pub paid: BridgePaidToSolver,
    /// Bond to return from the bond vault to the solver's wallet.
    pub bond_refund: u64,
}

/// What an admitted outgoing release hands back: the event to publish, the
/// escrow balance left behind, and whether the drained escrow account may
/// now be closed.
#[derive(Clone, Copy, Debug, PartialEq, Eq)]
pub struct DeliveryReceipt {
    pub event: IncomingBridgeDelivered,
    pub escrow_remaining: u64,
    pub close_escrow: bool,
}

/// The bridge's whole state: the owner-gated configuration, the keyed store
/// of requests with their custodial balances, and the outstanding
/// confidential-computation jobs.
///
/// Every mutation of a request goes through one of the methods here, each a
/// single atomic step: either it returns `Ok` and leaves exactly the state
/// and fund movements its contract declares, or it returns the declared
/// error and changes nothing.
#[derive(Debug)]
pub struct BridgeLedger {
    pub config: BridgeConfig,
    pub requests: Vec<RequestEntry>,
    pub jobs: JobBoard,
}

impl BridgeLedger {
    /// The ledger's invariant: a well-formed configuration, well-formed
    /// entries under pairwise-distinct keys, and distinct outstanding jobs.
    pub open spec fn wf(self) -> bool {
        &&& self.config.wf()
        &&& forall|i: int|
            #![trigger self.requests@[i]]
            0 <= i < self.requests@.len() ==> entry_wf(self.requests@[i])
        &&& forall|i: int, j: int|
            #![trigger self.requests@[i], self.requests@[j]]
            0 <= i < j < self.requests@.len() ==> !(self.requests@[i].req.payer
                == self.requests@[j].req.payer && self.requests@[i].req.request_id
                == self.requests@[j].req.request_id)
        &&& self.jobs.wf()
    }

    /// Whether a request is stored under this key.
    pub open spec fn has_request(self, payer: AccountId, request_id: u64) -> bool {
        exists|i: int|
            #![trigger self.requests@[i]]
            0 <= i < self.requests@.len() && entry_key_matches(
                self.requests@[i],
                payer,
                request_id,
            )
    }

    /// The position of the request stored under this key.
    pub open spec fn request_index(self, payer: AccountId, request_id: u64) -> int {
        choose|i: int|
            #![trigger self.requests@[i]]
            0 <= i < self.requests@.len() && entry_key_matches(
                self.requests@[i],
                payer,
                request_id,
            )
    }

    /// Creates the bridge with its initial configuration; the caller becomes
    /// the owner, relayer and slash collector.
    pub fn init_config(
        payer: AccountId,
        fee_bps: u16,
        min_fee: u64,
        max_fee: u64,
        claim_window_secs: i64,
        min_solver_bond: u64,
        slash_bps: u16,
    ) -> (r: BridgeLedger)
        requires
            fee_bps <= BPS_DENOMINATOR,
            slash_bps <= BPS_DENOMINATOR,
        ensures
            r.wf(),
            r.config == (BridgeConfig {
                owner: payer,
                fee_bps,
                min_fee,
                max_fee,
                claim_window_secs,
                min_solver_bond,
                slash_bps,
            }),
            r.requests@ == Seq::<RequestEntry>::empty(),
            r.jobs.job_views() == Seq::<JobView>::empty(),
    {
        let r = BridgeLedger {
            config: BridgeConfig {
                owner: payer,
                fee_bps,
                min_fee,
                max_fee,
                claim_window_secs,
                min_solver_bond,
                slash_bps,
            },
            requests: Vec::new(),
            jobs: JobBoard::new(),
        };
        proof {
            assert(r.requests@ =~= Seq::<RequestEntry>::empty());
        }
        r
    }

    /// Updates the supplied configuration fields in one atomic, owner-gated
    /// step; absent fields keep their value.
    pub fn set_config(
        &mut self,
        authority: AccountId,
        fee_bps: Option<u16>,
        min_fee: Option<u64>,
        max_fee: Option<u64>,
        claim_window_secs: Option<i64>,
        min_solver_bond: Option<u64>,
        slash_bps: Option<u16>,
    ) -> (r: Result<(), ErrorCode>)
        requires
            old(self).wf(),
            fee_bps matches Some(v) ==> v <= BPS_DENOMINATOR,
            slash_bps matches Some(v) ==> v <= BPS_DENOMINATOR,
        ensures
            final(self).wf(),
            final(self).requests@ == old(self).requests@,
            final(self).jobs.job_views() == old(self).jobs.job_views(),
            authority != old(self).config.owner ==> r == Err::<(), ErrorCode>(ErrorCode::OnlyOwner)
                && final(self).config == old(self).config,
            authority == old(self).config.owner ==> r == Ok::<(), ErrorCode>(())
                && final(self).config == (BridgeConfig {
                owner: old(self).config.owner,
                fee_bps: if fee_bps is Some {
                    fee_bps->0
                } else {
                    old(self).config.fee_bps
                },
                min_fee: if min_fee is Some {
                    min_fee->0
                } else {
                    old(self).config.min_fee
                },
                max_fee: if max_fee is Some {
                    max_fee->0
                } else {
                    old(self).config.max_fee
                },
                claim_window_secs: if claim_window_secs is Some {
                    claim_window_secs->0
                } else {
                    old(self).config.claim_window_secs
                },
                min_solver_bond: if min_solver_bond is Some {
                    min_solver_bond->0
                } else {
                    old(self).config.min_solver_bond
                },
                slash_bps: if slash_bps is Some {
                    slash_bps->0
                } else {
                    old(self).config.slash_bps
                },
            }),
    {
        if authority != self.config.owner {
            return Err(ErrorCode::OnlyOwner);
        }
        if let Some(v) = fee_bps {
            self.config.fee_bps = v;
        }
        if let Some(v) = min_fee {
            self.config.min_fee = v;
        }
        if let Some(v) = max_fee {
            self.config.max_fee = v;
        }
        if let Some(v) = claim_window_secs {
            self.config.claim_window_secs = v;
        }
        if let Some(v) = min_solver_bond {
            self.config.min_solver_bond = v;
        }
        if let Some(v) = slash_bps {
            self.config.slash_bps = v;
        }
        Ok(())
    }

    /// Finds the position of the request stored under `(payer, request_id)`.
    fn find_request(&self, payer: AccountId, request_id: u64) -> (r: Option<usize>)
        ensures
            match r {
                Some(i) => 0 <= i < self.requests@.len() && entry_key_matches(
                    self.requests@[i as int],
                    payer,
                    request_id,
                ),
                None => !self.has_request(payer, request_id),
            },
    {
        let n = self.requests.len();
        let mut i: usize = 0;
        while i < n
            invariant
                n == self.requests@.len(),
                0 <= i <= n,
                forall|k: int|
                    #![trigger self.requests@[k]]
                    0 <= k < i ==> !entry_key_matches(self.requests@[k], payer, request_id),
            decreases n - i,
        {
            let e = &self.requests[i];
            if e.req.payer.id == payer.id && e.req.request_id == request_id {
                return Some(i);
            }
            i = i + 1;
        }
        None
    }

    /// Reads the request stored under `(payer, request_id)`, with its
    /// custodial balances.
    pub fn get_request(&self, payer: AccountId, request_id: u64) -> (r: Option<RequestEntry>)
        requires
            self.wf(),
        ensures
            match r {
                Some(e) => self.has_request(payer, request_id) && e == self.requests@[
                    self.request_index(payer, request_id)],
                None => !self.has_request(payer, request_id),
            },
    {
        match self.find_request(payer, request_id) {
            Some(i) => {
                proof {
                    lemma_request_index_is(*self, payer, request_id, i as int);
                }
                Some(self.requests[i])
            },
            None => None,
        }
    }

    /// Queues a payout-planning job under a fresh caller-chosen offset,
    /// with the arguments given as an (amount, recipient tag) ciphertext
    /// pair.  The job carries the attestation callback.
    pub fn queue_plan_payout(
        &mut self,
        computation_offset: u64,
        pub_key: [u8; 32],
        nonce: u128,
        amount_ct: [u8; 32],
        recipient_tag_ct: [u8; 32],
    )
        requires
            old(self).wf(),
            !old(self).jobs.contains_job(computation_offset),
        ensures
            final(self).wf(),
            final(self).config == old(self).config,
            final(self).requests@ == old(self).requests@,
            final(self).jobs.job_views() == old(self).jobs.job_views().push(
                (JobView {
                    job_id: computation_offset,
                    args: spec_payout_pair_args(pub_key, nonce, amount_ct, recipient_tag_ct),
                    has_callback: true,
                }),
            ),
    {
        let args = payout_pair_args(pub_key, nonce, amount_ct, recipient_tag_ct);
        self.jobs.queue(computation_offset, args, true);
    }

    /// Deposits a gross amount of `mint` against a fresh `(payer,
    /// request_id)` key: the fee split is computed, the whole amount is
    /// locked in the request's escrow, the record is created open, and a
    /// payout-planning job carrying the encrypted destination material is
    /// queued under `computation_offset` with the attestation callback.
    ///
    /// The caller locks the gross amount into the escrow sub-account and
    /// submits the queued job; both it and the record commit atomically.
    #[verifier::rlimit(30)]
    pub fn initiate_bridge(
        &mut self,
        payer: AccountId,
        mint: AccountId,
        computation_offset: u64,
        request_id: u64,
        client_pubkey: [u8; 32],
        nonce: [u8; 16],
        destination_ct0: [u8; 32],
        destination_ct1: [u8; 32],
        destination_ct2: [u8; 32],
        destination_ct3: [u8; 32],
        amount: u64,
        now: i64,
    ) -> (r: Result<BridgeInitiated, ErrorCode>)
        requires
            old(self).wf(),
            !old(self).jobs.contains_job(computation_offset),
            now >= 0,
        ensures
            final(self).wf(),
            final(self).config == old(self).config,
            old(self).has_request(payer, request_id) ==> r == Err::<BridgeInitiated, ErrorCode>(
                ErrorCode::DuplicateRequest,
            ) && final(self).requests@ == old(self).requests@ && final(self).jobs.job_views()
                == old(self).jobs.job_views(),
            !old(self).has_request(payer, request_id) ==> ({
                let nonce_le = spec_nonce_from_bytes(nonce@);
                &&& r == Ok::<BridgeInitiated, ErrorCode>(
                    (BridgeInitiated {
                        request_id,
                        sender: payer,
                        token: mint,
                        amount_after_fee: spec_net(amount, old(self).config) as u64,
                        fee: spec_fee(amount, old(self).config) as u64,
                        ts: now as u64,
                    }),
                )
                &&& final(self).requests@ == old(self).requests@.push(
                    spec_new_entry(
                        payer,
                        mint,
                        request_id,
                        client_pubkey,
                        nonce_le,
                        destination_ct0,
                        destination_ct1,
                        destination_ct2,
                        destination_ct3,
                        amount,
                        old(self).config,
                        now,
                    ),
                )
                &&& final(self).jobs.job_views() == old(self).jobs.job_views().push(
                    (JobView {
                        job_id: computation_offset,
                        args: spec_destination_args(
                            client_pubkey,
                            nonce_le,
                            destination_ct0,
                            destination_ct1,
                            destination_ct2,
                            destination_ct3,
                        ),
                        has_callback: true,
                    }),
                )
                &&& final(self).has_request(payer, request_id)
            }),
    {
        if self.find_request(payer, request_id).is_some() {
            return Err(ErrorCode::DuplicateRequest);
        }
        let (net, fee) = compute_fee(amount, &self.config);
        let nonce_le = nonce_from_bytes(&nonce);
        let entry = RequestEntry {
            req: BridgeRequest {
                request_id,
                payer,
                token_mint: mint,
                amount_locked: net,
                fee_locked: fee,
                created_at: now,
                claimed: false,
                solver: AccountId::absent(),
                claim_deadline: 0,
                bond_lamports: 0,
                finalized: false,
                client_pubkey,
                nonce_le,
                dest_ct_w0: destination_ct0,
                dest_ct_w1: destination_ct1,
                dest_ct_w2: destination_ct2,
                dest_ct_w3: destination_ct3,
            },
            escrow: amount,
            bond_vault: 0,
        };
        let ghost pre = *self;
        self.requests.push(entry);
        proof {
            let n = pre.requests@.len() as int;
            assert(self.requests@[n] == entry);
            assert(entry_wf(entry));
            assert forall|i: int, j: int|
                0 <= i < j < self.requests@.len() implies !(self.requests@[i].req.payer
                == self.requests@[j].req.payer && #[trigger] self.requests@[j].req.request_id
                == #[trigger] self.requests@[i].req.request_id) by {
                if j < n {
                    assert(pre.requests@[i] == self.requests@[i]);
                    assert(pre.requests@[j] == self.requests@[j]);
                } else {
                    assert(self.requests@[i] == pre.requests@[i]);
                    assert(!entry_key_matches(pre.requests@[i], payer, request_id));
                }
            }
            lemma_request_index_is(*self, payer, request_id, n);
        }
        let args = destination_args(
            client_pubkey,
            nonce_le,
            destination_ct0,
            destination_ct1,
            destination_ct2,
            destination_ct3,
        );
        self.jobs.queue(computation_offset, args, true);
        Ok(
            BridgeInitiated {
                request_id,
                sender: payer,
                token: mint,
                amount_after_fee: net,
                fee,
                ts: now as u64,
            },
        )
    }

    /// Deposits the native asset: the gross lamports are wrapped into the
    /// native mint's escrow and the deposit proceeds as `initiate_bridge`
    /// under the native mint.
    pub fn initiate_bridge_sol(
        &mut self,
        payer: AccountId,
        computation_offset: u64,
        request_id: u64,
        client_pubkey: [u8; 32],
        nonce: [u8; 16],
        destination_ct0: [u8; 32],
        destination_ct1: [u8; 32],
        destination_ct2: [u8; 32],
        destination_ct3: [u8; 32],
        lamports: u64,
        now: i64,
    ) -> (r: Result<BridgeInitiated, ErrorCode>)
        requires
            old(self).wf(),
            !old(self).jobs.contains_job(computation_offset),
            now >= 0,
        ensures
            final(self).wf(),
            final(self).config == old(self).config,
            old(self).has_request(payer, request_id) ==> r == Err::<BridgeInitiated, ErrorCode>(
                ErrorCode::DuplicateRequest,
            ) && final(self).requests@ == old(self).requests@ && final(self).jobs.job_views()
                == old(self).jobs.job_views(),
            !old(self).has_request(payer, request_id) ==> ({
                let nonce_le = spec_nonce_from_bytes(nonce@);
                let mint = AccountId { id: crate::ids::NATIVE_MINT_ID };
                &&& r == Ok::<BridgeInitiated, ErrorCode>(
                    (BridgeInitiated {
                        request_id,
                        sender: payer,
                        token: mint,
                        amount_after_fee: spec_net(lamports, old(self).config) as u64,
                        fee: spec_fee(lamports, old(self).config) as u64,
                        ts: now as u64,
                    }),
                )
                &&& final(self).requests@ == old(self).requests@.push(
                    spec_new_entry(
                        payer,
                        mint,
                        request_id,
                        client_pubkey,
                        nonce_le,
                        destination_ct0,
                        destination_ct1,
                        destination_ct2,
                        destination_ct3,
                        lamports,
                        old(self).config,
                        now,
                    ),
                )
                &&& final(self).jobs.job_views() == old(self).jobs.job_views().push(
                    (JobView {
                        job_id: computation_offset,
                        args: spec_destination_args(
                            client_pubkey,
                            nonce_le,
                            destination_ct0,
                            destination_ct1,
                            destination_ct2,
                            destination_ct3,
                        ),
                        has_callback: true,
                    }),
                )
                &&& final(self).has_request(payer, request_id)
            }),
    {
        self.initiate_bridge(
            payer,
            AccountId::native_mint(),
            computation_offset,
            request_id,
            client_pubkey,
            nonce,
            destination_ct0,
            destination_ct1,
            destination_ct2,
            destination_ct3,
            lamports,
            now,
        )
    }

    /// Claims the request under `(request_owner, request_id)` for `solver`,
    /// who offers `bond`.
    ///
    /// Admitted only while no other claim is live (none recorded, or the
    /// recorded one past its deadline), on a non-finalized request, with a
    /// bond reaching the configured positive minimum.  The bond moves into
    /// the request's bond vault and the claim window opens until
    /// `now + claim_window_secs`.  A reseal job sealing the destination to
    /// `solver_x25519` is queued under the fresh offset, without a callback:
    /// the solver reads its result out of band.  The caller locks the bond
    /// and submits the job.
    #[verifier::rlimit(30)]
    pub fn claim_bridge(
        &mut self,
        solver: AccountId,
        computation_offset_reseal: u64,
        request_owner: AccountId,
        request_id: u64,
        solver_x25519: [u8; 32],
        bond: u64,
        now: i64,
    ) -> (r: Result<BridgeClaimed, ErrorCode>)
        requires
            old(self).wf(),
            !old(self).jobs.contains_job(computation_offset_reseal),
        ensures
            final(self).wf(),
            final(self).config == old(self).config,
            !old(self).has_request(request_owner, request_id) ==> r == Err::<
                BridgeClaimed,
                ErrorCode,
            >(ErrorCode::RequestNotFound) && final(self).requests@ == old(self).requests@
                && final(self).jobs.job_views() == old(self).jobs.job_views(),
            old(self).has_request(request_owner, request_id) ==> ({
                let i = old(self).request_index(request_owner, request_id);
                let e = old(self).requests@[i];
                match spec_claim_entry(e, old(self).config, solver, bond, now) {
                    Ok(e2) => {
                        &&& r == Ok::<BridgeClaimed, ErrorCode>(
                            (BridgeClaimed {
                                request_id,
                                solver,
                                bond,
                                deadline: e2.req.claim_deadline,
                            }),
                        )
                        &&& final(self).requests@ == old(self).requests@.update(i, e2)
                        &&& final(self).jobs.job_views() == old(self).jobs.job_views().push(
                            (JobView {
                                job_id: computation_offset_reseal,
                                args: spec_destination_args(
                                    solver_x25519,
                                    e.req.nonce_le,
                                    e.req.dest_ct_w0,
                                    e.req.dest_ct_w1,
                                    e.req.dest_ct_w2,
                                    e.req.dest_ct_w3,
                                ),
                                has_callback: false,
                            }),
                        )
                    },
                    Err(c) => {
                        &&& r == Err::<BridgeClaimed, ErrorCode>(c)
                        &&& final(self).requests@ == old(self).requests@
                        &&& final(self).jobs.job_views() == old(self).jobs.job_views()
                    },
                }
            }),
    {
        let i = match self.find_request(request_owner, request_id) {
            None => {
                return Err(ErrorCode::RequestNotFound);
            },
            Some(i) => i,
        };
        proof {
            lemma_request_index_is(*self, request_owner, request_id, i as int);
        }
        let e = self.requests[i];
        if e.req.finalized {
            return Err(ErrorCode::AlreadyFinalized);
        }
        if e.req.claimed && now <= e.req.claim_deadline {
            return Err(ErrorCode::ActiveClaim);
        }
        if self.config.min_solver_bond == 0 || bond < self.config.min_solver_bond {
            return Err(ErrorCode::BondTooLow);
        }
        let deadline = match now.checked_add(self.config.claim_window_secs) {
            None => {
                return Err(ErrorCode::MathOverflow);
            },
            Some(d) => d,
        };
        let vault2 = match e.bond_vault.checked_add(bond) {
            None => {
                return Err(ErrorCode::MathOverflow);
            },
            Some(v) => v,
        };
        let e2 = RequestEntry {
            req: BridgeRequest {
                claimed: true,
                solver,
                claim_deadline: deadline,
                bond_lamports: bond,
                ..e.req
            },
            escrow: e.escrow,
            bond_vault: vault2,
        };
        let ghost pre = *self;
        self.requests.set(i, e2);
        proof {
            let gi = i as int;
            assert(entry_wf(e2));
            assert forall|a: int, b: int|
                0 <= a < b < self.requests@.len() implies !(self.requests@[a].req.payer
                == self.requests@[b].req.payer && #[trigger] self.requests@[b].req.request_id
                == #[trigger] self.requests@[a].req.request_id) by {
                assert(pre.requests@[a].req.payer == self.requests@[a].req.payer
                    && pre.requests@[a].req.request_id == self.requests@[a].req.request_id);
                assert(pre.requests@[b].req.payer == self.requests@[b].req.payer
                    && pre.requests@[b].req.request_id == self.requests@[b].req.request_id);
            }
        }
        let args = destination_args(
            solver_x25519,
            e.req.nonce_le,
            e.req.dest_ct_w0,
            e.req.dest_ct_w1,
            e.req.dest_ct_w2,
            e.req.dest_ct_w3,
        );
        self.jobs.queue(computation_offset_reseal, args, false);
        Ok(BridgeClaimed { request_id, solver, bond, deadline })
    }

    /// Releases an expired claim on `(request_owner, request_id)`:
    /// permissionless liveness, callable by anyone once `now` is past the
    /// claim deadline.  The whole recorded bond leaves the vault: the
    /// slashed part (`bond * slash_bps / 10000`) goes to the configured
    /// owner as collector, the rest back to `prev_solver`, who must be the
    /// recorded solver.  The record returns to open so a new solver may
    /// claim.  On success the caller pays the slash to the collector and
    /// the returned refund to the previous solver.
    #[verifier::rlimit(30)]
    pub fn release_expired_claim(
        &mut self,
        request_owner: AccountId,
        request_id: u64,
        prev_solver: AccountId,
        now: i64,
    ) -> (r: Result<(BridgeClaimExpired, u64), ErrorCode>)
        requires
            old(self).wf(),
        ensures
            final(self).wf(),
            final(self).config == old(self).config,
            final(self).jobs.job_views() == old(self).jobs.job_views(),
            !old(self).has_request(request_owner, request_id) ==> r == Err::<
                (BridgeClaimExpired, u64),
                ErrorCode,
            >(ErrorCode::RequestNotFound) && final(self).requests@ == old(self).requests@,
            old(self).has_request(request_owner, request_id) ==> ({
                let i = old(self).request_index(request_owner, request_id);
                let e = old(self).requests@[i];
                match spec_expire_entry(e, old(self).config, prev_solver, now) {
                    Ok((e2, slashed, refunded)) => {
                        &&& r == Ok::<(BridgeClaimExpired, u64), ErrorCode>(
                            ((BridgeClaimExpired { request_id, solver: prev_solver, slashed }),
                            refunded),
                        )
                        &&& final(self).requests@ == old(self).requests@.update(i, e2)
                    },
                    Err(c) => {
                        &&& r == Err::<(BridgeClaimExpired, u64), ErrorCode>(c)
                        &&& final(self).requests@ == old(self).requests@
                    },
                }
            }),
    {
        let i = match self.find_request(request_owner, request_id) {
            None => {
                return Err(ErrorCode::RequestNotFound);
            },
            Some(i) => i,
        };
        proof {
            lemma_request_index_is(*self, request_owner, request_id, i as int);
        }
        let e = self.requests[i];
        if !e.req.claimed {
            return Err(ErrorCode::NoClaim);
        }
        if now <= e.req.claim_deadline {
            return Err(ErrorCode::ActiveClaim);
        }
        if prev_solver != e.req.solver {
            return Err(ErrorCode::InvalidOwner);
        }
        let bond = e.req.bond_lamports;
        if bond == 0 {
            return Err(ErrorCode::BondTooLow);
        }
        proof {
            vstd::arithmetic::mul::lemma_mul_upper_bound(
                bond as int,
                u64::MAX as int,
                self.config.slash_bps as int,
                u16::MAX as int,
            );
        }
        let wide: u128 = (bond as u128) * (self.config.slash_bps as u128);
        let slash128: u128 = wide / (BPS_DENOMINATOR as u128);
        if slash128 > bond as u128 {
            return Err(ErrorCode::MathOverflow);
        }
        let slashed: u64 = slash128 as u64;
        if e.bond_vault < bond {
            return Err(ErrorCode::MathOverflow);
        }
        let refunded: u64 = bond - slashed;
        let e2 = RequestEntry {
            req: BridgeRequest {
                claimed: false,
                solver: AccountId::absent(),
                claim_deadline: 0,
                bond_lamports: 0,
                ..e.req
            },
            escrow: e.escrow,
            bond_vault: e.bond_vault - bond,
        };
        let ghost pre = *self;
        self.requests.set(i, e2);
        proof {
            assert(entry_wf(e2));
            assert forall|a: int, b: int|
                0 <= a < b < self.requests@.len() implies !(self.requests@[a].req.payer
                == self.requests@[b].req.payer && #[trigger] self.requests@[b].req.request_id
                == #[trigger] self.requests@[a].req.request_id) by {
                assert(pre.requests@[a].req.payer == self.requests@[a].req.payer
                    && pre.requests@[a].req.request_id == self.requests@[a].req.request_id);
                assert(pre.requests@[b].req.payer == self.requests@[b].req.payer
                    && pre.requests@[b].req.request_id == self.requests@[b].req.request_id);
            }
        }
        Ok((BridgeClaimExpired { request_id, solver: prev_solver, slashed }, refunded))
    }

    /// Settles `(request_owner, request_id)` on the relayer's delivery
    /// evidence, recorded verbatim and unverified: the relayer, who must be
    /// the configured owner, is trusted.  Admitted exactly once per
    /// request, while the claim is live and `solver_wallet` is the recorded
    /// solver.  The payout (net plus fee) drains the escrow towards the
    /// solver, the bond returns from the vault, and the record becomes
    /// terminal.  On success the caller pays the receipt's payout to the
    /// solver's token account and its bond refund to the solver's wallet,
    /// atomically with this call.
    #[verifier::rlimit(30)]
    pub fn verify_and_settle_spl(
        &mut self,
        relayer: AccountId,
        request_owner: AccountId,
        request_id: u64,
        solver_wallet: AccountId,
        dest_tx_hash: [u8; 32],
        evidence_hash: [u8; 32],
        evidence_url: String,
        now: i64,
    ) -> (r: Result<SettlementReceipt, ErrorCode>)
        requires
            old(self).wf(),
        ensures
            final(self).wf(),
            final(self).config == old(self).config,
            final(self).jobs.job_views() == old(self).jobs.job_views(),
            !old(self).has_request(request_owner, request_id) ==> (r matches Err(c) && c
                == ErrorCode::RequestNotFound) && final(self).requests@ == old(self).requests@,
            old(self).has_request(request_owner, request_id) ==> ({
                let i = old(self).request_index(request_owner, request_id);
                let e = old(self).requests@[i];
                match spec_settle_entry(e, old(self).config, relayer, solver_wallet, now) {
                    Ok((e2, payout, bond_refund)) => {
                        &&& r matches Ok(receipt)
                        &&& receipt.verified == (BridgeVerifiedUrl {
                            request_id,
                            relayer,
                            dest_tx_hash,
                            evidence_hash,
                            evidence_url,
                        })
                        &&& receipt.paid == (BridgePaidToSolver {
                            request_id,
                            solver: solver_wallet,
                            token_mint: e.req.token_mint,
                            payout,
                        })
                        &&& receipt.bond_refund == bond_refund
                        &&& final(self).requests@ == old(self).requests@.update(i, e2)
                    },
                    Err(c) => {
                        &&& r matches Err(c2) && c2 == c
                        &&& final(self).requests@ == old(self).requests@
                    },
                }
            }),
    {
        let i = match self.find_request(request_owner, request_id) {
            None => {
                return Err(ErrorCode::RequestNotFound);
            },
            Some(i) => i,
        };
        proof {
            lemma_request_index_is(*self, request_owner, request_id, i as int);
        }
        let e = self.requests[i];
        if relayer != self.config.owner {
            return Err(ErrorCode::OnlyOwner);
        }
        if e.req.finalized {
            return Err(ErrorCode::RequestAlreadyFinalized);
        }
        if !e.req.claimed {
            return Err(ErrorCode::NoClaim);
        }
        if now > e.req.claim_deadline {
            return Err(ErrorCode::ClaimExpired);
        }
        if solver_wallet != e.req.solver {
            return Err(ErrorCode::InvalidOwner);
        }
        let payout = match e.req.amount_locked.checked_add(e.req.fee_locked) {
            None => {
                return Err(ErrorCode::MathOverflow);
            },
            Some(p) => p,
        };
        if e.escrow < payout {
            return Err(ErrorCode::InsufficientEscrowBalance);
        }
        let bond = e.req.bond_lamports;
        if e.bond_vault < bond {
            return Err(ErrorCode::MathOverflow);
        }
        let e2 = RequestEntry {
            req: BridgeRequest {
                finalized: true,
                claimed: false,
                solver: AccountId::absent(),
                claim_deadline: 0,
                bond_lamports: 0,
                ..e.req
            },
            escrow: e.escrow - payout,
            bond_vault: e.bond_vault - bond,
        };
        let ghost pre = *self;
        self.requests.set(i, e2);
        proof {
            assert(entry_wf(e2));
            assert forall|a: int, b: int|
                0 <= a < b < self.requests@.len() implies !(self.requests@[a].req.payer
                == self.requests@[b].req.payer && #[trigger] self.requests@[b].req.request_id
                == #[trigger] self.requests@[a].req.request_id) by {
                assert(pre.requests@[a].req.payer == self.requests@[a].req.payer
                    && pre.requests@[a].req.request_id == self.requests@[a].req.request_id);
                assert(pre.requests@[b].req.payer == self.requests@[b].req.payer
                    && pre.requests@[b].req.request_id == self.requests@[b].req.request_id);
            }
        }
        Ok(
            SettlementReceipt {
                verified: BridgeVerifiedUrl {
                    request_id,
                    relayer,
                    dest_tx_hash,
                    evidence_hash,
                    evidence_url,
                },
                paid: BridgePaidToSolver {
                    request_id,
                    solver: solver_wallet,
                    token_mint: e.req.token_mint,
                    payout,
                },
                bond_refund: bond,
            },
        )
    }

    /// Releases `amount` of `mint` from an inbound-delivery escrow to a
    /// recipient.  Only the configured owner (as relayer) may release, and
    /// the escrow must cover the amount; the receipt says how much stays
    /// behind and whether the drained escrow account may be closed.  The
    /// caller performs the transfer it describes.
    pub fn deliver_tokens(
        &self,
        relayer: AccountId,
        mint: AccountId,
        recipient: AccountId,
        escrow_balance: u64,
        amount: u64,
    ) -> (r: Result<DeliveryReceipt, ErrorCode>)
        ensures
            relayer != self.config.owner ==> r == Err::<DeliveryReceipt, ErrorCode>(
                ErrorCode::OnlyOwner,
            ),
            relayer == self.config.owner && escrow_balance < amount ==> r == Err::<
                DeliveryReceipt,
                ErrorCode,
            >(ErrorCode::InsufficientEscrowBalance),
            relayer == self.config.owner && escrow_balance >= amount ==> r == Ok::<
                DeliveryReceipt,
                ErrorCode,
            >(
                (DeliveryReceipt {
                    event: IncomingBridgeDelivered { recipient, token: mint, amount },
                    escrow_remaining: (escrow_balance - amount) as u64,
                    close_escrow: escrow_balance == amount,
                }),
            ),
    {
        if relayer != self.config.owner {
            return Err(ErrorCode::OnlyOwner);
        }
        if escrow_balance < amount {
            return Err(ErrorCode::InsufficientEscrowBalance);
        }
        let remaining = escrow_balance - amount;
        Ok(
            DeliveryReceipt {
                event: IncomingBridgeDelivered { recipient, token: mint, amount },
                escrow_remaining: remaining,
                close_escrow: remaining == 0,
            },
        )
    }

    /// Releases `amount` of the native (wrapped) asset from an
    /// inbound-delivery escrow, as `deliver_tokens` under the native mint.
    pub fn deliver_tokens_sol(
        &self,
        relayer: AccountId,
        recipient: AccountId,
        escrow_balance: u64,
        amount: u64,
    ) -> (r: Result<DeliveryReceipt, ErrorCode>)
        ensures
            relayer != self.config.owner ==> r == Err::<DeliveryReceipt, ErrorCode>(
                ErrorCode::OnlyOwner,
            ),
            relayer == self.config.owner && escrow_balance < amount ==> r == Err::<
                DeliveryReceipt,
                ErrorCode,
            >(ErrorCode::InsufficientEscrowBalance),
            relayer == self.config.owner && escrow_balance >= amount ==> r == Ok::<
                DeliveryReceipt,
                ErrorCode,
            >(
                (DeliveryReceipt {
                    event: IncomingBridgeDelivered {
                        recipient,
                        token: AccountId { id: crate::ids::NATIVE_MINT_ID },
                        amount,
                    },
                    escrow_remaining: (escrow_balance - amount) as u64,
                    close_escrow: escrow_balance == amount,
                }),
            ),
    {
        self.deliver_tokens(relayer, AccountId::native_mint(), recipient, escrow_balance, amount)
    }
}

/// A stored key determines its position: under the ledger's invariant no
/// two entries share a key, so the index any search finds is the index.
pub proof fn lemma_request_index_is(l: BridgeLedger, payer: AccountId, request_id: u64, i: int)
    requires
        l.wf(),
        0 <= i < l.requests@.len(),
        entry_key_matches(l.requests@[i], payer, request_id),
    ensures
        l.has_request(payer, request_id),
        l.request_index(payer, request_id) == i,
{
    assert(l.has_request(payer, request_id));
    let j = l.request_index(payer, request_id);
    assert(0 <= j < l.requests@.len() && entry_key_matches(l.requests@[j], payer, request_id));
    if i < j {
        assert(false);
    } else if j < i {
        assert(false);
    }
}

/// A deposit conserves value: the created entry's escrow and vault together
/// hold exactly the gross amount the depositor paid in, and the escrow
/// holds exactly the declared net-plus-fee split.
pub proof fn lemma_deposit_conserves_value(
    payer: AccountId,
    mint: AccountId,
    request_id: u64,
    client_pubkey: [u8; 32],
    nonce_le: u128,
    w0: [u8; 32],
    w1: [u8; 32],
    w2: [u8; 32],
    w3: [u8; 32],
    amount: u64,
    cfg: BridgeConfig,
    now: i64,
)
    ensures
        ({
            let e = spec_new_entry(
                payer,
                mint,
                request_id,
                client_pubkey,
                nonce_le,
                w0,
                w1,
                w2,
                w3,
                amount,
                cfg,
                now,
            );
            &&& e.escrow + e.bond_vault == amount
            &&& e.req.amount_locked + e.req.fee_locked == amount
        }),
{
    vstd::arithmetic::mul::lemma_mul_nonnegative(amount as int, cfg.fee_bps as int);
    vstd::arithmetic::div_mod::lemma_div_pos_is_pos(amount * cfg.fee_bps, BPS_DENOMINATOR as int);
}

/// A claim conserves value: escrow and vault together grow by exactly the
/// bond the solver paid in, and the escrow itself does not move.
pub proof fn lemma_claim_conserves_value(
    e: RequestEntry,
    cfg: BridgeConfig,
    solver: AccountId,
    bond: u64,
    now: i64,
)
    requires
        spec_claim_entry(e, cfg, solver, bond, now) is Ok,
    ensures
        ({
            let e2 = spec_claim_entry(e, cfg, solver, bond, now)->Ok_0;
            &&& e2.escrow + e2.bond_vault == e.escrow + e.bond_vault + bond
            &&& e2.escrow == e.escrow
        }),
{
}

/// An expiry release conserves value: what leaves escrow and vault is
/// exactly what the operation pays out, and slash plus refund recombine to
/// the whole recorded bond.  No value is created or destroyed.
pub proof fn lemma_expire_conserves_value(
    e: RequestEntry,
    cfg: BridgeConfig,
    prev_solver: AccountId,
    now: i64,
)
    requires
        spec_expire_entry(e, cfg, prev_solver, now) is Ok,
    ensures
        ({
            let (e2, slashed, refunded) = spec_expire_entry(e, cfg, prev_solver, now)->Ok_0;
            &&& e2.escrow + e2.bond_vault + slashed + refunded == e.escrow + e.bond_vault
            &&& slashed + refunded == e.req.bond_lamports
            &&& e2.escrow == e.escrow
        }),
{
    vstd::arithmetic::mul::lemma_mul_nonnegative(e.req.bond_lamports as int, cfg.slash_bps as int);
    vstd::arithmetic::div_mod::lemma_div_pos_is_pos(
        e.req.bond_lamports * cfg.slash_bps,
        BPS_DENOMINATOR as int,
    );
}

/// A settlement conserves value: what leaves escrow and vault is exactly
/// the payout plus the bond refund, the payout is the full locked value,
/// and the escrow ends empty.
pub proof fn lemma_settle_conserves_value(
    e: RequestEntry,
    cfg: BridgeConfig,
    caller: AccountId,
    solver_wallet: AccountId,
    now: i64,
)
    requires
        spec_settle_entry(e, cfg, caller, solver_wallet, now) is Ok,
    ensures
        ({
            let (e2, payout, bond_refund) = spec_settle_entry(
                e,
                cfg,
                caller,
                solver_wallet,
                now,
            )->Ok_0;
            &&& e2.escrow + e2.bond_vault + payout + bond_refund == e.escrow + e.bond_vault
            &&& payout == e.req.amount_locked + e.req.fee_locked
            &&& bond_refund == e.req.bond_lamports
            &&& entry_wf(e) ==> e2.escrow == 0
        }),
{
}

} // verus!

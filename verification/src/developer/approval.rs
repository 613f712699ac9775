//! Approving a proposal (a signed, expiring, single-use receipt) and pushing
//! an approved proposal exactly once.
use vstd::prelude::*;
use vstd::string::StringSliceAdditionalSpecFns;
use vstd::utf8::encode_utf8;

use super::crypto::{
    law_hex_roundtrip, decode_hex, hex, hex_decode_panics, hex_decoded, hex_decodes, hex_seq, hmac_sha256,
    hmac_sha256_spec, hmac_sha256_verify,
};
use super::flow::{
    fail_with, failure_of, unexpected, unexpected_answer, ActionView, DeliveryAction,
    DeliveryEvent, DeliveryStep, EventView, StepView,
};
use super::git::path_join;
use super::model::{
    ApprovalClaims, ApprovalReceipt, ClaimsView, ProposalView, PushProposal, ReceiptView,
};
use super::operations::DeliveryService;
use super::proposal::{check_next, check_start, CheckStep, CheckStepView, ProposalCheck};
use super::service::{fingerprint_of, repository_fingerprint, DeliveryError, DeliveryFailure};
use super::store::{record_path_spec, valid_id_spec, DeliveryStore};
use crate::ambient::{is_lower_hex, new_simple_id, now_nanos};
use crate::text::{is_blank, str_eq, string_of, trim_seq, trim_str};

verus! {

broadcast use vstd::string::group_string_axioms;

/// Approval lifetimes, in seconds.
pub open spec fn ttl_allowed(ttl_seconds: i64) -> bool {
    30 <= ttl_seconds <= 3600
}

/// An approval may live between 30 seconds and one hour, both included;
/// any other lifetime is refused.
pub proof fn law_approval_lifetimes(ttl_seconds: i64)
    ensures
        ttl_allowed(ttl_seconds) <==> (30 <= ttl_seconds && ttl_seconds <= 3600),
{
}

/// The signature of claims whose JSON encoding is `claims_bytes`.
pub open spec fn signature_of(key: Seq<u8>, claims_bytes: Seq<u8>) -> Seq<char> {
    hex_seq(hmac_sha256_spec(key, claims_bytes))
}

proof fn lemma_fresh_id_valid(id: Seq<char>)
    requires
        id.len() == 32,
        forall|i: int| 0 <= i < id.len() ==> is_lower_hex(#[trigger] id[i]),
    ensures
        valid_id_spec(id),
{
    assert forall|i: int| 0 <= i < id.len() implies crate::text::is_ascii_alnum(#[trigger] id[i])
        || id[i] == '-' by {
        assert(is_lower_hex(id[i]));
    }
}

/// The key a key file holds, or the error a malformed one gives.
pub fn accept_key_file(bytes: Vec<u8>) -> (r: Result<Vec<u8>, DeliveryError>)
    ensures
        r is Ok <==> bytes@.len() == 32,
        r matches Ok(k) ==> k@ == bytes@,
        r matches Err(e) ==> e@ == DeliveryFailure::State("invalid approval signing key"@),
{
    DeliveryStore::check_approval_key(bytes)
}

// ---------------------------------------------------------------------------
// approve
// ---------------------------------------------------------------------------

#[derive(Debug, Clone, Copy, PartialEq, Eq, Structural)]
pub enum ApproveStage {
    LoadingProposal,
    Checking,
    ReadingKey,
    CreatingKey,
    Signing,
    Saving,
    Finished,
}

/// An approval in progress.
pub struct ApproveFlow {
    pub store: DeliveryStore,
    pub fingerprint: String,
    pub approver: String,
    pub ttl_seconds: i64,
    pub proposal_id: String,
    pub check: Option<ProposalCheck>,
    pub claims: Option<ApprovalClaims>,
    pub key: Vec<u8>,
    pub receipt: Option<ApprovalReceipt>,
    pub stage: ApproveStage,
}

impl DeliveryService {
    /// Starts approving a proposal: an approver must be named and the
    /// lifetime must lie between 30 and 3600 seconds.
    pub fn approve(&self, proposal_id: &str, approver: &str, ttl_seconds: i64) -> (r: (
        ApproveFlow,
        DeliveryStep<ApprovalReceipt>,
    ))
        ensures
            r.0.store.root@ == self.store.root@,
            r.0.fingerprint@ == fingerprint_of(self.repository.root@),
            r.0.approver@ == approver@,
            r.0.ttl_seconds == ttl_seconds,
            r.0.well_formed(),
            r.1@ == if trim_seq(approver@).len() == 0 {
                StepView::<ReceiptView>::Finish(
                    Err(DeliveryFailure::Approval("approver identity is required"@)),
                )
            } else if !ttl_allowed(ttl_seconds) {
                StepView::<ReceiptView>::Finish(
                    Err(DeliveryFailure::Approval("approval TTL must be between 30 and 3600 seconds"@)),
                )
            } else if !valid_id_spec(proposal_id@) {
                StepView::<ReceiptView>::Finish(
                    Err(DeliveryFailure::State("invalid state identifier"@)),
                )
            } else {
                StepView::<ReceiptView>::Perform(
                    ActionView::LoadProposal(record_path_spec(self.store.root@, "proposals"@, proposal_id@)),
                )
            },
            r.1@ is Perform <==> r.0.stage == ApproveStage::LoadingProposal,
            r.1@ is Finish <==> r.0.stage == ApproveStage::Finished,
    {
        let mut flow = ApproveFlow {
            store: DeliveryStore { root: self.store.root.clone() },
            fingerprint: repository_fingerprint(&self.repository),
            approver: string_of(approver),
            ttl_seconds,
            proposal_id: String::new(),
            check: None,
            claims: None,
            key: Vec::new(),
            receipt: None,
            stage: ApproveStage::Finished,
        };
        if is_blank(approver) {
            return (flow, DeliveryStep::Finish(Err(DeliveryError::approval("approver identity is required"))));
        }
        if !(30 <= ttl_seconds && ttl_seconds <= 3600) {
            return (
                flow,
                DeliveryStep::Finish(
                    Err(DeliveryError::approval("approval TTL must be between 30 and 3600 seconds")),
                ),
            );
        }
        match self.store.proposal_path(proposal_id) {
            Err(e) => (flow, DeliveryStep::Finish(Err(e))),
            Ok(path) => {
                flow.stage = ApproveStage::LoadingProposal;
                (flow, DeliveryStep::Perform(DeliveryAction::LoadProposal(path)))
            },
        }
    }
}

/// The claims an approval grants, before its identifier and time are fixed.
pub open spec fn claims_fit(
    c: ClaimsView,
    check: ProposalCheck,
    proposal_id: Seq<char>,
    approver: Seq<char>,
    ttl_seconds: i64,
) -> bool {
    &&& c.proposal_id == proposal_id
    &&& c.intent_hash == check.intent_hash@
    &&& c.approver == trim_seq(approver)
    &&& c.expires_at == c.approved_at + ttl_seconds * 1_000_000_000
    &&& valid_id_spec(c.approval_id)
}

impl ApproveFlow {
    pub open spec fn well_formed(self) -> bool {
        &&& (self.stage == ApproveStage::Checking ==> self.check is Some)
        &&& (self.stage == ApproveStage::ReadingKey || self.stage == ApproveStage::CreatingKey
            || self.stage == ApproveStage::Signing) ==> self.claims is Some
        &&& self.stage == ApproveStage::Saving ==> self.receipt is Some
        &&& (self.stage != ApproveStage::Finished ==> ttl_allowed(self.ttl_seconds))
        &&& self.claims matches Some(c) ==> valid_id_spec(c.approval_id@)
    }

    pub open spec fn fixed(self, other: Self) -> bool {
        &&& self.store.root@ == other.store.root@
        &&& self.fingerprint@ == other.fingerprint@
        &&& self.approver@ == other.approver@
        &&& self.ttl_seconds == other.ttl_seconds
    }

    /// The step after the proposal check passed: claims are made and the key is read.
    pub open spec fn after_check(self, r: StepView<ReceiptView>, check: ProposalCheck) -> bool {
        self.stage == ApproveStage::ReadingKey && (self.claims matches Some(c) && claims_fit(
            c@,
            check,
            self.proposal_id@,
            self.approver@,
            self.ttl_seconds,
        )) && r == StepView::<ReceiptView>::Perform(
            ActionView::ReadApprovalKey(path_join(self.store.root@, "approval.key"@)),
        )
    }

    /// Follows the proposal check's step.
    fn follow_check(&mut self, step: CheckStep) -> (r: DeliveryStep<ApprovalReceipt>)
        requires
            old(self).check is Some,
            ttl_allowed(old(self).ttl_seconds),
            old(self).claims matches Some(c) ==> valid_id_spec(c.approval_id@),
        ensures
            final(self).fixed(*old(self)),
            final(self).well_formed(),
            final(self).check == old(self).check,
            final(self).proposal_id@ == old(self).proposal_id@,
            match step@ {
                CheckStepView::Continue(a) => final(self).stage == ApproveStage::Checking && r@
                    == StepView::<ReceiptView>::Perform(a),
                CheckStepView::Failed(f) => final(self).stage == ApproveStage::Finished && r@
                    == StepView::<ReceiptView>::Finish(Err(f)),
                CheckStepView::Passed => final(self).after_check(r@, old(self).check->0),
            },
    {
        match step {
            CheckStep::Continue(a) => {
                self.stage = ApproveStage::Checking;
                DeliveryStep::Perform(a)
            },
            CheckStep::Failed(e) => {
                self.stage = ApproveStage::Finished;
                DeliveryStep::Finish(Err(e))
            },
            CheckStep::Passed => {
                let intent_hash = match &self.check {
                    Some(c) => c.intent_hash.clone(),
                    None => String::new(),
                };
                let approval_id = new_simple_id();
                proof {
                    lemma_fresh_id_valid(approval_id@);
                }
                let approved_at = now_nanos();
                let claims = ApprovalClaims {
                    approval_id,
                    proposal_id: self.proposal_id.clone(),
                    intent_hash,
                    approver: trim_str(self.approver.as_str()),
                    approved_at,
                    expires_at: approved_at + (self.ttl_seconds as i128) * 1_000_000_000,
                };
                self.claims = Some(claims);
                self.stage = ApproveStage::ReadingKey;
                DeliveryStep::Perform(DeliveryAction::ReadApprovalKey(self.store.approval_key_path()))
            },
        }
    }

    /// Asks for the encoding of the claims to sign.
    fn sign_step(&mut self) -> (r: DeliveryStep<ApprovalReceipt>)
        requires
            old(self).claims is Some,
            old(self).claims matches Some(c) ==> valid_id_spec(c.approval_id@),
            ttl_allowed(old(self).ttl_seconds),
        ensures
            final(self).fixed(*old(self)),
            final(self).well_formed(),
            final(self).key@ == old(self).key@,
            final(self).claims == old(self).claims,
            final(self).stage == ApproveStage::Signing,
            r@ == StepView::<ReceiptView>::Perform(ActionView::EncodeClaims(old(self).claims->0@)),
    {
        self.stage = ApproveStage::Signing;
        match &self.claims {
            Some(c) => DeliveryStep::Perform(DeliveryAction::EncodeClaims(c.duplicate())),
            None => DeliveryStep::Finish(Err(unexpected())),
        }
    }

    /// Advances the approval: the proposal is re-validated, claims are made
    /// for `ttl_seconds` from now, signed with the store's key (created on
    /// first use) and stored.
    pub fn resume(&mut self, ev: DeliveryEvent) -> (r: DeliveryStep<ApprovalReceipt>)
        requires
            old(self).well_formed(),
        ensures
            final(self).fixed(*old(self)),
            final(self).well_formed(),
            old(self).stage == ApproveStage::LoadingProposal ==> match ev@ {
                EventView::Proposal(p) => final(self).proposal_id@ == p.id && (final(self).check matches Some(c) && {
                    &&& c.intent@ == p.intent
                    &&& c.intent_hash@ == p.intent_hash
                    &&& c.fingerprint@ == old(self).fingerprint@
                    &&& c.store.root@ == old(self).store.root@
                    &&& match check_start(p.intent).1 {
                        CheckStepView::Continue(a) => final(self).stage == ApproveStage::Checking
                            && c.stage == check_start(p.intent).0 && r@ == StepView::<ReceiptView>::Perform(a),
                        CheckStepView::Failed(f) => final(self).stage == ApproveStage::Finished && r@
                            == StepView::<ReceiptView>::Finish(Err(f)),
                        CheckStepView::Passed => final(self).after_check(r@, c),
                    }
                }),
                _ => final(self).stage == ApproveStage::Finished && r@ == StepView::<
                    ReceiptView,
                >::Finish(Err(failure_of(ev@))),
            },
            old(self).stage == ApproveStage::Checking ==> (old(self).check matches Some(c0) && {
                let (st, cs) = check_next(
                    c0.intent@,
                    c0.intent_hash@,
                    c0.fingerprint@,
                    c0.store.root@,
                    c0.stage,
                    ev@,
                );
                final(self).check matches Some(c) && c.intent@ == c0.intent@ && c.intent_hash@
                    == c0.intent_hash@ && c.stage == st && match cs {
                    CheckStepView::Continue(a) => final(self).stage == ApproveStage::Checking && r@
                        == StepView::<ReceiptView>::Perform(a),
                    CheckStepView::Failed(f) => final(self).stage == ApproveStage::Finished && r@
                        == StepView::<ReceiptView>::Finish(Err(f)),
                    CheckStepView::Passed => final(self).after_check(r@, c),
                }
            }),
            old(self).stage == ApproveStage::ReadingKey ==> match ev@ {
                EventView::MaybeBytes(Some(k)) => if k.len() == 32 {
                    final(self).stage == ApproveStage::Signing && final(self).key@ == k && (old(self).claims matches Some(c) && r@ == StepView::<ReceiptView>::Perform(
                        ActionView::EncodeClaims(c@),
                    ))
                } else {
                    final(self).stage == ApproveStage::Finished && r@ == StepView::<
                        ReceiptView,
                    >::Finish(Err(DeliveryFailure::State("invalid approval signing key"@)))
                },
                EventView::MaybeBytes(None) => final(self).stage == ApproveStage::CreatingKey
                    && final(self).key@.len() == 32 && r@ == StepView::<ReceiptView>::Perform(
                    ActionView::CreateApprovalKey(
                        path_join(old(self).store.root@, "approval.key"@),
                        final(self).key@,
                    ),
                ),
                _ => final(self).stage == ApproveStage::Finished && r@ == StepView::<
                    ReceiptView,
                >::Finish(Err(failure_of(ev@))),
            },
            old(self).stage == ApproveStage::CreatingKey ==> match ev@ {
                EventView::Done => final(self).stage == ApproveStage::Signing && final(self).key@
                    == old(self).key@ && (old(self).claims matches Some(c) && r@ == StepView::<
                    ReceiptView,
                >::Perform(ActionView::EncodeClaims(c@))),
                EventView::Bytes(k) => final(self).stage == ApproveStage::Signing && final(self).key@ == k && (old(self).claims matches Some(c) && r@ == StepView::<
                    ReceiptView,
                >::Perform(ActionView::EncodeClaims(c@))),
                _ => final(self).stage == ApproveStage::Finished && r@ == StepView::<
                    ReceiptView,
                >::Finish(Err(failure_of(ev@))),
            },
            old(self).stage == ApproveStage::Signing ==> match ev@ {
                EventView::Bytes(b) => final(self).stage == ApproveStage::Saving && (old(self).claims matches Some(c) && final(self).receipt matches Some(rc) && rc@
                    == ReceiptView {
                    claims: c@,
                    signature: signature_of(old(self).key@, b),
                    consumed_at: None,
                } && r@ == StepView::<ReceiptView>::Perform(
                    ActionView::SaveApproval(
                        record_path_spec(old(self).store.root@, "approvals"@, c@.approval_id),
                        rc@,
                    ),
                )),
                _ => final(self).stage == ApproveStage::Finished && r@ == StepView::<
                    ReceiptView,
                >::Finish(Err(failure_of(ev@))),
            },
            old(self).stage == ApproveStage::Saving ==> final(self).stage == ApproveStage::Finished
                && match ev@ {
                EventView::Done => (old(self).receipt matches Some(rc) && r@ == StepView::<
                    ReceiptView,
                >::Finish(Ok(rc@))),
                _ => r@ == StepView::<ReceiptView>::Finish(Err(failure_of(ev@))),
            },
            old(self).stage == ApproveStage::Finished ==> final(self).stage
                == ApproveStage::Finished && r@ == StepView::<ReceiptView>::Finish(
                Err(unexpected_answer()),
            ),
    {
        match self.stage {
            ApproveStage::LoadingProposal => match ev {
                DeliveryEvent::Proposal(p) => {
                    let (check, step) = ProposalCheck::begin(
                        self.fingerprint.as_str(),
                        self.store.root.as_str(),
                        &p,
                    );
                    self.check = Some(check);
                    self.proposal_id = p.id;
                    self.follow_check(step)
                },
                other => {
                    self.stage = ApproveStage::Finished;
                    fail_with(other)
                },
            },
            ApproveStage::Checking => {
                let mut check = match self.check.take() {
                    Some(c) => c,
                    None => {
                        self.stage = ApproveStage::Finished;
                        return DeliveryStep::Finish(Err(unexpected()));
                    },
                };
                let step = check.resume(ev);
                self.check = Some(check);
                self.follow_check(step)
            },
            ApproveStage::ReadingKey => match ev {
                DeliveryEvent::MaybeBytes(Some(k)) => match accept_key_file(k) {
                    Ok(key) => {
                        self.key = key;
                        self.sign_step()
                    },
                    Err(e) => {
                        self.stage = ApproveStage::Finished;
                        DeliveryStep::Finish(Err(e))
                    },
                },
                DeliveryEvent::MaybeBytes(None) => {
                    let key = DeliveryStore::generate_approval_key();
                    let copy = key.clone();
                    self.key = key;
                    self.stage = ApproveStage::CreatingKey;
                    DeliveryStep::Perform(
                        DeliveryAction::CreateApprovalKey(self.store.approval_key_path(), copy),
                    )
                },
                other => {
                    self.stage = ApproveStage::Finished;
                    fail_with(other)
                },
            },
            ApproveStage::CreatingKey => match ev {
                DeliveryEvent::Done => self.sign_step(),
                DeliveryEvent::Bytes(k) => {
                    self.key = k;
                    self.sign_step()
                },
                other => {
                    self.stage = ApproveStage::Finished;
                    fail_with(other)
                },
            },
            ApproveStage::Signing => match ev {
                DeliveryEvent::Bytes(b) => {
                    let claims = match &self.claims {
                        Some(c) => c.duplicate(),
                        None => {
                            self.stage = ApproveStage::Finished;
                            return DeliveryStep::Finish(Err(unexpected()));
                        },
                    };
                    let tag = hmac_sha256(self.key.as_slice(), b.as_slice());
                    let signature = hex(tag.as_slice());
                    let receipt = ApprovalReceipt { claims, signature, consumed_at: None };
                    match self.store.approval_path(receipt.claims.approval_id.as_str()) {
                        Ok(path) => {
                            let copy = receipt.duplicate();
                            self.receipt = Some(receipt);
                            self.stage = ApproveStage::Saving;
                            DeliveryStep::Perform(DeliveryAction::SaveApproval(path, copy))
                        },
                        Err(e) => {
                            self.stage = ApproveStage::Finished;
                            DeliveryStep::Finish(Err(e))
                        },
                    }
                },
                other => {
                    self.stage = ApproveStage::Finished;
                    fail_with(other)
                },
            },
            ApproveStage::Saving => {
                self.stage = ApproveStage::Finished;
                match ev {
                    DeliveryEvent::Done => match &self.receipt {
                        Some(rc) => DeliveryStep::Finish(Ok(rc.duplicate())),
                        None => DeliveryStep::Finish(Err(unexpected())),
                    },
                    other => fail_with(other),
                }
            },
            ApproveStage::Finished => DeliveryStep::Finish(Err(unexpected())),
        }
    }
}

// ---------------------------------------------------------------------------
// push
// ---------------------------------------------------------------------------

#[derive(Debug, Clone, Copy, PartialEq, Eq, Structural)]
pub enum PushStage {
    Locking,
    LoadingApproval,
    ReadingKey,
    CreatingKey,
    Verifying,
    LoadingProposal,
    Checking,
    Consuming,
    Pushing,
    Finished,
}

/// A push of an approved proposal in progress.
pub struct PushFlow {
    pub store: DeliveryStore,
    pub fingerprint: String,
    pub approval_id: String,
    pub receipt: Option<ApprovalReceipt>,
    pub checked_at: i128,
    pub key: Vec<u8>,
    pub proposal: Option<PushProposal>,
    pub check: Option<ProposalCheck>,
    pub stage: PushStage,
}

/// Whether a signature text would make hex decoding slice inside a character.
pub open spec fn signature_panics(signature: Seq<char>) -> bool {
    hex_decode_panics(encode_utf8(signature))
}

/// The signature text stands for exactly the HMAC of the claims' encoding.
pub open spec fn signature_valid(signature: Seq<char>, key: Seq<u8>, claims_bytes: Seq<u8>) -> bool {
    hex_decodes(encode_utf8(signature)) && hex_decoded(encode_utf8(signature)) == hmac_sha256_spec(
        key,
        claims_bytes,
    )
}

/// An event that carries a receipt whose signature cannot be decoded without panicking.
pub open spec fn event_panics(ev: EventView) -> bool {
    ev matches EventView::Receipt(r) && signature_panics(r.signature)
}

/// The order in which a push passes through its stages.
pub open spec fn push_stage_rank(s: PushStage) -> int {
    match s {
        PushStage::Locking => 0,
        PushStage::LoadingApproval => 1,
        PushStage::ReadingKey => 2,
        PushStage::CreatingKey => 3,
        PushStage::Verifying => 4,
        PushStage::LoadingProposal => 5,
        PushStage::Checking => 6,
        PushStage::Consuming => 7,
        PushStage::Pushing => 8,
        PushStage::Finished => 9,
    }
}

/// What every push transition from `f0` on event `ev` to `f1` with step `r`
/// keeps, whatever the stage: the flow never goes back a stage; it finishes
/// exactly when it reaches `Finished`; it enters `Consuming` only by saving
/// its receipt, marked consumed, under the approval's record path; it
/// stores a receipt only then; it pushes only right after that save was
/// acknowledged; after the lock it loads the approval's record; and a
/// receipt that is already consumed is refused.
pub open spec fn push_step_facts(f0: PushFlow, ev: EventView, f1: PushFlow, r: StepView<ProposalView>) -> bool {
    &&& f1.fixed(f0)
    &&& push_stage_rank(f0.stage) <= push_stage_rank(f1.stage)
    &&& (r is Finish <==> f1.stage == PushStage::Finished)
    &&& f1.stage == PushStage::Consuming ==> f0.stage != PushStage::Consuming && (f0.receipt matches Some(rc0)
        && r matches StepView::Perform(ActionView::SaveApproval(path, rc)) && path == record_path_spec(
        f0.store.root@,
        "approvals"@,
        f0.approval_id@,
    ) && rc.claims == rc0@.claims && rc.signature == rc0@.signature && rc.consumed_at is Some)
    &&& r matches StepView::Perform(ActionView::SaveApproval(_, _)) ==> f1.stage == PushStage::Consuming
    &&& r matches StepView::Perform(ActionView::PushExact(_, _, _, _)) ==> f0.stage == PushStage::Consuming
        && ev == EventView::Done && f1.stage == PushStage::Pushing
    &&& f0.stage == PushStage::Locking && r is Perform ==> f1.stage == PushStage::LoadingApproval && r
        == StepView::<ProposalView>::Perform(
        ActionView::LoadApproval(record_path_spec(f0.store.root@, "approvals"@, f0.approval_id@)),
    )
    &&& f0.stage == PushStage::LoadingApproval ==> (ev matches EventView::Receipt(rc) && rc.consumed_at is Some
        ==> r == StepView::<ProposalView>::Finish(
        Err(DeliveryFailure::Approval("approval receipt has already been consumed"@)),
    ))
}

/// A run of push transitions: `flows[i]` answers `events[i]` with
/// `steps[i]` and becomes `flows[i + 1]`.
pub open spec fn push_run(flows: Seq<PushFlow>, events: Seq<EventView>, steps: Seq<StepView<ProposalView>>) -> bool {
    &&& flows.len() == events.len() + 1
    &&& steps.len() == events.len()
    &&& forall|i: int| 0 <= i < events.len() ==> push_step_facts(flows[i], events[i], flows[i + 1], #[trigger] steps[i])
}

impl DeliveryService {
    /// Starts pushing an approved proposal: the approval is locked first.
    pub fn push(&self, approval_id: &str) -> (r: (PushFlow, DeliveryStep<PushProposal>))
        ensures
            r.0.store.root@ == self.store.root@,
            r.0.fingerprint@ == fingerprint_of(self.repository.root@),
            r.0.approval_id@ == approval_id@,
            r.0.well_formed(),
            r.1@ == if valid_id_spec(approval_id@) {
                StepView::<ProposalView>::Perform(
                    ActionView::AcquireLock(path_join(path_join(self.store.root@, "locks"@), approval_id@)),
                )
            } else {
                StepView::<ProposalView>::Finish(Err(DeliveryFailure::State("invalid state identifier"@)))
            },
            r.1@ is Perform <==> r.0.stage == PushStage::Locking,
            r.1@ is Finish <==> r.0.stage == PushStage::Finished,
    {
        let mut flow = PushFlow {
            store: DeliveryStore { root: self.store.root.clone() },
            fingerprint: repository_fingerprint(&self.repository),
            approval_id: string_of(approval_id),
            receipt: None,
            checked_at: 0,
            key: Vec::new(),
            proposal: None,
            check: None,
            stage: PushStage::Finished,
        };
        match self.store.acquire_approval_lock(approval_id) {
            Err(e) => (flow, DeliveryStep::Finish(Err(e))),
            Ok(lock) => {
                flow.stage = PushStage::Locking;
                (flow, DeliveryStep::Perform(DeliveryAction::AcquireLock(lock.path)))
            },
        }
    }
}

impl PushFlow {
    pub open spec fn well_formed(self) -> bool {
        &&& self.stage != PushStage::Finished ==> valid_id_spec(self.approval_id@)
        &&& self.receipt matches Some(rc) ==> !signature_panics(rc.signature@)
        &&& (self.stage == PushStage::ReadingKey || self.stage == PushStage::CreatingKey
            || self.stage == PushStage::Verifying || self.stage == PushStage::LoadingProposal
            || self.stage == PushStage::Checking || self.stage == PushStage::Consuming)
            ==> self.receipt is Some
        &&& (self.stage == PushStage::Checking || self.stage == PushStage::Consuming
            || self.stage == PushStage::Pushing) ==> self.proposal is Some
        &&& self.stage == PushStage::Checking ==> self.check is Some
        &&& (self.stage == PushStage::Consuming || self.stage == PushStage::Pushing) ==> (self.receipt matches Some(
            rc,
        ) && rc.consumed_at is Some)
    }

    pub open spec fn fixed(self, other: Self) -> bool {
        &&& self.store.root@ == other.store.root@
        &&& self.fingerprint@ == other.fingerprint@
        &&& self.approval_id@ == other.approval_id@
    }

    /// The step after the proposal check passed: the receipt is marked consumed and stored.
    pub open spec fn after_check(self, old_flow: Self, r: StepView<ProposalView>) -> bool {
        self.stage == PushStage::Consuming && (old_flow.receipt matches Some(rc0)
            && self.receipt matches Some(rc) && rc@.claims == rc0@.claims && rc@.signature
            == rc0@.signature && rc@.consumed_at is Some && r == StepView::<ProposalView>::Perform(
            ActionView::SaveApproval(
                record_path_spec(self.store.root@, "approvals"@, self.approval_id@),
                rc@,
            ),
        ))
    }

    fn follow_check(&mut self, step: CheckStep) -> (r: DeliveryStep<PushProposal>)
        requires
            old(self).check is Some,
            old(self).receipt is Some,
            old(self).proposal is Some,
            valid_id_spec(old(self).approval_id@),
            old(self).receipt matches Some(rc) ==> !signature_panics(rc.signature@),
        ensures
            final(self).fixed(*old(self)),
            final(self).well_formed(),
            final(self).check == old(self).check,
            final(self).proposal == old(self).proposal,
            match step@ {
                CheckStepView::Continue(a) => final(self).stage == PushStage::Checking && r@
                    == StepView::<ProposalView>::Perform(a),
                CheckStepView::Failed(f) => final(self).stage == PushStage::Finished && r@
                    == StepView::<ProposalView>::Finish(Err(f)),
                CheckStepView::Passed => final(self).after_check(*old(self), r@),
            },
    {
        match step {
            CheckStep::Continue(a) => {
                self.stage = PushStage::Checking;
                DeliveryStep::Perform(a)
            },
            CheckStep::Failed(e) => {
                self.stage = PushStage::Finished;
                DeliveryStep::Finish(Err(e))
            },
            CheckStep::Passed => {
                let mut receipt = match &self.receipt {
                    Some(rc) => rc.duplicate(),
                    None => {
                        self.stage = PushStage::Finished;
                        return DeliveryStep::Finish(Err(unexpected()));
                    },
                };
                receipt.consumed_at = Some(now_nanos());
                match self.store.approval_path(self.approval_id.as_str()) {
                    Ok(path) => {
                        let copy = receipt.duplicate();
                        self.receipt = Some(receipt);
                        self.stage = PushStage::Consuming;
                        DeliveryStep::Perform(DeliveryAction::SaveApproval(path, copy))
                    },
                    Err(e) => {
                        self.stage = PushStage::Finished;
                        DeliveryStep::Finish(Err(e))
                    },
                }
            },
        }
    }

    fn verify_step(&mut self) -> (r: DeliveryStep<PushProposal>)
        requires
            old(self).receipt is Some,
            old(self).well_formed(),
            valid_id_spec(old(self).approval_id@),
        ensures
            final(self).fixed(*old(self)),
            final(self).well_formed(),
            final(self).key@ == old(self).key@,
            final(self).receipt == old(self).receipt,
            final(self).stage == PushStage::Verifying,
            r@ == StepView::<ProposalView>::Perform(
                ActionView::EncodeClaims(old(self).receipt->0@.claims),
            ),
    {
        self.stage = PushStage::Verifying;
        match &self.receipt {
            Some(rc) => DeliveryStep::Perform(DeliveryAction::EncodeClaims(rc.claims.duplicate())),
            None => DeliveryStep::Finish(Err(unexpected())),
        }
    }

    /// Advances the push: the lock must be free; the receipt must be unused,
    /// unexpired and carry the store key's signature of its claims; the
    /// proposal must match the approved intent hash and still describe the
    /// repository; the receipt is consumed before the exact push.
    pub fn resume(&mut self, ev: DeliveryEvent) -> (r: DeliveryStep<PushProposal>)
        requires
            old(self).well_formed(),
            !event_panics(ev@),
        ensures
            final(self).fixed(*old(self)),
            final(self).well_formed(),
            old(self).stage == PushStage::Locking ==> match ev@ {
                EventView::Done => final(self).stage == PushStage::LoadingApproval && r@
                    == StepView::<ProposalView>::Perform(
                    ActionView::LoadApproval(
                        record_path_spec(old(self).store.root@, "approvals"@, old(self).approval_id@),
                    ),
                ),
                EventView::Refused => final(self).stage == PushStage::Finished && r@ == StepView::<
                    ProposalView,
                >::Finish(Err(DeliveryFailure::Approval("approval is already executing"@))),
                _ => final(self).stage == PushStage::Finished && r@ == StepView::<
                    ProposalView,
                >::Finish(Err(failure_of(ev@))),
            },
            old(self).stage == PushStage::LoadingApproval ==> match ev@ {
                EventView::Receipt(rc) => if rc.consumed_at is Some {
                    final(self).stage == PushStage::Finished && r@ == StepView::<
                        ProposalView,
                    >::Finish(
                        Err(DeliveryFailure::Approval("approval receipt has already been consumed"@)),
                    )
                } else if final(self).checked_at >= rc.claims.expires_at {
                    final(self).stage == PushStage::Finished && r@ == StepView::<
                        ProposalView,
                    >::Finish(Err(DeliveryFailure::Approval("approval receipt expired"@)))
                } else {
                    final(self).stage == PushStage::ReadingKey && (final(self).receipt matches Some(
                        k,
                    ) && k@ == rc) && r@ == StepView::<ProposalView>::Perform(
                        ActionView::ReadApprovalKey(path_join(old(self).store.root@, "approval.key"@)),
                    )
                },
                _ => final(self).stage == PushStage::Finished && r@ == StepView::<
                    ProposalView,
                >::Finish(Err(failure_of(ev@))),
            },
            old(self).stage == PushStage::ReadingKey ==> match ev@ {
                EventView::MaybeBytes(Some(k)) => if k.len() == 32 {
                    final(self).stage == PushStage::Verifying && final(self).key@ == k && r@
                        == StepView::<ProposalView>::Perform(
                        ActionView::EncodeClaims(old(self).receipt->0@.claims),
                    )
                } else {
                    final(self).stage == PushStage::Finished && r@ == StepView::<
                        ProposalView,
                    >::Finish(Err(DeliveryFailure::State("invalid approval signing key"@)))
                },
                EventView::MaybeBytes(None) => final(self).stage == PushStage::CreatingKey
                    && final(self).key@.len() == 32 && r@ == StepView::<ProposalView>::Perform(
                    ActionView::CreateApprovalKey(
                        path_join(old(self).store.root@, "approval.key"@),
                        final(self).key@,
                    ),
                ),
                _ => final(self).stage == PushStage::Finished && r@ == StepView::<
                    ProposalView,
                >::Finish(Err(failure_of(ev@))),
            },
            old(self).stage == PushStage::CreatingKey ==> match ev@ {
                EventView::Done => final(self).stage == PushStage::Verifying && final(self).key@
                    == old(self).key@ && r@ == StepView::<ProposalView>::Perform(
                    ActionView::EncodeClaims(old(self).receipt->0@.claims),
                ),
                EventView::Bytes(k) => final(self).stage == PushStage::Verifying && final(self).key@ == k && r@ == StepView::<ProposalView>::Perform(
                    ActionView::EncodeClaims(old(self).receipt->0@.claims),
                ),
                _ => final(self).stage == PushStage::Finished && r@ == StepView::<
                    ProposalView,
                >::Finish(Err(failure_of(ev@))),
            },
            old(self).stage == PushStage::Verifying ==> match ev@ {
                EventView::Bytes(b) => {
                    let rc = old(self).receipt->0@;
                    if !hex_decodes(encode_utf8(rc.signature)) {
                        final(self).stage == PushStage::Finished && r@ == StepView::<
                            ProposalView,
                        >::Finish(Err(DeliveryFailure::Approval("invalid approval signature"@)))
                    } else if !signature_valid(rc.signature, old(self).key@, b) {
                        final(self).stage == PushStage::Finished && r@ == StepView::<
                            ProposalView,
                        >::Finish(Err(DeliveryFailure::Approval("approval signature is invalid"@)))
                    } else if !valid_id_spec(rc.claims.proposal_id) {
                        final(self).stage == PushStage::Finished && r@ == StepView::<
                            ProposalView,
                        >::Finish(Err(DeliveryFailure::State("invalid state identifier"@)))
                    } else {
                        final(self).stage == PushStage::LoadingProposal && r@ == StepView::<
                            ProposalView,
                        >::Perform(
                            ActionView::LoadProposal(
                                record_path_spec(old(self).store.root@, "proposals"@, rc.claims.proposal_id),
                            ),
                        )
                    }
                },
                _ => final(self).stage == PushStage::Finished && r@ == StepView::<
                    ProposalView,
                >::Finish(Err(failure_of(ev@))),
            },
            old(self).stage == PushStage::LoadingProposal ==> match ev@ {
                EventView::Proposal(p) => if p.intent_hash != old(self).receipt->0@.claims.intent_hash {
                    final(self).stage == PushStage::Finished && r@ == StepView::<
                        ProposalView,
                    >::Finish(Err(DeliveryFailure::Approval("approval intent hash mismatch"@)))
                } else {
                    (final(self).proposal matches Some(fp) && fp@ == p) && (final(self).check matches Some(c) && {
                        &&& c.intent@ == p.intent
                        &&& c.intent_hash@ == p.intent_hash
                        &&& c.fingerprint@ == old(self).fingerprint@
                        &&& c.store.root@ == old(self).store.root@
                        &&& match check_start(p.intent).1 {
                            CheckStepView::Continue(a) => final(self).stage == PushStage::Checking
                                && c.stage == check_start(p.intent).0 && r@ == StepView::<ProposalView>::Perform(a),
                            CheckStepView::Failed(f) => final(self).stage == PushStage::Finished && r@
                                == StepView::<ProposalView>::Finish(Err(f)),
                            CheckStepView::Passed => final(self).after_check(*old(self), r@),
                        }
                    })
                },
                _ => final(self).stage == PushStage::Finished && r@ == StepView::<
                    ProposalView,
                >::Finish(Err(failure_of(ev@))),
            },
            old(self).stage == PushStage::Checking ==> (old(self).check matches Some(c0) && {
                let (st, cs) = check_next(
                    c0.intent@,
                    c0.intent_hash@,
                    c0.fingerprint@,
                    c0.store.root@,
                    c0.stage,
                    ev@,
                );
                final(self).check matches Some(c) && c.intent@ == c0.intent@ && c.intent_hash@
                    == c0.intent_hash@ && c.stage == st && match cs {
                    CheckStepView::Continue(a) => final(self).stage == PushStage::Checking && r@
                        == StepView::<ProposalView>::Perform(a),
                    CheckStepView::Failed(f) => final(self).stage == PushStage::Finished && r@
                        == StepView::<ProposalView>::Finish(Err(f)),
                    CheckStepView::Passed => final(self).after_check(*old(self), r@),
                }
            }),
            old(self).stage == PushStage::Consuming ==> match ev@ {
                EventView::Done => final(self).stage == PushStage::Pushing && (old(self).proposal matches Some(p) && r@
                    == StepView::<ProposalView>::Perform(
                    ActionView::PushExact(
                        p@.intent.remote,
                        p@.intent.target_branch,
                        p@.intent.source_commit,
                        p@.intent.expected_remote_commit,
                    ),
                )),
                _ => final(self).stage == PushStage::Finished && r@ == StepView::<
                    ProposalView,
                >::Finish(Err(failure_of(ev@))),
            },
            old(self).stage == PushStage::Pushing ==> final(self).stage == PushStage::Finished
                && match ev@ {
                EventView::Done => (old(self).proposal matches Some(p) && r@ == StepView::<
                    ProposalView,
                >::Finish(Ok(p@))),
                _ => r@ == StepView::<ProposalView>::Finish(Err(failure_of(ev@))),
            },
            old(self).stage == PushStage::Finished ==> final(self).stage == PushStage::Finished
                && r@ == StepView::<ProposalView>::Finish(Err(unexpected_answer())),
            r@ matches StepView::Perform(ActionView::PushExact(_, _, _, _)) ==> old(self).stage
                == PushStage::Consuming && ev@ == EventView::Done && final(self).stage == PushStage::Pushing,
            push_step_facts(*old(self), ev@, *final(self), r@),
    {
        match self.stage {
            PushStage::Locking => match ev {
                DeliveryEvent::Done => match self.store.approval_path(self.approval_id.as_str()) {
                    Ok(path) => {
                        self.stage = PushStage::LoadingApproval;
                        DeliveryStep::Perform(DeliveryAction::LoadApproval(path))
                    },
                    Err(e) => {
                        self.stage = PushStage::Finished;
                        DeliveryStep::Finish(Err(e))
                    },
                },
                DeliveryEvent::Refused => {
                    self.stage = PushStage::Finished;
                    DeliveryStep::Finish(Err(DeliveryError::approval("approval is already executing")))
                },
                other => {
                    self.stage = PushStage::Finished;
                    fail_with(other)
                },
            },
            PushStage::LoadingApproval => match ev {
                DeliveryEvent::Receipt(rc) => {
                    if rc.consumed_at.is_some() {
                        self.stage = PushStage::Finished;
                        return DeliveryStep::Finish(
                            Err(DeliveryError::approval("approval receipt has already been consumed")),
                        );
                    }
                    self.checked_at = now_nanos();
                    if self.checked_at >= rc.claims.expires_at {
                        self.stage = PushStage::Finished;
                        return DeliveryStep::Finish(Err(DeliveryError::approval("approval receipt expired")));
                    }
                    self.receipt = Some(rc);
                    self.stage = PushStage::ReadingKey;
                    DeliveryStep::Perform(DeliveryAction::ReadApprovalKey(self.store.approval_key_path()))
                },
                other => {
                    self.stage = PushStage::Finished;
                    fail_with(other)
                },
            },
            PushStage::ReadingKey => match ev {
                DeliveryEvent::MaybeBytes(Some(k)) => match accept_key_file(k) {
                    Ok(key) => {
                        self.key = key;
                        self.verify_step()
                    },
                    Err(e) => {
                        self.stage = PushStage::Finished;
                        DeliveryStep::Finish(Err(e))
                    },
                },
                DeliveryEvent::MaybeBytes(None) => {
                    let key = DeliveryStore::generate_approval_key();
                    let copy = key.clone();
                    self.key = key;
                    self.stage = PushStage::CreatingKey;
                    DeliveryStep::Perform(
                        DeliveryAction::CreateApprovalKey(self.store.approval_key_path(), copy),
                    )
                },
                other => {
                    self.stage = PushStage::Finished;
                    fail_with(other)
                },
            },
            PushStage::CreatingKey => match ev {
                DeliveryEvent::Done => self.verify_step(),
                DeliveryEvent::Bytes(k) => {
                    self.key = k;
                    self.verify_step()
                },
                other => {
                    self.stage = PushStage::Finished;
                    fail_with(other)
                },
            },
            PushStage::Verifying => match ev {
                DeliveryEvent::Bytes(b) => {
                    let (signature_ok, proposal_id) = match &self.receipt {
                        Some(rc) => {
                            let decoded = decode_hex(rc.signature.as_str());
                            match decoded {
                                Err(e) => {
                                    self.stage = PushStage::Finished;
                                    return DeliveryStep::Finish(Err(e));
                                },
                                Ok(tag) => (
                                    hmac_sha256_verify(self.key.as_slice(), b.as_slice(), tag.as_slice()),
                                    rc.claims.proposal_id.clone(),
                                ),
                            }
                        },
                        None => {
                            self.stage = PushStage::Finished;
                            return DeliveryStep::Finish(Err(unexpected()));
                        },
                    };
                    if !signature_ok {
                        self.stage = PushStage::Finished;
                        return DeliveryStep::Finish(Err(DeliveryError::approval("approval signature is invalid")));
                    }
                    match self.store.proposal_path(proposal_id.as_str()) {
                        Ok(path) => {
                            self.stage = PushStage::LoadingProposal;
                            DeliveryStep::Perform(DeliveryAction::LoadProposal(path))
                        },
                        Err(e) => {
                            self.stage = PushStage::Finished;
                            DeliveryStep::Finish(Err(e))
                        },
                    }
                },
                other => {
                    self.stage = PushStage::Finished;
                    fail_with(other)
                },
            },
            PushStage::LoadingProposal => match ev {
                DeliveryEvent::Proposal(p) => {
                    let matches = match &self.receipt {
                        Some(rc) => str_eq(p.intent_hash.as_str(), rc.claims.intent_hash.as_str()),
                        None => false,
                    };
                    if !matches {
                        self.stage = PushStage::Finished;
                        return DeliveryStep::Finish(Err(DeliveryError::approval("approval intent hash mismatch")));
                    }
                    let (check, step) = ProposalCheck::begin(
                        self.fingerprint.as_str(),
                        self.store.root.as_str(),
                        &p,
                    );
                    self.check = Some(check);
                    self.proposal = Some(p);
                    self.follow_check(step)
                },
                other => {
                    self.stage = PushStage::Finished;
                    fail_with(other)
                },
            },
            PushStage::Checking => {
                let mut check = match self.check.take() {
                    Some(c) => c,
                    None => {
                        self.stage = PushStage::Finished;
                        return DeliveryStep::Finish(Err(unexpected()));
                    },
                };
                let step = check.resume(ev);
                self.check = Some(check);
                self.follow_check(step)
            },
            PushStage::Consuming => match ev {
                DeliveryEvent::Done => match &self.proposal {
                    Some(p) => {
                        self.stage = PushStage::Pushing;
                        DeliveryStep::Perform(
                            DeliveryAction::PushExact(
                                p.intent.remote.clone(),
                                p.intent.target_branch.clone(),
                                p.intent.source_commit.clone(),
                                super::model::clone_opt_string(&p.intent.expected_remote_commit),
                            ),
                        )
                    },
                    None => {
                        self.stage = PushStage::Finished;
                        DeliveryStep::Finish(Err(unexpected()))
                    },
                },
                other => {
                    self.stage = PushStage::Finished;
                    fail_with(other)
                },
            },
            PushStage::Pushing => {
                self.stage = PushStage::Finished;
                match ev {
                    DeliveryEvent::Done => match &self.proposal {
                        Some(p) => DeliveryStep::Finish(Ok(p.duplicate())),
                        None => DeliveryStep::Finish(Err(unexpected())),
                    },
                    other => fail_with(other),
                }
            },
            PushStage::Finished => DeliveryStep::Finish(Err(unexpected())),
        }
    }
}

/// The signature that `approve` records for a claims encoding under a key
/// is one that `push` accepts for the same encoding and key, and checking
/// it cannot panic.
pub proof fn law_signature_accepted(key: Seq<u8>, claims_bytes: Seq<u8>)
    ensures
        signature_valid(signature_of(key, claims_bytes), key, claims_bytes),
        !signature_panics(signature_of(key, claims_bytes)),
{
    law_hex_roundtrip(hmac_sha256_spec(key, claims_bytes));
}

/// Along a run, the stages never go back and the store and approval stay
/// the same.
proof fn lemma_push_run_monotone(
    flows: Seq<PushFlow>,
    events: Seq<EventView>,
    steps: Seq<StepView<ProposalView>>,
    i: int,
    k: int,
)
    requires
        push_run(flows, events, steps),
        0 <= i <= k < flows.len(),
    ensures
        push_stage_rank(flows[i].stage) <= push_stage_rank(flows[k].stage),
        flows[k].fixed(flows[i]),
    decreases k - i,
{
    if i < k {
        lemma_push_run_monotone(flows, events, steps, i, k - 1);
        assert(push_step_facts(flows[k - 1], events[k - 1], flows[k], steps[k - 1]));
    }
}

/// A push performs the exact push only as the step right after the one
/// that saved its receipt, marked consumed, under the approval's record
/// path, and only once that save was acknowledged.
pub proof fn law_push_exact_after_consumed_save(
    flows: Seq<PushFlow>,
    events: Seq<EventView>,
    steps: Seq<StepView<ProposalView>>,
    j: int,
)
    requires
        push_run(flows, events, steps),
        flows[0].stage == PushStage::Locking,
        0 <= j < steps.len(),
        steps[j] matches StepView::Perform(ActionView::PushExact(_, _, _, _)),
    ensures
        j >= 1,
        events[j] == EventView::Done,
        steps[j - 1] matches StepView::Perform(ActionView::SaveApproval(path, rc)) && rc.consumed_at is Some
            && path == record_path_spec(flows[0].store.root@, "approvals"@, flows[0].approval_id@),
{
    assert(push_step_facts(flows[j], events[j], flows[j + 1], steps[j]));
    assert(j >= 1);
    assert(push_step_facts(flows[j - 1], events[j - 1], flows[j], steps[j - 1]));
    lemma_push_run_monotone(flows, events, steps, 0, j - 1);
}

/// A push that fails before its receipt is consumed has stored nothing
/// and pushed nothing: no step of the run saves a receipt or pushes, so
/// the stored receipt is still unconsumed and the remote unchanged.
pub proof fn law_failure_before_consumption_saves_nothing(
    flows: Seq<PushFlow>,
    events: Seq<EventView>,
    steps: Seq<StepView<ProposalView>>,
)
    requires
        push_run(flows, events, steps),
        steps.len() > 0,
        steps[steps.len() - 1] matches StepView::Finish(Err(_)),
        push_stage_rank(flows[steps.len() - 1].stage) < push_stage_rank(PushStage::Consuming),
    ensures
        forall|i: int| 0 <= i < steps.len() ==> !(#[trigger] steps[i] matches StepView::Perform(ActionView::SaveApproval(_, _))),
        forall|i: int| 0 <= i < steps.len() ==> !(#[trigger] steps[i] matches StepView::Perform(ActionView::PushExact(_, _, _, _))),
{
    let n = steps.len() - 1;
    assert forall|i: int| 0 <= i < steps.len() implies !(#[trigger] steps[i] matches StepView::Perform(
        ActionView::SaveApproval(_, _),
    )) by {
        assert(push_step_facts(flows[i], events[i], flows[i + 1], steps[i]));
        if i < n {
            lemma_push_run_monotone(flows, events, steps, i + 1, n);
        }
    }
    assert forall|i: int| 0 <= i < steps.len() implies !(#[trigger] steps[i] matches StepView::Perform(
        ActionView::PushExact(_, _, _, _),
    )) by {
        assert(push_step_facts(flows[i], events[i], flows[i + 1], steps[i]));
        lemma_push_run_monotone(flows, events, steps, i, n);
    }
}

/// A receipt that one push saved is refused by every later push of the
/// same approval in the same store: that push loads the very record the
/// first one saved and, given back that receipt, finishes with the
/// already-consumed error before doing anything else.
pub proof fn law_saved_receipt_is_refused(
    f0: PushFlow,
    ev0: EventView,
    f1: PushFlow,
    r1: StepView<ProposalView>,
    g0: PushFlow,
    g1: PushFlow,
    r2: StepView<ProposalView>,
    g2: PushFlow,
    r3: StepView<ProposalView>,
)
    requires
        push_step_facts(f0, ev0, f1, r1),
        r1 matches StepView::Perform(ActionView::SaveApproval(_, _)),
        g0.stage == PushStage::Locking,
        g0.store.root@ == f0.store.root@,
        g0.approval_id@ == f0.approval_id@,
        push_step_facts(g0, EventView::Done, g1, r2),
        r2 is Perform,
        push_step_facts(g1, EventView::Receipt(r1->Perform_0->SaveApproval_1), g2, r3),
    ensures
        r1 matches StepView::Perform(ActionView::SaveApproval(path, _)) && r2 == StepView::<ProposalView>::Perform(
            ActionView::LoadApproval(path),
        ),
        r3 == StepView::<ProposalView>::Finish(
            Err(DeliveryFailure::Approval("approval receipt has already been consumed"@)),
        ),
{
}

} // verus!

//! Verification attestations, push proposals, and the re-validation of a
//! proposal that approving it and pushing it both require.
use vstd::prelude::*;
use vstd::utf8::encode_utf8;

use super::crypto::{hex_seq, sha256_hex, sha256_spec};
use super::flow::{
    fail_with, failure_of, unexpected, unexpected_answer, ActionView, DeliveryAction,
    DeliveryEvent, DeliveryStep, EventView, StepView,
};
use super::model::{
    clone_opt_string, opt_str_view, AttestationView, IntentView, ProposalView, PushIntent,
    PushProposal, VerificationAttestation,
};
use super::operations::DeliveryService;
use super::service::{
    deny_protected_branch, fingerprint_of, protected_branch, repository_fingerprint,
    valid_remote_name, validate_remote, DeliveryError, DeliveryFailure,
};
use super::store::{record_path_spec, valid_id_spec, DeliveryStore};
use crate::ambient::{is_lower_hex, new_simple_id, now_nanos};
use crate::sorting::views_of;
use crate::text::{is_blank, push_str, str_eq, string_of, trim_seq, trim_str};

verus! {

broadcast use vstd::string::group_string_axioms;

/// The hex SHA-256 of some bytes.
pub open spec fn digest_hex(b: Seq<u8>) -> Seq<char> {
    hex_seq(sha256_spec(b))
}

/// Fresh record identifiers are 32 lowercase hex digits, which the store accepts.
proof fn lemma_fresh_id_valid(id: Seq<char>)
    requires
        id.len() == 32,
        forall|i: int| 0 <= i < id.len() ==> is_lower_hex(#[trigger] id[i]),
    ensures
        valid_id_spec(id),
{
    assert forall|i: int| 0 <= i < id.len() implies crate::text::is_ascii_alnum(#[trigger] id[i])
        || id[i] == '-' by {
        assert(is_lower_hex(id[i]));
    }
}

fn opt_str_eq(a: &Option<String>, b: &Option<String>) -> (r: bool)
    ensures
        r == (opt_str_view(*a) == opt_str_view(*b)),
{
    match (a, b) {
        (Some(x), Some(y)) => str_eq(x.as_str(), y.as_str()),
        (None, None) => true,
        _ => false,
    }
}

// ---------------------------------------------------------------------------
// verify
// ---------------------------------------------------------------------------

#[derive(Debug, Clone, Copy, PartialEq, Eq, Structural)]
pub enum VerifyStage {
    Head,
    Running,
    Encoding,
    Saving,
    Finished,
}

/// A verification run in progress.
pub struct VerifyFlow {
    pub store: DeliveryStore,
    pub fingerprint: String,
    pub check_name: String,
    pub program: String,
    pub args: Vec<String>,
    pub commit: String,
    pub attestation: Option<VerificationAttestation>,
    pub stage: VerifyStage,
}

impl DeliveryService {
    /// Starts a verification: the check's name and program must not be blank.
    pub fn verify(&self, check_name: &str, program: &str, args: &Vec<String>) -> (r: (
        VerifyFlow,
        DeliveryStep<VerificationAttestation>,
    ))
        ensures
            r.0.store.root@ == self.store.root@,
            r.0.fingerprint@ == fingerprint_of(self.repository.root@),
            r.0.check_name@ == check_name@,
            r.0.program@ == program@,
            views_of(r.0.args@) == views_of(args@),
            (trim_seq(check_name@).len() == 0 || trim_seq(program@).len() == 0) ==> r.0.stage
                == VerifyStage::Finished && r.1@ == StepView::<AttestationView>::Finish(
                Err(DeliveryFailure::Policy("verification name and program are required"@)),
            ),
            !(trim_seq(check_name@).len() == 0 || trim_seq(program@).len() == 0) ==> r.0.stage
                == VerifyStage::Head && r.1@ == StepView::<AttestationView>::Perform(
                ActionView::Head,
            ),
    {
        let mut flow = VerifyFlow {
            store: DeliveryStore { root: self.store.root.clone() },
            fingerprint: repository_fingerprint(&self.repository),
            check_name: string_of(check_name),
            program: string_of(program),
            args: args.clone(),
            commit: String::new(),
            attestation: None,
            stage: VerifyStage::Finished,
        };
        if is_blank(check_name) || is_blank(program) {
            return (
                flow,
                DeliveryStep::Finish(
                    Err(DeliveryError::policy("verification name and program are required")),
                ),
            );
        }
        flow.stage = VerifyStage::Head;
        (flow, DeliveryStep::Perform(DeliveryAction::Head))
    }
}

impl VerifyFlow {
    /// Advances the verification: records HEAD, runs the program, and on
    /// success stores an attestation of it under a fresh identifier.
    pub fn resume(&mut self, ev: DeliveryEvent) -> (r: DeliveryStep<VerificationAttestation>)
        requires
            old(self).stage == VerifyStage::Saving ==> old(self).attestation is Some,
        ensures
            final(self).store.root@ == old(self).store.root@,
            final(self).fingerprint@ == old(self).fingerprint@,
            final(self).check_name@ == old(self).check_name@,
            final(self).program@ == old(self).program@,
            views_of(final(self).args@) == views_of(old(self).args@),
            old(self).stage == VerifyStage::Head ==> match ev@ {
                EventView::Text(c) => final(self).stage == VerifyStage::Running && final(self).commit@
                    == c && r@ == StepView::<AttestationView>::Perform(
                    ActionView::RunCheck(old(self).program@, views_of(old(self).args@)),
                ),
                _ => final(self).stage == VerifyStage::Finished && r@ == StepView::<
                    AttestationView,
                >::Finish(Err(failure_of(ev@))),
            },
            old(self).stage == VerifyStage::Running ==> final(self).commit@ == old(self).commit@
                && match ev@ {
                EventView::Exit(true, _) => final(self).stage == VerifyStage::Encoding && r@
                    == StepView::<AttestationView>::Perform(
                    ActionView::EncodeCommand(
                        old(self).check_name@,
                        old(self).program@,
                        views_of(old(self).args@),
                    ),
                ),
                EventView::Exit(false, status) => final(self).stage == VerifyStage::Finished && r@
                    == StepView::<AttestationView>::Finish(
                    Err(
                        DeliveryFailure::State(
                            "verification '"@ + old(self).check_name@ + "' failed with status "@
                                + status,
                        ),
                    ),
                ),
                _ => final(self).stage == VerifyStage::Finished && r@ == StepView::<
                    AttestationView,
                >::Finish(Err(failure_of(ev@))),
            },
            old(self).stage == VerifyStage::Encoding ==> match ev@ {
                EventView::Bytes(b) => final(self).stage == VerifyStage::Saving && (final(self).attestation matches Some(a) && {
                    &&& a@.repository_fingerprint == old(self).fingerprint@
                    &&& a@.commit == old(self).commit@
                    &&& a@.check_name == trim_seq(old(self).check_name@)
                    &&& a@.command_fingerprint == digest_hex(b)
                    &&& a@.passed
                    &&& valid_id_spec(a@.id)
                    &&& r@ == StepView::<AttestationView>::Perform(
                        ActionView::SaveAttestation(
                            record_path_spec(old(self).store.root@, "attestations"@, a@.id),
                            a@,
                        ),
                    )
                }),
                _ => final(self).stage == VerifyStage::Finished && r@ == StepView::<
                    AttestationView,
                >::Finish(Err(failure_of(ev@))),
            },
            old(self).stage == VerifyStage::Saving ==> final(self).stage == VerifyStage::Finished
                && match ev@ {
                EventView::Done => (old(self).attestation matches Some(a) && r@ == StepView::<
                    AttestationView,
                >::Finish(Ok(a@))),
                _ => r@ == StepView::<AttestationView>::Finish(Err(failure_of(ev@))),
            },
            old(self).stage == VerifyStage::Finished ==> final(self).stage
                == VerifyStage::Finished && r@ == StepView::<AttestationView>::Finish(
                Err(unexpected_answer()),
            ),
            final(self).stage == VerifyStage::Saving ==> final(self).attestation is Some,
    {
        match self.stage {
            VerifyStage::Head => match ev {
                DeliveryEvent::Text(c) => {
                    self.commit = c;
                    self.stage = VerifyStage::Running;
                    DeliveryStep::Perform(
                        DeliveryAction::RunCheck(self.program.clone(), self.args.clone()),
                    )
                },
                other => {
                    self.stage = VerifyStage::Finished;
                    fail_with(other)
                },
            },
            VerifyStage::Running => match ev {
                DeliveryEvent::Exit(ok, status) => {
                    if ok {
                        self.stage = VerifyStage::Encoding;
                        DeliveryStep::Perform(
                            DeliveryAction::EncodeCommand(
                                self.check_name.clone(),
                                self.program.clone(),
                                self.args.clone(),
                            ),
                        )
                    } else {
                        self.stage = VerifyStage::Finished;
                        let mut m = string_of("verification '");
                        push_str(&mut m, self.check_name.as_str());
                        push_str(&mut m, "' failed with status ");
                        push_str(&mut m, status.as_str());
                        DeliveryStep::Finish(Err(DeliveryError::State(m)))
                    }
                },
                other => {
                    self.stage = VerifyStage::Finished;
                    fail_with(other)
                },
            },
            VerifyStage::Encoding => match ev {
                DeliveryEvent::Bytes(b) => {
                    let command_fingerprint = sha256_hex(b.as_slice());
                    let id = new_simple_id();
                    proof {
                        lemma_fresh_id_valid(id@);
                    }
                    let attestation = VerificationAttestation {
                        id,
                        repository_fingerprint: self.fingerprint.clone(),
                        commit: self.commit.clone(),
                        check_name: trim_str(self.check_name.as_str()),
                        command_fingerprint,
                        completed_at: now_nanos(),
                        passed: true,
                    };
                    match self.store.attestation_path(attestation.id.as_str()) {
                        Ok(path) => {
                            let copy = attestation.duplicate();
                            self.attestation = Some(attestation);
                            self.stage = VerifyStage::Saving;
                            DeliveryStep::Perform(DeliveryAction::SaveAttestation(path, copy))
                        },
                        Err(e) => {
                            self.stage = VerifyStage::Finished;
                            DeliveryStep::Finish(Err(e))
                        },
                    }
                },
                other => {
                    self.stage = VerifyStage::Finished;
                    fail_with(other)
                },
            },
            VerifyStage::Saving => {
                self.stage = VerifyStage::Finished;
                match ev {
                    DeliveryEvent::Done => {
                        match &self.attestation {
                            Some(a) => DeliveryStep::Finish(Ok(a.duplicate())),
                            None => DeliveryStep::Finish(Err(unexpected())),
                        }
                    },
                    other => fail_with(other),
                }
            },
            VerifyStage::Finished => DeliveryStep::Finish(Err(unexpected())),
        }
    }
}

// ---------------------------------------------------------------------------
// propose_push
// ---------------------------------------------------------------------------

#[derive(Debug, Clone, Copy, PartialEq, Eq, Structural)]
pub enum ProposeStage {
    ValidatingBranch,
    Head,
    Attestation,
    RemoteUrl,
    Parent,
    RemoteHead,
    Encoding,
    Saving,
    Finished,
}

/// A push proposal in progress.
pub struct ProposeFlow {
    pub store: DeliveryStore,
    pub fingerprint: String,
    pub remote: String,
    pub target_branch: String,
    pub verification_id: String,
    pub source_commit: String,
    pub remote_url_fingerprint: String,
    pub parent_commit: Option<String>,
    pub intent: Option<PushIntent>,
    pub proposal: Option<PushProposal>,
    pub stage: ProposeStage,
}

/// The intent that a proposal records.
pub open spec fn intent_of(
    fingerprint: Seq<char>,
    remote: Seq<char>,
    remote_url_fingerprint: Seq<char>,
    source_commit: Seq<char>,
    parent_commit: Option<Seq<char>>,
    target_branch: Seq<char>,
    expected_remote_commit: Option<Seq<char>>,
    verification_id: Seq<char>,
) -> IntentView {
    IntentView {
        schema_version: "developer-delivery/v1"@,
        repository_fingerprint: fingerprint,
        remote,
        remote_url_fingerprint,
        source_commit,
        parent_commit,
        target_branch,
        expected_remote_commit,
        verification_attestation_id: verification_id,
        force: false,
    }
}

impl DeliveryService {
    /// Starts a push proposal: the remote's name must be acceptable.
    pub fn propose_push(&self, remote: &str, target_branch: &str, verification_id: &str) -> (r: (
        ProposeFlow,
        DeliveryStep<PushProposal>,
    ))
        ensures
            r.0.store.root@ == self.store.root@,
            r.0.fingerprint@ == fingerprint_of(self.repository.root@),
            r.0.remote@ == remote@,
            r.0.target_branch@ == target_branch@,
            r.0.verification_id@ == verification_id@,
            valid_remote_name(remote@) ==> r.0.stage == ProposeStage::ValidatingBranch && r.1@
                == StepView::<ProposalView>::Perform(ActionView::ValidateBranch(target_branch@)),
            !valid_remote_name(remote@) ==> r.0.stage == ProposeStage::Finished && r.1@
                == StepView::<ProposalView>::Finish(
                Err(DeliveryFailure::Policy("invalid remote name"@)),
            ),
    {
        let mut flow = ProposeFlow {
            store: DeliveryStore { root: self.store.root.clone() },
            fingerprint: repository_fingerprint(&self.repository),
            remote: string_of(remote),
            target_branch: string_of(target_branch),
            verification_id: string_of(verification_id),
            source_commit: String::new(),
            remote_url_fingerprint: String::new(),
            parent_commit: None,
            intent: None,
            proposal: None,
            stage: ProposeStage::Finished,
        };
        match validate_remote(remote) {
            Err(e) => (flow, DeliveryStep::Finish(Err(e))),
            Ok(()) => {
                flow.stage = ProposeStage::ValidatingBranch;
                (flow, DeliveryStep::Perform(DeliveryAction::ValidateBranch(string_of(target_branch))))
            },
        }
    }
}

impl ProposeFlow {
    pub open spec fn fixed(self, other: Self) -> bool {
        &&& self.store.root@ == other.store.root@
        &&& self.fingerprint@ == other.fingerprint@
        &&& self.remote@ == other.remote@
        &&& self.target_branch@ == other.target_branch@
        &&& self.verification_id@ == other.verification_id@
    }

    pub open spec fn well_formed(self) -> bool {
        &&& self.stage == ProposeStage::Encoding ==> self.intent is Some
        &&& self.stage == ProposeStage::Saving ==> self.proposal is Some
    }

    /// Advances the proposal: the branch must be a valid, unprotected ref
    /// name; the named attestation must have passed on HEAD in this
    /// repository; the intent fixes the remote URL's fingerprint, the parent
    /// commit and the remote head, and is stored under its hash.
    pub fn resume(&mut self, ev: DeliveryEvent) -> (r: DeliveryStep<PushProposal>)
        requires
            old(self).well_formed(),
        ensures
            final(self).fixed(*old(self)),
            final(self).well_formed(),
            old(self).stage == ProposeStage::ValidatingBranch ==> match ev@ {
                EventView::Done => if protected_branch(old(self).target_branch@) {
                    final(self).stage == ProposeStage::Finished && r@ == StepView::<
                        ProposalView,
                    >::Finish(
                        Err(
                            DeliveryFailure::Policy(
                                "direct push to protected branch '"@ + old(self).target_branch@
                                    + "' is forbidden"@,
                            ),
                        ),
                    )
                } else {
                    final(self).stage == ProposeStage::Head && r@ == StepView::<
                        ProposalView,
                    >::Perform(ActionView::Head)
                },
                _ => final(self).stage == ProposeStage::Finished && r@ == StepView::<
                    ProposalView,
                >::Finish(Err(failure_of(ev@))),
            },
            old(self).stage == ProposeStage::Head ==> match ev@ {
                EventView::Text(c) => final(self).source_commit@ == c && if valid_id_spec(
                    old(self).verification_id@,
                ) {
                    final(self).stage == ProposeStage::Attestation && r@ == StepView::<
                        ProposalView,
                    >::Perform(
                        ActionView::LoadAttestation(
                            record_path_spec(
                                old(self).store.root@,
                                "attestations"@,
                                old(self).verification_id@,
                            ),
                        ),
                    )
                } else {
                    final(self).stage == ProposeStage::Finished && r@ == StepView::<
                        ProposalView,
                    >::Finish(Err(DeliveryFailure::State("invalid state identifier"@)))
                },
                _ => final(self).stage == ProposeStage::Finished && r@ == StepView::<
                    ProposalView,
                >::Finish(Err(failure_of(ev@))),
            },
            old(self).stage == ProposeStage::Attestation ==> final(self).source_commit@ == old(self).source_commit@ && match ev@ {
                EventView::Attestation(a) => if !a.passed || a.commit != old(self).source_commit@
                    || a.repository_fingerprint != old(self).fingerprint@ {
                    final(self).stage == ProposeStage::Finished && r@ == StepView::<
                        ProposalView,
                    >::Finish(
                        Err(
                            DeliveryFailure::State(
                                "verification attestation does not match current commit"@,
                            ),
                        ),
                    )
                } else {
                    final(self).stage == ProposeStage::RemoteUrl && r@ == StepView::<
                        ProposalView,
                    >::Perform(ActionView::RemoteUrl(old(self).remote@))
                },
                _ => final(self).stage == ProposeStage::Finished && r@ == StepView::<
                    ProposalView,
                >::Finish(Err(failure_of(ev@))),
            },
            old(self).stage == ProposeStage::RemoteUrl ==> final(self).source_commit@ == old(self).source_commit@ && match ev@ {
                EventView::Text(u) => final(self).stage == ProposeStage::Parent
                    && final(self).remote_url_fingerprint@ == digest_hex(encode_utf8(u)) && r@
                    == StepView::<ProposalView>::Perform(ActionView::Parent),
                _ => final(self).stage == ProposeStage::Finished && r@ == StepView::<
                    ProposalView,
                >::Finish(Err(failure_of(ev@))),
            },
            old(self).stage == ProposeStage::Parent ==> final(self).source_commit@ == old(self).source_commit@ && final(self).remote_url_fingerprint@ == old(self).remote_url_fingerprint@ && match ev@ {
                EventView::MaybeText(p) => final(self).stage == ProposeStage::RemoteHead
                    && opt_str_view(final(self).parent_commit) == p && r@ == StepView::<
                    ProposalView,
                >::Perform(ActionView::RemoteHead(old(self).remote@, old(self).target_branch@)),
                _ => final(self).stage == ProposeStage::Finished && r@ == StepView::<
                    ProposalView,
                >::Finish(Err(failure_of(ev@))),
            },
            old(self).stage == ProposeStage::RemoteHead ==> match ev@ {
                EventView::MaybeText(e) => final(self).stage == ProposeStage::Encoding && (final(self).intent matches Some(i) && i@ == intent_of(
                    old(self).fingerprint@,
                    old(self).remote@,
                    old(self).remote_url_fingerprint@,
                    old(self).source_commit@,
                    opt_str_view(old(self).parent_commit),
                    old(self).target_branch@,
                    e,
                    old(self).verification_id@,
                ) && r@ == StepView::<ProposalView>::Perform(ActionView::EncodeIntent(i@))),
                _ => final(self).stage == ProposeStage::Finished && r@ == StepView::<
                    ProposalView,
                >::Finish(Err(failure_of(ev@))),
            },
            old(self).stage == ProposeStage::Encoding ==> match ev@ {
                EventView::Bytes(b) => final(self).stage == ProposeStage::Saving && (old(self).intent matches Some(i) && final(self).proposal matches Some(p) && {
                    &&& p@.intent == i@
                    &&& p@.intent_hash == digest_hex(b)
                    &&& valid_id_spec(p@.id)
                    &&& r@ == StepView::<ProposalView>::Perform(
                        ActionView::SaveProposal(
                            record_path_spec(old(self).store.root@, "proposals"@, p@.id),
                            p@,
                        ),
                    )
                }),
                _ => final(self).stage == ProposeStage::Finished && r@ == StepView::<
                    ProposalView,
                >::Finish(Err(failure_of(ev@))),
            },
            old(self).stage == ProposeStage::Saving ==> final(self).stage == ProposeStage::Finished
                && match ev@ {
                EventView::Done => (old(self).proposal matches Some(p) && r@ == StepView::<
                    ProposalView,
                >::Finish(Ok(p@))),
                _ => r@ == StepView::<ProposalView>::Finish(Err(failure_of(ev@))),
            },
            old(self).stage == ProposeStage::Finished ==> final(self).stage
                == ProposeStage::Finished && r@ == StepView::<ProposalView>::Finish(
                Err(unexpected_answer()),
            ),
    {
        match self.stage {
            ProposeStage::ValidatingBranch => match ev {
                DeliveryEvent::Done => match deny_protected_branch(self.target_branch.as_str()) {
                    Err(e) => {
                        self.stage = ProposeStage::Finished;
                        DeliveryStep::Finish(Err(e))
                    },
                    Ok(()) => {
                        self.stage = ProposeStage::Head;
                        DeliveryStep::Perform(DeliveryAction::Head)
                    },
                },
                other => {
                    self.stage = ProposeStage::Finished;
                    fail_with(other)
                },
            },
            ProposeStage::Head => match ev {
                DeliveryEvent::Text(c) => {
                    self.source_commit = c;
                    match self.store.attestation_path(self.verification_id.as_str()) {
                        Ok(path) => {
                            self.stage = ProposeStage::Attestation;
                            DeliveryStep::Perform(DeliveryAction::LoadAttestation(path))
                        },
                        Err(e) => {
                            self.stage = ProposeStage::Finished;
                            DeliveryStep::Finish(Err(e))
                        },
                    }
                },
                other => {
                    self.stage = ProposeStage::Finished;
                    fail_with(other)
                },
            },
            ProposeStage::Attestation => match ev {
                DeliveryEvent::Attestation(a) => {
                    if !a.passed || !str_eq(a.commit.as_str(), self.source_commit.as_str())
                        || !str_eq(a.repository_fingerprint.as_str(), self.fingerprint.as_str()) {
                        self.stage = ProposeStage::Finished;
                        DeliveryStep::Finish(
                            Err(
                                DeliveryError::state(
                                    "verification attestation does not match current commit",
                                ),
                            ),
                        )
                    } else {
                        self.stage = ProposeStage::RemoteUrl;
                        DeliveryStep::Perform(DeliveryAction::RemoteUrl(self.remote.clone()))
                    }
                },
                other => {
                    self.stage = ProposeStage::Finished;
                    fail_with(other)
                },
            },
            ProposeStage::RemoteUrl => match ev {
                DeliveryEvent::Text(u) => {
                    self.remote_url_fingerprint = sha256_hex(u.as_str().as_bytes());
                    self.stage = ProposeStage::Parent;
                    DeliveryStep::Perform(DeliveryAction::Parent)
                },
                other => {
                    self.stage = ProposeStage::Finished;
                    fail_with(other)
                },
            },
            ProposeStage::Parent => match ev {
                DeliveryEvent::MaybeText(p) => {
                    self.parent_commit = p;
                    self.stage = ProposeStage::RemoteHead;
                    DeliveryStep::Perform(
                        DeliveryAction::RemoteHead(self.remote.clone(), self.target_branch.clone()),
                    )
                },
                other => {
                    self.stage = ProposeStage::Finished;
                    fail_with(other)
                },
            },
            ProposeStage::RemoteHead => match ev {
                DeliveryEvent::MaybeText(e) => {
                    let intent = PushIntent {
                        schema_version: string_of("developer-delivery/v1"),
                        repository_fingerprint: self.fingerprint.clone(),
                        remote: self.remote.clone(),
                        remote_url_fingerprint: self.remote_url_fingerprint.clone(),
                        source_commit: self.source_commit.clone(),
                        parent_commit: clone_opt_string(&self.parent_commit),
                        target_branch: self.target_branch.clone(),
                        expected_remote_commit: e,
                        verification_attestation_id: self.verification_id.clone(),
                        force: false,
                    };
                    let copy = intent.duplicate();
                    self.intent = Some(intent);
                    self.stage = ProposeStage::Encoding;
                    DeliveryStep::Perform(DeliveryAction::EncodeIntent(copy))
                },
                other => {
                    self.stage = ProposeStage::Finished;
                    fail_with(other)
                },
            },
            ProposeStage::Encoding => match ev {
                DeliveryEvent::Bytes(b) => {
                    let intent_hash = sha256_hex(b.as_slice());
                    let id = new_simple_id();
                    proof {
                        lemma_fresh_id_valid(id@);
                    }
                    let intent = match &self.intent {
                        Some(i) => i.duplicate(),
                        None => {
                            self.stage = ProposeStage::Finished;
                            return DeliveryStep::Finish(Err(unexpected()));
                        },
                    };
                    let proposal = PushProposal { id, intent, intent_hash, created_at: now_nanos() };
                    match self.store.proposal_path(proposal.id.as_str()) {
                        Ok(path) => {
                            let copy = proposal.duplicate();
                            self.proposal = Some(proposal);
                            self.stage = ProposeStage::Saving;
                            DeliveryStep::Perform(DeliveryAction::SaveProposal(path, copy))
                        },
                        Err(e) => {
                            self.stage = ProposeStage::Finished;
                            DeliveryStep::Finish(Err(e))
                        },
                    }
                },
                other => {
                    self.stage = ProposeStage::Finished;
                    fail_with(other)
                },
            },
            ProposeStage::Saving => {
                self.stage = ProposeStage::Finished;
                match ev {
                    DeliveryEvent::Done => match &self.proposal {
                        Some(p) => DeliveryStep::Finish(Ok(p.duplicate())),
                        None => DeliveryStep::Finish(Err(unexpected())),
                    },
                    other => fail_with(other),
                }
            },
            ProposeStage::Finished => DeliveryStep::Finish(Err(unexpected())),
        }
    }
}

// ---------------------------------------------------------------------------
// re-validation of a proposal
// ---------------------------------------------------------------------------

#[derive(Debug, Clone, Copy, PartialEq, Eq, Structural)]
pub enum CheckStage {
    Encoding,
    Head,
    RemoteUrl,
    RemoteHead,
    Ancestry,
    Attestation,
    Done,
}

/// The next thing a proposal check needs, or its verdict.
#[derive(Debug)]
pub enum CheckStep {
    Continue(DeliveryAction),
    Passed,
    Failed(DeliveryError),
}

pub ghost enum CheckStepView {
    Continue(ActionView),
    Passed,
    Failed(DeliveryFailure),
}

impl View for CheckStep {
    type V = CheckStepView;

    open spec fn view(&self) -> CheckStepView {
        match self {
            CheckStep::Continue(a) => CheckStepView::Continue(a@),
            CheckStep::Passed => CheckStepView::Passed,
            CheckStep::Failed(e) => CheckStepView::Failed(e@),
        }
    }
}

/// A check that a proposal still describes the repository exactly: neither
/// its contents, nor the repository, HEAD, remote URL or remote head have
/// changed; the push is a fast-forward; the attestation covers the commit.
pub struct ProposalCheck {
    pub intent: PushIntent,
    pub intent_hash: String,
    pub fingerprint: String,
    pub store: DeliveryStore,
    pub stage: CheckStage,
}

pub open spec fn check_failed(f: DeliveryFailure) -> (CheckStage, CheckStepView) {
    (CheckStage::Done, CheckStepView::Failed(f))
}

/// The first checks, which need nothing from outside.
pub open spec fn check_start(intent: IntentView) -> (CheckStage, CheckStepView) {
    if intent.force {
        check_failed(DeliveryFailure::Policy("force push is forbidden"@))
    } else if protected_branch(intent.target_branch) {
        check_failed(
            DeliveryFailure::Policy(
                "direct push to protected branch '"@ + intent.target_branch + "' is forbidden"@,
            ),
        )
    } else {
        (CheckStage::Encoding, CheckStepView::Continue(ActionView::EncodeIntent(intent)))
    }
}

/// Loading the attestation that the proposal names.
pub open spec fn check_attestation_step(intent: IntentView, root: Seq<char>) -> (
    CheckStage,
    CheckStepView,
) {
    if valid_id_spec(intent.verification_attestation_id) {
        (
            CheckStage::Attestation,
            CheckStepView::Continue(
                ActionView::LoadAttestation(
                    record_path_spec(root, "attestations"@, intent.verification_attestation_id),
                ),
            ),
        )
    } else {
        check_failed(DeliveryFailure::State("invalid state identifier"@))
    }
}

/// The check's transitions.
pub open spec fn check_next(
    intent: IntentView,
    intent_hash: Seq<char>,
    fingerprint: Seq<char>,
    root: Seq<char>,
    stage: CheckStage,
    ev: EventView,
) -> (CheckStage, CheckStepView) {
    let fail = check_failed(failure_of(ev));
    match stage {
        CheckStage::Encoding => match ev {
            EventView::Bytes(b) => if digest_hex(b) != intent_hash {
                check_failed(DeliveryFailure::Approval("proposal contents were modified"@))
            } else if fingerprint != intent.repository_fingerprint {
                check_failed(DeliveryFailure::Approval("repository identity changed"@))
            } else {
                (CheckStage::Head, CheckStepView::Continue(ActionView::Head))
            },
            _ => fail,
        },
        CheckStage::Head => match ev {
            EventView::Text(h) => if h != intent.source_commit {
                check_failed(DeliveryFailure::Approval("local HEAD changed after proposal"@))
            } else {
                (CheckStage::RemoteUrl, CheckStepView::Continue(ActionView::RemoteUrl(intent.remote)))
            },
            _ => fail,
        },
        CheckStage::RemoteUrl => match ev {
            EventView::Text(u) => if digest_hex(encode_utf8(u)) != intent.remote_url_fingerprint {
                check_failed(DeliveryFailure::Approval("remote URL changed after proposal"@))
            } else {
                (
                    CheckStage::RemoteHead,
                    CheckStepView::Continue(
                        ActionView::RemoteHead(intent.remote, intent.target_branch),
                    ),
                )
            },
            _ => fail,
        },
        CheckStage::RemoteHead => match ev {
            EventView::MaybeText(rh) => if rh != intent.expected_remote_commit {
                check_failed(DeliveryFailure::Approval("remote HEAD changed after proposal"@))
            } else {
                match intent.expected_remote_commit {
                    Some(e) => (
                        CheckStage::Ancestry,
                        CheckStepView::Continue(ActionView::IsAncestor(e, intent.source_commit)),
                    ),
                    None => check_attestation_step(intent, root),
                }
            },
            _ => fail,
        },
        CheckStage::Ancestry => match ev {
            EventView::Flag(a) => if !a {
                check_failed(DeliveryFailure::Policy("push would not be a fast-forward update"@))
            } else {
                check_attestation_step(intent, root)
            },
            _ => fail,
        },
        CheckStage::Attestation => match ev {
            EventView::Attestation(a) => if !a.passed || a.commit != intent.source_commit {
                check_failed(
                    DeliveryFailure::State("verification attestation is invalid for push commit"@),
                )
            } else {
                (CheckStage::Done, CheckStepView::Passed)
            },
            _ => fail,
        },
        CheckStage::Done => check_failed(unexpected_answer()),
    }
}

impl ProposalCheck {
    /// Starts checking `proposal` against the repository of `service`.
    pub fn start(service: &DeliveryService, proposal: &PushProposal) -> (r: (ProposalCheck, CheckStep))
        ensures
            r.0.intent@ == proposal.intent@,
            r.0.intent_hash@ == proposal.intent_hash@,
            r.0.fingerprint@ == fingerprint_of(service.repository.root@),
            r.0.store.root@ == service.store.root@,
            (r.0.stage, r.1@) == check_start(proposal.intent@),
    {
        let fingerprint = repository_fingerprint(&service.repository);
        Self::begin(fingerprint.as_str(), service.store.root.as_str(), proposal)
    }

    /// Starts checking `proposal` against a repository of the given
    /// fingerprint whose store is at `store_root`.
    pub fn begin(fingerprint: &str, store_root: &str, proposal: &PushProposal) -> (r: (ProposalCheck, CheckStep))
        ensures
            r.0.intent@ == proposal.intent@,
            r.0.intent_hash@ == proposal.intent_hash@,
            r.0.fingerprint@ == fingerprint@,
            r.0.store.root@ == store_root@,
            (r.0.stage, r.1@) == check_start(proposal.intent@),
    {
        let mut check = ProposalCheck {
            intent: proposal.intent.duplicate(),
            intent_hash: proposal.intent_hash.clone(),
            fingerprint: string_of(fingerprint),
            store: DeliveryStore { root: string_of(store_root) },
            stage: CheckStage::Done,
        };
        if proposal.intent.force {
            return (check, CheckStep::Failed(DeliveryError::policy("force push is forbidden")));
        }
        match deny_protected_branch(proposal.intent.target_branch.as_str()) {
            Err(e) => (check, CheckStep::Failed(e)),
            Ok(()) => {
                check.stage = CheckStage::Encoding;
                (check, CheckStep::Continue(DeliveryAction::EncodeIntent(proposal.intent.duplicate())))
            },
        }
    }

    fn attestation_step(&self) -> (r: (CheckStage, CheckStep))
        ensures
            (r.0, r.1@) == check_attestation_step(self.intent@, self.store.root@),
    {
        match self.store.attestation_path(self.intent.verification_attestation_id.as_str()) {
            Ok(path) => (CheckStage::Attestation, CheckStep::Continue(DeliveryAction::LoadAttestation(path))),
            Err(e) => (CheckStage::Done, CheckStep::Failed(e)),
        }
    }

    fn fail(ev: DeliveryEvent) -> (r: CheckStep)
        ensures
            r@ == CheckStepView::Failed(failure_of(ev@)),
    {
        match ev {
            DeliveryEvent::Failed(e) => CheckStep::Failed(e),
            _ => CheckStep::Failed(unexpected()),
        }
    }

    /// Advances the check with the answer to its last action.
    pub fn resume(&mut self, ev: DeliveryEvent) -> (r: CheckStep)
        ensures
            final(self).intent@ == old(self).intent@,
            final(self).intent_hash@ == old(self).intent_hash@,
            final(self).fingerprint@ == old(self).fingerprint@,
            final(self).store.root@ == old(self).store.root@,
            (final(self).stage, r@) == check_next(
                old(self).intent@,
                old(self).intent_hash@,
                old(self).fingerprint@,
                old(self).store.root@,
                old(self).stage,
                ev@,
            ),
    {
        let (stage, step) = match self.stage {
            CheckStage::Encoding => match ev {
                DeliveryEvent::Bytes(b) => {
                    let hash = sha256_hex(b.as_slice());
                    if !str_eq(hash.as_str(), self.intent_hash.as_str()) {
                        (CheckStage::Done, CheckStep::Failed(DeliveryError::approval("proposal contents were modified")))
                    } else if !str_eq(self.fingerprint.as_str(), self.intent.repository_fingerprint.as_str()) {
                        (CheckStage::Done, CheckStep::Failed(DeliveryError::approval("repository identity changed")))
                    } else {
                        (CheckStage::Head, CheckStep::Continue(DeliveryAction::Head))
                    }
                },
                other => (CheckStage::Done, Self::fail(other)),
            },
            CheckStage::Head => match ev {
                DeliveryEvent::Text(h) => {
                    if !str_eq(h.as_str(), self.intent.source_commit.as_str()) {
                        (CheckStage::Done, CheckStep::Failed(DeliveryError::approval("local HEAD changed after proposal")))
                    } else {
                        (CheckStage::RemoteUrl, CheckStep::Continue(DeliveryAction::RemoteUrl(self.intent.remote.clone())))
                    }
                },
                other => (CheckStage::Done, Self::fail(other)),
            },
            CheckStage::RemoteUrl => match ev {
                DeliveryEvent::Text(u) => {
                    let url_fingerprint = sha256_hex(u.as_str().as_bytes());
                    if !str_eq(url_fingerprint.as_str(), self.intent.remote_url_fingerprint.as_str()) {
                        (CheckStage::Done, CheckStep::Failed(DeliveryError::approval("remote URL changed after proposal")))
                    } else {
                        (
                            CheckStage::RemoteHead,
                            CheckStep::Continue(
                                DeliveryAction::RemoteHead(
                                    self.intent.remote.clone(),
                                    self.intent.target_branch.clone(),
                                ),
                            ),
                        )
                    }
                },
                other => (CheckStage::Done, Self::fail(other)),
            },
            CheckStage::RemoteHead => match ev {
                DeliveryEvent::MaybeText(rh) => {
                    if !opt_str_eq(&rh, &self.intent.expected_remote_commit) {
                        (CheckStage::Done, CheckStep::Failed(DeliveryError::approval("remote HEAD changed after proposal")))
                    } else {
                        match &self.intent.expected_remote_commit {
                            Some(e) => (
                                CheckStage::Ancestry,
                                CheckStep::Continue(
                                    DeliveryAction::IsAncestor(e.clone(), self.intent.source_commit.clone()),
                                ),
                            ),
                            None => self.attestation_step(),
                        }
                    }
                },
                other => (CheckStage::Done, Self::fail(other)),
            },
            CheckStage::Ancestry => match ev {
                DeliveryEvent::Flag(a) => {
                    if !a {
                        (CheckStage::Done, CheckStep::Failed(DeliveryError::policy("push would not be a fast-forward update")))
                    } else {
                        self.attestation_step()
                    }
                },
                other => (CheckStage::Done, Self::fail(other)),
            },
            CheckStage::Attestation => match ev {
                DeliveryEvent::Attestation(a) => {
                    if !a.passed || !str_eq(a.commit.as_str(), self.intent.source_commit.as_str()) {
                        (
                            CheckStage::Done,
                            CheckStep::Failed(
                                DeliveryError::state("verification attestation is invalid for push commit"),
                            ),
                        )
                    } else {
                        (CheckStage::Done, CheckStep::Passed)
                    }
                },
                other => (CheckStage::Done, Self::fail(other)),
            },
            CheckStage::Done => (CheckStage::Done, CheckStep::Failed(unexpected())),
        };
        self.stage = stage;
        step
    }
}

} // verus!

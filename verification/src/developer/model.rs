//! The records of the developer-delivery workflow. Timestamps are Unix
//! nanoseconds (UTC), the full precision of the clock's times.
use vstd::prelude::*;

verus! {

/// What `inspect` reports about the working tree.
#[derive(Debug, Clone, PartialEq, Eq)]
pub struct RepositoryInspection {
    pub repository_fingerprint: String,
    pub branch: Option<String>,
    pub head: Option<String>,
    pub changed_paths: Vec<String>,
}

/// Evidence that a named check passed on a given commit.
#[derive(Debug, Clone, PartialEq, Eq)]
pub struct VerificationAttestation {
    pub id: String,
    pub repository_fingerprint: String,
    pub commit: String,
    pub check_name: String,
    pub command_fingerprint: String,
    pub completed_at: i128,
    pub passed: bool,
}

/// Exactly what a push will do, fixed before it is approved.
#[derive(Debug, Clone, PartialEq, Eq)]
pub struct PushIntent {
    pub schema_version: String,
    pub repository_fingerprint: String,
    pub remote: String,
    pub remote_url_fingerprint: String,
    pub source_commit: String,
    pub parent_commit: Option<String>,
    pub target_branch: String,
    pub expected_remote_commit: Option<String>,
    pub verification_attestation_id: String,
    pub force: bool,
}

/// A recorded push intent with the hash that approvals bind to.
#[derive(Debug, Clone, PartialEq, Eq)]
pub struct PushProposal {
    pub id: String,
    pub intent: PushIntent,
    pub intent_hash: String,
    pub created_at: i128,
}

/// The signed part of an approval.
#[derive(Debug, Clone, PartialEq, Eq)]
pub struct ApprovalClaims {
    pub approval_id: String,
    pub proposal_id: String,
    pub intent_hash: String,
    pub approver: String,
    pub approved_at: i128,
    pub expires_at: i128,
}

/// An approval: claims, their signature, and when (if ever) it was used.
#[derive(Debug, Clone, PartialEq, Eq)]
pub struct ApprovalReceipt {
    pub claims: ApprovalClaims,
    pub signature: String,
    pub consumed_at: Option<i128>,
}

pub ghost struct AttestationView {
    pub id: Seq<char>,
    pub repository_fingerprint: Seq<char>,
    pub commit: Seq<char>,
    pub check_name: Seq<char>,
    pub command_fingerprint: Seq<char>,
    pub completed_at: int,
    pub passed: bool,
}

pub ghost struct IntentView {
    pub schema_version: Seq<char>,
    pub repository_fingerprint: Seq<char>,
    pub remote: Seq<char>,
    pub remote_url_fingerprint: Seq<char>,
    pub source_commit: Seq<char>,
    pub parent_commit: Option<Seq<char>>,
    pub target_branch: Seq<char>,
    pub expected_remote_commit: Option<Seq<char>>,
    pub verification_attestation_id: Seq<char>,
    pub force: bool,
}

pub ghost struct ProposalView {
    pub id: Seq<char>,
    pub intent: IntentView,
    pub intent_hash: Seq<char>,
    pub created_at: int,
}

pub ghost struct ClaimsView {
    pub approval_id: Seq<char>,
    pub proposal_id: Seq<char>,
    pub intent_hash: Seq<char>,
    pub approver: Seq<char>,
    pub approved_at: int,
    pub expires_at: int,
}

pub ghost struct ReceiptView {
    pub claims: ClaimsView,
    pub signature: Seq<char>,
    pub consumed_at: Option<int>,
}

pub open spec fn opt_str_view(o: Option<String>) -> Option<Seq<char>> {
    match o {
        Some(s) => Some(s@),
        None => None,
    }
}

pub open spec fn opt_int_view(o: Option<i128>) -> Option<int> {
    match o {
        Some(t) => Some(t as int),
        None => None,
    }
}

impl View for VerificationAttestation {
    type V = AttestationView;

    open spec fn view(&self) -> AttestationView {
        AttestationView {
            id: self.id@,
            repository_fingerprint: self.repository_fingerprint@,
            commit: self.commit@,
            check_name: self.check_name@,
            command_fingerprint: self.command_fingerprint@,
            completed_at: self.completed_at as int,
            passed: self.passed,
        }
    }
}

impl View for PushIntent {
    type V = IntentView;

    open spec fn view(&self) -> IntentView {
        IntentView {
            schema_version: self.schema_version@,
            repository_fingerprint: self.repository_fingerprint@,
            remote: self.remote@,
            remote_url_fingerprint: self.remote_url_fingerprint@,
            source_commit: self.source_commit@,
            parent_commit: opt_str_view(self.parent_commit),
            target_branch: self.target_branch@,
            expected_remote_commit: opt_str_view(self.expected_remote_commit),
            verification_attestation_id: self.verification_attestation_id@,
            force: self.force,
        }
    }
}

impl View for PushProposal {
    type V = ProposalView;

    open spec fn view(&self) -> ProposalView {
        ProposalView {
            id: self.id@,
            intent: self.intent@,
            intent_hash: self.intent_hash@,
            created_at: self.created_at as int,
        }
    }
}

impl View for ApprovalClaims {
    type V = ClaimsView;

    open spec fn view(&self) -> ClaimsView {
        ClaimsView {
            approval_id: self.approval_id@,
            proposal_id: self.proposal_id@,
            intent_hash: self.intent_hash@,
            approver: self.approver@,
            approved_at: self.approved_at as int,
            expires_at: self.expires_at as int,
        }
    }
}

impl View for ApprovalReceipt {
    type V = ReceiptView;

    open spec fn view(&self) -> ReceiptView {
        ReceiptView {
            claims: self.claims@,
            signature: self.signature@,
            consumed_at: opt_int_view(self.consumed_at),
        }
    }
}

pub fn clone_opt_string(o: &Option<String>) -> (r: Option<String>)
    ensures
        opt_str_view(r) == opt_str_view(*o),
{
    match o {
        Some(s) => Some(s.clone()),
        None => None,
    }
}

impl VerificationAttestation {
    pub fn duplicate(&self) -> (r: Self)
        ensures
            r@ == self@,
    {
        VerificationAttestation {
            id: self.id.clone(),
            repository_fingerprint: self.repository_fingerprint.clone(),
            commit: self.commit.clone(),
            check_name: self.check_name.clone(),
            command_fingerprint: self.command_fingerprint.clone(),
            completed_at: self.completed_at,
            passed: self.passed,
        }
    }
}

impl PushIntent {
    pub fn duplicate(&self) -> (r: Self)
        ensures
            r@ == self@,
    {
        PushIntent {
            schema_version: self.schema_version.clone(),
            repository_fingerprint: self.repository_fingerprint.clone(),
            remote: self.remote.clone(),
            remote_url_fingerprint: self.remote_url_fingerprint.clone(),
            source_commit: self.source_commit.clone(),
            parent_commit: clone_opt_string(&self.parent_commit),
            target_branch: self.target_branch.clone(),
            expected_remote_commit: clone_opt_string(&self.expected_remote_commit),
            verification_attestation_id: self.verification_attestation_id.clone(),
            force: self.force,
        }
    }
}

impl PushProposal {
    pub fn duplicate(&self) -> (r: Self)
        ensures
            r@ == self@,
    {
        PushProposal {
            id: self.id.clone(),
            intent: self.intent.duplicate(),
            intent_hash: self.intent_hash.clone(),
            created_at: self.created_at,
        }
    }
}

impl ApprovalClaims {
    pub fn duplicate(&self) -> (r: Self)
        ensures
            r@ == self@,
    {
        ApprovalClaims {
            approval_id: self.approval_id.clone(),
            proposal_id: self.proposal_id.clone(),
            intent_hash: self.intent_hash.clone(),
            approver: self.approver.clone(),
            approved_at: self.approved_at,
            expires_at: self.expires_at,
        }
    }
}

impl ApprovalReceipt {
    pub fn duplicate(&self) -> (r: Self)
        ensures
            r@ == self@,
    {
        ApprovalReceipt {
            claims: self.claims.duplicate(),
            signature: self.signature.clone(),
            consumed_at: self.consumed_at,
        }
    }
}

} // verus!

use std::collections::{HashMap, HashSet};

use hmac::{Hmac, Mac};
use sha2::Sha256;

use govail_mcp::developer::flow::{DeliveryAction, DeliveryEvent, DeliveryStep};
use govail_mcp::developer::git::GitRepository;
use govail_mcp::developer::model::{ApprovalReceipt, PushProposal, VerificationAttestation};
use govail_mcp::developer::operations::DeliveryService;
use govail_mcp::developer::service::DeliveryError;

/// A repository, its remote and the record files, answering the actions
/// that the delivery flows ask for.
struct World {
    head: String,
    parent: Option<String>,
    commits: u32,
    staged: Vec<String>,
    stray: Option<String>,
    remote_url: String,
    remote_head: Option<String>,
    attestations: HashMap<String, VerificationAttestation>,
    proposals: HashMap<String, PushProposal>,
    approvals: HashMap<String, ApprovalReceipt>,
    key: Option<Vec<u8>>,
    locks: HashSet<String>,
}

impl World {
    fn new() -> Self {
        World {
            head: "1".repeat(40),
            parent: None,
            commits: 1,
            staged: Vec::new(),
            stray: None,
            remote_url: "/tmp/fixture/remote.git".to_string(),
            remote_head: None,
            attestations: HashMap::new(),
            proposals: HashMap::new(),
            approvals: HashMap::new(),
            key: None,
            locks: HashSet::new(),
        }
    }

    fn perform(&mut self, action: DeliveryAction) -> DeliveryEvent {
        match action {
            DeliveryAction::StagedPaths => DeliveryEvent::Paths(self.staged.clone()),
            DeliveryAction::IsDirectory(_) => DeliveryEvent::Flag(false),
            DeliveryAction::StagePaths(paths) => {
                self.staged = paths;
                if let Some(extra) = &self.stray {
                    self.staged.push(extra.clone());
                }
                DeliveryEvent::Done
            }
            DeliveryAction::HasStagedChanges => DeliveryEvent::Flag(!self.staged.is_empty()),
            DeliveryAction::Commit(_) => {
                self.commits += 1;
                self.parent = Some(self.head.clone());
                self.head = self.commits.to_string().repeat(40).chars().take(40).collect();
                self.staged.clear();
                DeliveryEvent::Text(self.head.clone())
            }
            DeliveryAction::Head => DeliveryEvent::Text(self.head.clone()),
            DeliveryAction::Parent => DeliveryEvent::MaybeText(self.parent.clone()),
            DeliveryAction::CurrentBranch => DeliveryEvent::MaybeText(Some("feature/delivery".to_string())),
            DeliveryAction::ChangedPaths => DeliveryEvent::Paths(Vec::new()),
            DeliveryAction::RemoteUrl(_) => DeliveryEvent::Text(self.remote_url.clone()),
            DeliveryAction::RemoteHead(_, _) => DeliveryEvent::MaybeText(self.remote_head.clone()),
            DeliveryAction::ValidateBranch(_) => DeliveryEvent::Done,
            DeliveryAction::IsAncestor(_, _) => DeliveryEvent::Flag(true),
            DeliveryAction::RunCheck(_, _) => DeliveryEvent::Exit(true, "exit status: 0".to_string()),
            DeliveryAction::EncodeCommand(n, p, a) => DeliveryEvent::Bytes(format!("{:?}", (n, p, a)).into_bytes()),
            DeliveryAction::EncodeIntent(i) => DeliveryEvent::Bytes(format!("{:?}", i).into_bytes()),
            DeliveryAction::EncodeClaims(c) => DeliveryEvent::Bytes(format!("{:?}", c).into_bytes()),
            DeliveryAction::LoadAttestation(p) => match self.attestations.get(&p) {
                Some(a) => DeliveryEvent::Attestation(a.clone()),
                None => DeliveryEvent::Failed(DeliveryError::Io(format!("missing {p}"))),
            },
            DeliveryAction::LoadProposal(p) => match self.proposals.get(&p) {
                Some(a) => DeliveryEvent::Proposal(a.clone()),
                None => DeliveryEvent::Failed(DeliveryError::Io(format!("missing {p}"))),
            },
            DeliveryAction::LoadApproval(p) => match self.approvals.get(&p) {
                Some(a) => DeliveryEvent::Receipt(a.clone()),
                None => DeliveryEvent::Failed(DeliveryError::Io(format!("missing {p}"))),
            },
            DeliveryAction::SaveAttestation(p, a) => {
                self.attestations.insert(p, a);
                DeliveryEvent::Done
            }
            DeliveryAction::SaveProposal(p, a) => {
                self.proposals.insert(p, a);
                DeliveryEvent::Done
            }
            DeliveryAction::SaveApproval(p, a) => {
                self.approvals.insert(p, a);
                DeliveryEvent::Done
            }
            DeliveryAction::ReadApprovalKey(_) => DeliveryEvent::MaybeBytes(self.key.clone()),
            DeliveryAction::CreateApprovalKey(_, k) => match &self.key {
                Some(existing) => DeliveryEvent::Bytes(existing.clone()),
                None => {
                    self.key = Some(k);
                    DeliveryEvent::Done
                }
            },
            DeliveryAction::AcquireLock(p) => {
                if self.locks.insert(p) {
                    DeliveryEvent::Done
                } else {
                    DeliveryEvent::Refused
                }
            }
            DeliveryAction::PushExact(_, _, commit, _) => {
                self.remote_head = Some(commit);
                DeliveryEvent::Done
            }
        }
    }

    /// Runs a flow to its end; locks are released when it ends.
    fn run<T>(&mut self, first: DeliveryStep<T>, mut resume: impl FnMut(DeliveryEvent) -> DeliveryStep<T>) -> Result<T, DeliveryError> {
        let mut step = first;
        loop {
            match step {
                DeliveryStep::Finish(result) => {
                    self.locks.clear();
                    return result;
                }
                DeliveryStep::Perform(action) => {
                    let ev = self.perform(action);
                    step = resume(ev);
                }
            }
        }
    }
}

fn service() -> DeliveryService {
    DeliveryService::open(GitRepository::open("/tmp/fixture/work", "/tmp/fixture/work/.git"))
}

fn commit_change(world: &mut World) -> String {
    let (mut flow, step) = service().commit_allowlisted(&vec!["feature.txt".to_string()], "feat: add feature");
    world.run(step, |ev| flow.resume(ev)).unwrap()
}

fn verify(world: &mut World) -> String {
    let (mut flow, step) = service().verify("repository-clean", "/usr/bin/true", &vec![]);
    world.run(step, |ev| flow.resume(ev)).unwrap().id
}

fn propose(world: &mut World, verification: &str) -> PushProposal {
    let (mut flow, step) = service().propose_push("origin", "feature/delivery", verification);
    world.run(step, |ev| flow.resume(ev)).unwrap()
}

fn approve(world: &mut World, proposal: &PushProposal) -> ApprovalReceipt {
    let (mut flow, step) = service().approve(&proposal.id, "local:test-user", 600);
    world.run(step, |ev| flow.resume(ev)).unwrap()
}

fn push(world: &mut World, approval_id: &str) -> Result<PushProposal, DeliveryError> {
    let (mut flow, step) = service().push(approval_id);
    world.run(step, |ev| flow.resume(ev))
}

#[test]
fn approved_exact_commit_is_pushed_once() {
    let mut world = World::new();
    let commit = commit_change(&mut world);
    let verification = verify(&mut world);
    let proposal = propose(&mut world, &verification);
    let approval = approve(&mut world, &proposal);

    push(&mut world, &approval.claims.approval_id).unwrap();
    assert_eq!(world.remote_head.clone().unwrap(), commit);

    let reused = push(&mut world, &approval.claims.approval_id);
    assert!(reused.unwrap_err().message().contains("already been consumed"));
}

#[test]
fn remote_drift_invalidates_approval_before_push() {
    let mut world = World::new();
    commit_change(&mut world);
    let verification = verify(&mut world);
    let proposal = propose(&mut world, &verification);
    let approval = approve(&mut world, &proposal);
    let initial = world.parent.clone().unwrap();
    world.remote_head = Some(initial);

    let result = push(&mut world, &approval.claims.approval_id);
    assert!(result.unwrap_err().message().contains("remote HEAD changed"));
}

#[test]
fn local_head_drift_invalidates_approval() {
    let mut world = World::new();
    commit_change(&mut world);
    let verification = verify(&mut world);
    let proposal = propose(&mut world, &verification);
    let approval = approve(&mut world, &proposal);
    let (mut flow, step) = service().commit_allowlisted(&vec!["drift.txt".to_string()], "test: create drift");
    world.run(step, |ev| flow.resume(ev)).unwrap();

    let result = push(&mut world, &approval.claims.approval_id);
    assert!(result.unwrap_err().message().contains("local HEAD changed"));
}

#[test]
fn tampered_approval_receipt_is_rejected() {
    let mut world = World::new();
    commit_change(&mut world);
    let verification = verify(&mut world);
    let proposal = propose(&mut world, &verification);
    let approval = approve(&mut world, &proposal);
    for receipt in world.approvals.values_mut() {
        receipt.claims.approver = "local:attacker".to_string();
    }

    let result = push(&mut world, &approval.claims.approval_id);
    assert!(result.unwrap_err().message().contains("signature is invalid"));
}

#[test]
fn preexisting_staged_change_is_never_mixed_into_allowlisted_commit() {
    let mut world = World::new();
    world.staged = vec!["unrelated.txt".to_string()];
    let (mut flow, step) = service().commit_allowlisted(&vec!["wanted.txt".to_string()], "feat: wanted only");
    let result = world.run(step, |ev| flow.resume(ev));
    assert!(result.unwrap_err().message().contains("already contains staged changes"));
}

#[test]
fn protected_branch_and_path_traversal_are_denied() {
    let mut world = World::new();
    commit_change(&mut world);
    let verification = verify(&mut world);
    let (mut flow, step) = service().propose_push("origin", "main", &verification);
    let protected = world.run(step, |ev| flow.resume(ev));
    assert!(protected.unwrap_err().message().contains("protected branch"));

    let (mut flow, step) = service().commit_allowlisted(&vec!["../outside".to_string()], "bad");
    let traversal = world.run(step, |ev| flow.resume(ev));
    assert!(traversal.unwrap_err().message().contains("without traversal"));
}

#[test]
fn approval_signature_is_the_hmac_of_the_claims() {
    let mut world = World::new();
    commit_change(&mut world);
    let verification = verify(&mut world);
    let proposal = propose(&mut world, &verification);
    let approval = approve(&mut world, &proposal);
    let key = world.key.clone().unwrap();
    let mut mac = Hmac::<Sha256>::new_from_slice(&key).unwrap();
    mac.update(format!("{:?}", approval.claims).as_bytes());
    let expected: String = mac.finalize().into_bytes().iter().map(|b| format!("{:02x}", b)).collect();
    assert_eq!(approval.signature, expected);
    assert_eq!(approval.signature.len(), 64);
}

#[test]
fn staging_that_adds_other_paths_is_refused_with_the_listing() {
    let mut world = World::new();
    world.stray = Some("z stray.txt".to_string());
    let (mut flow, step) = service().commit_allowlisted(&vec!["a.txt".to_string()], "feat: a");
    let result = world.run(step, |ev| flow.resume(ev));
    assert_eq!(
        result.unwrap_err().message(),
        "policy denied operation: staged paths do not exactly match allowlist: staged=[\"a.txt\", \"z stray.txt\"]"
    );
}

#[test]
fn failed_push_leaves_the_receipt_unconsumed_and_can_be_retried() {
    let mut world = World::new();
    let commit = commit_change(&mut world);
    let verification = verify(&mut world);
    let proposal = propose(&mut world, &verification);
    let approval = approve(&mut world, &proposal);
    world.remote_head = Some("f".repeat(40));

    let result = push(&mut world, &approval.claims.approval_id);
    assert!(result.unwrap_err().message().contains("remote HEAD changed"));
    assert!(world.approvals.values().all(|r| r.consumed_at.is_none()));
    assert_eq!(world.remote_head, Some("f".repeat(40)));

    world.remote_head = None;
    push(&mut world, &approval.claims.approval_id).unwrap();
    assert_eq!(world.remote_head, Some(commit));
    assert!(world.approvals.values().all(|r| r.consumed_at.is_some()));
}

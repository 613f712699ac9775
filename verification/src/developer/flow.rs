//! The steps of each delivery operation. An operation is a flow: the library
//! decides, and names the next piece of outside work (a git command, a file
//! read or write, an encoding) as an action; the caller performs it and
//! resumes the flow with what came back, until the flow finishes.
use vstd::prelude::*;

use super::model::{
    opt_str_view, ApprovalClaims, ApprovalReceipt, AttestationView, ClaimsView, IntentView,
    ProposalView, PushIntent, PushProposal, ReceiptView,
    VerificationAttestation,
};
use super::service::{DeliveryError, DeliveryFailure};
use crate::sorting::views_of;

verus! {

broadcast use vstd::string::group_string_axioms;

/// Outside work a flow asks for, with what the caller must answer.
#[derive(Debug)]
pub enum DeliveryAction {
    /// `git diff --cached --name-only --no-renames -z`: `Paths`.
    StagedPaths,
    /// Whether the path is a directory: `Flag`.
    IsDirectory(String),
    /// `git add -- <paths>`: `Done`.
    StagePaths(Vec<String>),
    /// `git diff --cached --quiet --exit-code`: `Flag` (something staged).
    HasStagedChanges,
    /// `git commit --message <message>`, then the new HEAD: `Text`.
    Commit(String),
    /// `git rev-parse HEAD`: `Text`.
    Head,
    /// `git rev-parse HEAD^`: `MaybeText` (none when HEAD has no parent).
    Parent,
    /// `git branch --show-current`: `MaybeText`.
    CurrentBranch,
    /// `git status --short --no-renames --untracked-files=all -z`: `Paths`.
    ChangedPaths,
    /// `git remote get-url <remote>`: `Text`.
    RemoteUrl(String),
    /// `git ls-remote --heads <remote> refs/heads/<branch>`: `MaybeText`.
    RemoteHead(String, String),
    /// `git check-ref-format --branch <branch>`: `Done`.
    ValidateBranch(String),
    /// `git merge-base --is-ancestor <ancestor> <descendant>`: `Flag`.
    IsAncestor(String, String),
    /// Runs a verification program in the repository root: `Exit`.
    RunCheck(String, Vec<String>),
    /// JSON bytes of `[check_name, program, args]`: `Bytes`.
    EncodeCommand(String, String, Vec<String>),
    /// JSON bytes of a push intent: `Bytes`.
    EncodeIntent(PushIntent),
    /// JSON bytes of approval claims: `Bytes`.
    EncodeClaims(ApprovalClaims),
    /// Reads the attestation record at the path: `Attestation`.
    LoadAttestation(String),
    /// Reads the proposal record at the path: `Proposal`.
    LoadProposal(String),
    /// Reads the approval record at the path: `Receipt`.
    LoadApproval(String),
    /// Writes the record at the path: `Done`.
    SaveAttestation(String, VerificationAttestation),
    SaveProposal(String, PushProposal),
    SaveApproval(String, ApprovalReceipt),
    /// Reads the signing key at the path, if the file exists: `MaybeBytes`.
    ReadApprovalKey(String),
    /// Creates the key file with the key, only if absent: `Done`, or `Bytes`
    /// with the key that another process wrote first.
    CreateApprovalKey(String, Vec<u8>),
    /// Creates the lock file, only if absent: `Done`, or `Refused`.
    AcquireLock(String),
    /// `git push --porcelain --force-with-lease=...` of exactly that commit: `Done`.
    PushExact(String, String, String, Option<String>),
}

/// What came back from an action. `Failed` carries the error of the action.
#[derive(Debug)]
pub enum DeliveryEvent {
    Done,
    Text(String),
    MaybeText(Option<String>),
    Paths(Vec<String>),
    Flag(bool),
    /// Whether the program succeeded, and how its status reads.
    Exit(bool, String),
    Bytes(Vec<u8>),
    MaybeBytes(Option<Vec<u8>>),
    Attestation(VerificationAttestation),
    Proposal(PushProposal),
    Receipt(ApprovalReceipt),
    Refused,
    Failed(DeliveryError),
}

/// The next thing a flow needs: outside work, or its result.
#[derive(Debug)]
pub enum DeliveryStep<T> {
    Perform(DeliveryAction),
    Finish(Result<T, DeliveryError>),
}

pub ghost enum ActionView {
    StagedPaths,
    IsDirectory(Seq<char>),
    StagePaths(Seq<Seq<char>>),
    HasStagedChanges,
    Commit(Seq<char>),
    Head,
    Parent,
    CurrentBranch,
    ChangedPaths,
    RemoteUrl(Seq<char>),
    RemoteHead(Seq<char>, Seq<char>),
    ValidateBranch(Seq<char>),
    IsAncestor(Seq<char>, Seq<char>),
    RunCheck(Seq<char>, Seq<Seq<char>>),
    EncodeCommand(Seq<char>, Seq<char>, Seq<Seq<char>>),
    EncodeIntent(IntentView),
    EncodeClaims(ClaimsView),
    LoadAttestation(Seq<char>),
    LoadProposal(Seq<char>),
    LoadApproval(Seq<char>),
    SaveAttestation(Seq<char>, AttestationView),
    SaveProposal(Seq<char>, ProposalView),
    SaveApproval(Seq<char>, ReceiptView),
    ReadApprovalKey(Seq<char>),
    CreateApprovalKey(Seq<char>, Seq<u8>),
    AcquireLock(Seq<char>),
    PushExact(Seq<char>, Seq<char>, Seq<char>, Option<Seq<char>>),
}

pub ghost enum EventView {
    Done,
    Text(Seq<char>),
    MaybeText(Option<Seq<char>>),
    Paths(Seq<Seq<char>>),
    Flag(bool),
    Exit(bool, Seq<char>),
    Bytes(Seq<u8>),
    MaybeBytes(Option<Seq<u8>>),
    Attestation(AttestationView),
    Proposal(ProposalView),
    Receipt(ReceiptView),
    Refused,
    Failed(DeliveryFailure),
}

pub ghost enum StepView<V> {
    Perform(ActionView),
    Finish(Result<V, DeliveryFailure>),
}

impl View for DeliveryAction {
    type V = ActionView;

    open spec fn view(&self) -> ActionView {
        match self {
            DeliveryAction::StagedPaths => ActionView::StagedPaths,
            DeliveryAction::IsDirectory(p) => ActionView::IsDirectory(p@),
            DeliveryAction::StagePaths(ps) => ActionView::StagePaths(views_of(ps@)),
            DeliveryAction::HasStagedChanges => ActionView::HasStagedChanges,
            DeliveryAction::Commit(m) => ActionView::Commit(m@),
            DeliveryAction::Head => ActionView::Head,
            DeliveryAction::Parent => ActionView::Parent,
            DeliveryAction::CurrentBranch => ActionView::CurrentBranch,
            DeliveryAction::ChangedPaths => ActionView::ChangedPaths,
            DeliveryAction::RemoteUrl(r) => ActionView::RemoteUrl(r@),
            DeliveryAction::RemoteHead(r, b) => ActionView::RemoteHead(r@, b@),
            DeliveryAction::ValidateBranch(b) => ActionView::ValidateBranch(b@),
            DeliveryAction::IsAncestor(a, d) => ActionView::IsAncestor(a@, d@),
            DeliveryAction::RunCheck(p, a) => ActionView::RunCheck(p@, views_of(a@)),
            DeliveryAction::EncodeCommand(n, p, a) => ActionView::EncodeCommand(
                n@,
                p@,
                views_of(a@),
            ),
            DeliveryAction::EncodeIntent(i) => ActionView::EncodeIntent(i@),
            DeliveryAction::EncodeClaims(c) => ActionView::EncodeClaims(c@),
            DeliveryAction::LoadAttestation(p) => ActionView::LoadAttestation(p@),
            DeliveryAction::LoadProposal(p) => ActionView::LoadProposal(p@),
            DeliveryAction::LoadApproval(p) => ActionView::LoadApproval(p@),
            DeliveryAction::SaveAttestation(p, a) => ActionView::SaveAttestation(p@, a@),
            DeliveryAction::SaveProposal(p, a) => ActionView::SaveProposal(p@, a@),
            DeliveryAction::SaveApproval(p, a) => ActionView::SaveApproval(p@, a@),
            DeliveryAction::ReadApprovalKey(p) => ActionView::ReadApprovalKey(p@),
            DeliveryAction::CreateApprovalKey(p, k) => ActionView::CreateApprovalKey(p@, k@),
            DeliveryAction::AcquireLock(p) => ActionView::AcquireLock(p@),
            DeliveryAction::PushExact(r, b, s, e) => ActionView::PushExact(
                r@,
                b@,
                s@,
                opt_str_view(*e),
            ),
        }
    }
}

impl View for DeliveryEvent {
    type V = EventView;

    open spec fn view(&self) -> EventView {
        match self {
            DeliveryEvent::Done => EventView::Done,
            DeliveryEvent::Text(t) => EventView::Text(t@),
            DeliveryEvent::MaybeText(t) => EventView::MaybeText(opt_str_view(*t)),
            DeliveryEvent::Paths(ps) => EventView::Paths(views_of(ps@)),
            DeliveryEvent::Flag(b) => EventView::Flag(*b),
            DeliveryEvent::Exit(ok, s) => EventView::Exit(*ok, s@),
            DeliveryEvent::Bytes(b) => EventView::Bytes(b@),
            DeliveryEvent::MaybeBytes(b) => EventView::MaybeBytes(
                match b {
                    Some(v) => Some(v@),
                    None => None,
                },
            ),
            DeliveryEvent::Attestation(a) => EventView::Attestation(a@),
            DeliveryEvent::Proposal(p) => EventView::Proposal(p@),
            DeliveryEvent::Receipt(r) => EventView::Receipt(r@),
            DeliveryEvent::Refused => EventView::Refused,
            DeliveryEvent::Failed(e) => EventView::Failed(e@),
        }
    }
}

impl<T: View> View for DeliveryStep<T> {
    type V = StepView<T::V>;

    open spec fn view(&self) -> StepView<T::V> {
        match self {
            DeliveryStep::Perform(a) => StepView::Perform(a@),
            DeliveryStep::Finish(Ok(v)) => StepView::Finish(Ok(v@)),
            DeliveryStep::Finish(Err(e)) => StepView::Finish(Err(e@)),
        }
    }
}

/// The error a flow finishes with when an answer does not fit the action it asked for.
pub open spec fn unexpected_answer() -> DeliveryFailure {
    DeliveryFailure::State("unexpected answer to a delivery step"@)
}

pub fn unexpected() -> (e: DeliveryError)
    ensures
        e@ == unexpected_answer(),
{
    DeliveryError::state("unexpected answer to a delivery step")
}

/// The failure that an event reports, if it is not the answer that was asked for:
/// the action's own error, or the unexpected-answer error.
pub open spec fn failure_of(ev: EventView) -> DeliveryFailure {
    match ev {
        EventView::Failed(f) => f,
        _ => unexpected_answer(),
    }
}

/// Ends a flow on an event that is not the awaited answer.
pub fn fail_with<T>(ev: DeliveryEvent) -> (r: DeliveryStep<T>)
    ensures
        r matches DeliveryStep::Finish(Err(e)) && e@ == failure_of(ev@),
{
    match ev {
        DeliveryEvent::Failed(e) => DeliveryStep::Finish(Err(e)),
        _ => DeliveryStep::Finish(Err(unexpected())),
    }
}

} // verus!

//! The delivery service and its two local operations: inspecting the
//! working tree and committing an explicit allowlist of files.
use vstd::prelude::*;

use super::flow::{
    fail_with, failure_of, unexpected, unexpected_answer, ActionView, DeliveryAction,
    DeliveryEvent, DeliveryStep, EventView, StepView,
};
use super::git::{join_path, path_join, GitRepository};
use super::model::{opt_str_view, RepositoryInspection};
use super::service::{
    fingerprint_of, repository_fingerprint, repository_relative, validate_relative_path,
    DeliveryError, DeliveryFailure,
};
use super::store::DeliveryStore;
use crate::sorting::{same_elements, same_string_set, sorted_distinct, sorted_distinct_of, views_of};
use crate::text::{is_blank, push_str, string_of, trim_seq, trim_str};

verus! {

broadcast use vstd::string::group_string_axioms;

/// `format!("{:?}", list)` of a list of strings.
pub uninterp spec fn debug_list_text(items: Seq<Seq<char>>) -> Seq<char>;

/// `format!("{:?}", items)` for a list of strings (`Debug` of `Vec<String>`).
#[verifier::external_body]
pub(crate) fn debug_string_list(items: &Vec<String>) -> (r: String)
    ensures
        r@ == debug_list_text(views_of(items@)),
{
    format!("{:?}", items)
}

pub ghost struct InspectionView {
    pub repository_fingerprint: Seq<char>,
    pub branch: Option<Seq<char>>,
    pub head: Option<Seq<char>>,
    pub changed_paths: Seq<Seq<char>>,
}

impl View for RepositoryInspection {
    type V = InspectionView;

    open spec fn view(&self) -> InspectionView {
        InspectionView {
            repository_fingerprint: self.repository_fingerprint@,
            branch: opt_str_view(self.branch),
            head: opt_str_view(self.head),
            changed_paths: views_of(self.changed_paths@),
        }
    }
}

/// A repository and the record store under its git directory.
pub struct DeliveryService {
    pub repository: GitRepository,
    pub store: DeliveryStore,
}

impl DeliveryService {
    pub fn open(repository: GitRepository) -> (r: Self)
        ensures
            r.repository.root@ == repository.root@,
            r.repository.git_dir@ == repository.git_dir@,
            r.store.root@ == super::store::store_root(repository.git_dir@),
    {
        let store = DeliveryStore::new(repository.git_dir.as_str());
        DeliveryService { repository, store }
    }

    /// Starts an inspection: fingerprint, branch, HEAD (if any) and changed paths.
    pub fn inspect(&self) -> (r: (InspectFlow, DeliveryStep<RepositoryInspection>))
        ensures
            r.0.stage == InspectStage::Branch,
            r.0.fingerprint@ == fingerprint_of(self.repository.root@),
            r.1@ == StepView::<InspectionView>::Perform(ActionView::CurrentBranch),
    {
        let fingerprint = repository_fingerprint(&self.repository);
        (
            InspectFlow { fingerprint, branch: None, head: None, stage: InspectStage::Branch },
            DeliveryStep::Perform(DeliveryAction::CurrentBranch),
        )
    }

    /// Starts a commit of exactly `files`: refused without files or without a message.
    pub fn commit_allowlisted(&self, files: &Vec<String>, message: &str) -> (r: (
        CommitFlow,
        DeliveryStep<String>,
    ))
        ensures
            r.0.root@ == self.repository.root@,
            views_of(r.0.files@) == views_of(files@),
            r.0.message@ == message@,
            files@.len() == 0 ==> r.0.stage == CommitStage::Finished && r.1@ == StepView::<
                Seq<char>,
            >::Finish(Err(DeliveryFailure::Policy("at least one explicit file is required"@))),
            files@.len() > 0 && trim_seq(message@).len() == 0 ==> r.0.stage == CommitStage::Finished
                && r.1@ == StepView::<Seq<char>>::Finish(
                Err(DeliveryFailure::Policy("commit message is required"@)),
            ),
            files@.len() > 0 && trim_seq(message@).len() > 0 ==> r.0.stage
                == CommitStage::StagedBefore && r.1@ == StepView::<Seq<char>>::Perform(
                ActionView::StagedPaths,
            ),
    {
        let flow = CommitFlow {
            root: self.repository.root.clone(),
            files: files.clone(),
            message: string_of(message),
            stage: CommitStage::Finished,
        };
        if files.len() == 0 {
            return (
                flow,
                DeliveryStep::Finish(
                    Err(DeliveryError::policy("at least one explicit file is required")),
                ),
            );
        }
        if is_blank(message) {
            return (
                flow,
                DeliveryStep::Finish(Err(DeliveryError::policy("commit message is required"))),
            );
        }
        let mut flow = flow;
        flow.stage = CommitStage::StagedBefore;
        (flow, DeliveryStep::Perform(DeliveryAction::StagedPaths))
    }
}

#[derive(Debug, Clone, Copy, PartialEq, Eq, Structural)]
pub enum InspectStage {
    Branch,
    Head,
    Changed,
    Finished,
}

/// An inspection in progress.
pub struct InspectFlow {
    pub fingerprint: String,
    pub branch: Option<String>,
    pub head: Option<String>,
    pub stage: InspectStage,
}

impl InspectFlow {
    /// Branch errors end the inspection; a missing HEAD is reported as none;
    /// the changed paths complete it.
    pub fn resume(&mut self, ev: DeliveryEvent) -> (r: DeliveryStep<RepositoryInspection>)
        ensures
            final(self).fingerprint@ == old(self).fingerprint@,
            old(self).stage == InspectStage::Branch ==> match ev@ {
                EventView::MaybeText(b) => final(self).stage == InspectStage::Head && opt_str_view(
                    final(self).branch,
                ) == b && r@ == StepView::<InspectionView>::Perform(ActionView::Head),
                _ => final(self).stage == InspectStage::Finished && r@ == StepView::<
                    InspectionView,
                >::Finish(Err(failure_of(ev@))),
            },
            old(self).stage == InspectStage::Head ==> final(self).stage == InspectStage::Changed
                && opt_str_view(final(self).branch) == opt_str_view(old(self).branch) && opt_str_view(
                final(self).head,
            ) == (match ev@ {
                EventView::Text(h) => Some(h),
                _ => None,
            }) && r@ == StepView::<InspectionView>::Perform(ActionView::ChangedPaths),
            old(self).stage == InspectStage::Changed ==> final(self).stage == InspectStage::Finished
                && r@ == match ev@ {
                EventView::Paths(ps) => StepView::<InspectionView>::Finish(
                    Ok(
                        InspectionView {
                            repository_fingerprint: old(self).fingerprint@,
                            branch: opt_str_view(old(self).branch),
                            head: opt_str_view(old(self).head),
                            changed_paths: ps,
                        },
                    ),
                ),
                _ => StepView::<InspectionView>::Finish(Err(failure_of(ev@))),
            },
            old(self).stage == InspectStage::Finished ==> final(self).stage
                == InspectStage::Finished && r@ == StepView::<InspectionView>::Finish(
                Err(unexpected_answer()),
            ),
    {
        match self.stage {
            InspectStage::Branch => {
                match ev {
                    DeliveryEvent::MaybeText(b) => {
                        self.branch = b;
                        self.stage = InspectStage::Head;
                        DeliveryStep::Perform(DeliveryAction::Head)
                    },
                    other => {
                        self.stage = InspectStage::Finished;
                        fail_with(other)
                    },
                }
            },
            InspectStage::Head => {
                self.head = match ev {
                    DeliveryEvent::Text(h) => Some(h),
                    _ => None,
                };
                self.stage = InspectStage::Changed;
                DeliveryStep::Perform(DeliveryAction::ChangedPaths)
            },
            InspectStage::Changed => {
                self.stage = InspectStage::Finished;
                match ev {
                    DeliveryEvent::Paths(ps) => {
                        let inspection = RepositoryInspection {
                            repository_fingerprint: self.fingerprint.clone(),
                            branch: super::model::clone_opt_string(&self.branch),
                            head: super::model::clone_opt_string(&self.head),
                            changed_paths: ps,
                        };
                        DeliveryStep::Finish(Ok(inspection))
                    },
                    other => fail_with(other),
                }
            },
            InspectStage::Finished => DeliveryStep::Finish(Err(unexpected())),
        }
    }
}

#[derive(Debug, Clone, Copy, PartialEq, Eq, Structural)]
pub enum CommitStage {
    StagedBefore,
    IsDirectory(usize),
    Staging,
    StagedCheck,
    StagedAfter,
    Committing,
    Finished,
}

/// An allowlisted commit in progress.
pub struct CommitFlow {
    pub root: String,
    pub files: Vec<String>,
    pub message: String,
    pub stage: CommitStage,
}

/// Checking file `k`: its path policy, then whether it is a directory.
pub open spec fn commit_file_step(root: Seq<char>, files: Seq<Seq<char>>, k: int) -> (
    CommitStage,
    StepView<Seq<char>>,
) {
    if repository_relative(files[k]) {
        (
            CommitStage::IsDirectory(k as usize),
            StepView::Perform(ActionView::IsDirectory(path_join(root, files[k]))),
        )
    } else {
        (
            CommitStage::Finished,
            StepView::Finish(
                Err(
                    DeliveryFailure::Policy(
                        "file path must be repository-relative without traversal: "@ + files[k],
                    ),
                ),
            ),
        )
    }
}

/// The commit flow's transitions.
pub open spec fn commit_next(
    root: Seq<char>,
    files: Seq<Seq<char>>,
    message: Seq<char>,
    stage: CommitStage,
    ev: EventView,
) -> (CommitStage, StepView<Seq<char>>) {
    let fail = (CommitStage::Finished, StepView::Finish(Err(failure_of(ev))));
    match stage {
        CommitStage::StagedBefore => match ev {
            EventView::Paths(p) => if p.len() > 0 {
                (
                    CommitStage::Finished,
                    StepView::Finish(
                        Err(
                            DeliveryFailure::Policy(
                                "repository already contains staged changes; refusing to mix changesets"@,
                            ),
                        ),
                    ),
                )
            } else {
                commit_file_step(root, files, 0)
            },
            _ => fail,
        },
        CommitStage::IsDirectory(k) => match ev {
            EventView::Flag(d) => if d {
                (
                    CommitStage::Finished,
                    StepView::Finish(
                        Err(
                            DeliveryFailure::Policy(
                                "directory staging is forbidden; list files explicitly: "@
                                    + files[k as int],
                            ),
                        ),
                    ),
                )
            } else if k + 1 < files.len() {
                commit_file_step(root, files, k + 1)
            } else {
                (CommitStage::Staging, StepView::Perform(ActionView::StagePaths(files)))
            },
            _ => fail,
        },
        CommitStage::Staging => match ev {
            EventView::Done => (CommitStage::StagedCheck, StepView::Perform(ActionView::HasStagedChanges)),
            _ => fail,
        },
        CommitStage::StagedCheck => match ev {
            EventView::Flag(b) => if !b {
                (
                    CommitStage::Finished,
                    StepView::Finish(
                        Err(DeliveryFailure::State("allowlisted files produced no staged changes"@)),
                    ),
                )
            } else {
                (CommitStage::StagedAfter, StepView::Perform(ActionView::StagedPaths))
            },
            _ => fail,
        },
        CommitStage::StagedAfter => match ev {
            EventView::Paths(p) => if !same_elements(p, files) {
                (
                    CommitStage::Finished,
                    StepView::Finish(
                        Err(
                            DeliveryFailure::Policy(
                                "staged paths do not exactly match allowlist: staged="@
                                    + debug_list_text(sorted_distinct(p)),
                            ),
                        ),
                    ),
                )
            } else {
                (CommitStage::Committing, StepView::Perform(ActionView::Commit(trim_seq(message))))
            },
            _ => fail,
        },
        CommitStage::Committing => match ev {
            EventView::Text(h) => (CommitStage::Finished, StepView::Finish(Ok(h))),
            _ => fail,
        },
        CommitStage::Finished => (CommitStage::Finished, StepView::Finish(Err(unexpected_answer()))),
    }
}

/// The stage of a commit flow is consistent with its file list.
pub open spec fn commit_stage_ok(stage: CommitStage, n: int) -> bool {
    match stage {
        CommitStage::IsDirectory(k) => k < n,
        CommitStage::Finished => true,
        _ => n > 0,
    }
}

impl CommitFlow {
    fn file_step(&self, k: usize) -> (r: (CommitStage, DeliveryStep<String>))
        requires
            k < self.files@.len(),
        ensures
            (r.0, r.1@) == commit_file_step(self.root@, views_of(self.files@), k as int),
    {
        let file = self.files[k].as_str();
        match validate_relative_path(file) {
            Ok(()) => (
                CommitStage::IsDirectory(k),
                DeliveryStep::Perform(DeliveryAction::IsDirectory(join_path(self.root.as_str(), file))),
            ),
            Err(e) => (CommitStage::Finished, DeliveryStep::Finish(Err(e))),
        }
    }

    /// Advances the commit: nothing may be staged beforehand; every file must be
    /// repository-relative and not a directory; staging must change something;
    /// the staged set must equal the allowlist; the message is committed trimmed.
    pub fn resume(&mut self, ev: DeliveryEvent) -> (r: DeliveryStep<String>)
        requires
            commit_stage_ok(old(self).stage, old(self).files@.len() as int),
        ensures
            final(self).root@ == old(self).root@,
            views_of(final(self).files@) == views_of(old(self).files@),
            final(self).message@ == old(self).message@,
            commit_stage_ok(final(self).stage, final(self).files@.len() as int),
            (final(self).stage, r@) == commit_next(
                old(self).root@,
                views_of(old(self).files@),
                old(self).message@,
                old(self).stage,
                ev@,
            ),
    {
        let ghost files = views_of(self.files@);
        let (stage, step) = match self.stage {
            CommitStage::StagedBefore => match ev {
                DeliveryEvent::Paths(p) => {
                    if p.len() > 0 {
                        (
                            CommitStage::Finished,
                            DeliveryStep::Finish(
                                Err(
                                    DeliveryError::policy(
                                        "repository already contains staged changes; refusing to mix changesets",
                                    ),
                                ),
                            ),
                        )
                    } else {
                        if self.files.len() == 0 {
                            (CommitStage::Finished, DeliveryStep::Finish(Err(unexpected())))
                        } else {
                            self.file_step(0)
                        }
                    }
                },
                other => (CommitStage::Finished, fail_with(other)),
            },
            CommitStage::IsDirectory(k) => match ev {
                DeliveryEvent::Flag(d) => {
                    if d {
                        let mut m = string_of("directory staging is forbidden; list files explicitly: ");
                        push_str(&mut m, self.files[k].as_str());
                        (CommitStage::Finished, DeliveryStep::Finish(Err(DeliveryError::Policy(m))))
                    } else if k < self.files.len() - 1 {
                        self.file_step(k + 1)
                    } else {
                        (
                            CommitStage::Staging,
                            DeliveryStep::Perform(DeliveryAction::StagePaths(self.files.clone())),
                        )
                    }
                },
                other => (CommitStage::Finished, fail_with(other)),
            },
            CommitStage::Staging => match ev {
                DeliveryEvent::Done => (
                    CommitStage::StagedCheck,
                    DeliveryStep::Perform(DeliveryAction::HasStagedChanges),
                ),
                other => (CommitStage::Finished, fail_with(other)),
            },
            CommitStage::StagedCheck => match ev {
                DeliveryEvent::Flag(b) => {
                    if !b {
                        (
                            CommitStage::Finished,
                            DeliveryStep::Finish(
                                Err(DeliveryError::state("allowlisted files produced no staged changes")),
                            ),
                        )
                    } else {
                        (CommitStage::StagedAfter, DeliveryStep::Perform(DeliveryAction::StagedPaths))
                    }
                },
                other => (CommitStage::Finished, fail_with(other)),
            },
            CommitStage::StagedAfter => match ev {
                DeliveryEvent::Paths(p) => {
                    if !same_string_set(&p, &self.files) {
                        let staged = sorted_distinct_of(&p);
                        let mut m = string_of("staged paths do not exactly match allowlist: staged=");
                        let listing = debug_string_list(&staged);
                        push_str(&mut m, listing.as_str());
                        (CommitStage::Finished, DeliveryStep::Finish(Err(DeliveryError::Policy(m))))
                    } else {
                        (
                            CommitStage::Committing,
                            DeliveryStep::Perform(
                                DeliveryAction::Commit(trim_str(self.message.as_str())),
                            ),
                        )
                    }
                },
                other => (CommitStage::Finished, fail_with(other)),
            },
            CommitStage::Committing => match ev {
                DeliveryEvent::Text(h) => (CommitStage::Finished, DeliveryStep::Finish(Ok(h))),
                other => (CommitStage::Finished, fail_with(other)),
            },
            CommitStage::Finished => (CommitStage::Finished, DeliveryStep::Finish(Err(unexpected()))),
        };
        self.stage = stage;
        step
    }
}

/// A commit is only ever requested once the staged paths are exactly the
/// allowlist (as sets), and with the trimmed message; staging is only ever
/// requested for the whole allowlist once its last file was found not to
/// be a directory.
pub proof fn law_commit_only_allowlisted(
    root: Seq<char>,
    files: Seq<Seq<char>>,
    message: Seq<char>,
    stage: CommitStage,
    ev: EventView,
)
    requires
        commit_stage_ok(stage, files.len() as int),
    ensures
        commit_next(root, files, message, stage, ev).1 matches StepView::Perform(ActionView::Commit(m)) ==> (
        stage == CommitStage::StagedAfter && (ev matches EventView::Paths(p) && same_elements(p, files))
            && m == trim_seq(message)),
        commit_next(root, files, message, stage, ev).1 matches StepView::Perform(ActionView::StagePaths(fs)) ==> (
        fs == files && ev == EventView::Flag(false) && (stage matches CommitStage::IsDirectory(k) && k + 1
            == files.len())),
{
}

} // verus!

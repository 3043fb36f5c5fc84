//! Merging one candidate: every Git effect in its order, each behind a fresh
//! check that the merge still owns its goal.
use vstd::prelude::*;

use crate::clock::current_time;
use crate::errors::{RefineError, RefineResult};
use crate::json::Json;
use crate::merging::{
    merge_failure, required_string, unreadable_evidence_error, EvidenceRead, FileMergerService,
    MergeResult, RoundIntegration,
};
use crate::model::GoalStatus;
use crate::text::{cat3, cat5, decimal_text, text_eq};

verus! {

/// Where a merge stands: the effect that comes next.
#[derive(Clone, Copy, Debug, PartialEq, Eq, Structural)]
pub enum IntegrationStage {
    FenceBeforeRead,
    ReadGoal,
    FenceBeforeProof,
    FetchProven,
    ResolveProven,
    ProveEvidence,
    FenceAfterProof,
    FindRemote,
    FenceBeforeBranchFetch,
    FetchBranch,
    FenceBeforeBranch,
    EnsureBranch,
    ResolvePublished,
    FenceBeforeTargetFetch,
    FetchTarget,
    ResolvePublishedTarget,
    ProvePublished,
    FenceBeforeRecoverySwitch,
    SwitchForRecovery,
    FenceBeforeFastForward,
    FastForward,
    ResolveCandidate,
    ProveBase,
    ResolveStaleTarget,
    ProveStaleTarget,
    FenceBeforeSwitch,
    Switch,
    ResolveRemoteTarget,
    ResolveLocalTarget,
    ProveSynchronized,
    FenceBeforeSynchronization,
    Synchronize,
    ResolveCurrentTarget,
    ProveMerged,
    FenceBeforeMerge,
    Merge,
    ResolveMerged,
    FenceBeforePush,
    Push,
    FenceBeforeEvidence,
    PersistEvidence,
    AdvanceFence,
    Recover,
    Integrated,
    Failed,
}

/// The goal as it was read under the fence.
pub struct GoalRead {
    pub node_id: Option<String>,
    pub status: GoalStatus,
    pub detail: Json,
    pub evidence: EvidenceRead,
}

/// What came of the effect of a stage.
pub enum IntegrationEvent {
    Done,
    Answer(bool),
    Commit(String),
    Goal(GoalRead),
    Merged(MergeResult),
    Persisted(u64),
    Failed(RefineError),
}

/// One merge of one candidate.
pub struct IntegrationRun {
    pub goal_id: String,
    pub round_idx: usize,
    pub node_id: String,
    pub branch: String,
    pub candidate: String,
    pub remote: String,
    pub target_branch: String,
    pub base_commit: String,
    pub remote_configured: bool,
    pub remote_target: String,
    pub commit: String,
    pub merge: MergeResult,
    pub evidence: Option<RoundIntegration>,
    pub revision: u64,
    pub stage: IntegrationStage,
    pub error: Option<RefineError>,
}

/// A merge by its contents.
pub ghost struct RunView {
    pub goal_id: Seq<char>,
    pub round_idx: usize,
    pub node_id: Seq<char>,
    pub branch: Seq<char>,
    pub candidate: Seq<char>,
    pub remote: Seq<char>,
    pub target_branch: Seq<char>,
    pub base_commit: Seq<char>,
    pub remote_configured: bool,
    /// The commit that the target branch has at its remote.
    pub remote_target: Seq<char>,
    /// The commit that was resolved last.
    pub commit: Seq<char>,
    pub merge: crate::merging::MergeView,
    pub evidence: Option<crate::merging::IntegrationView>,
    pub revision: u64,
    pub stage: IntegrationStage,
    pub error: Option<crate::errors::ErrorView>,
}

/// The view of optional evidence.
pub open spec fn evidence_view(e: Option<RoundIntegration>) -> Option<
    crate::merging::IntegrationView,
> {
    match e {
        Some(e) => Some(e@),
        None => None,
    }
}

impl View for IntegrationRun {
    type V = RunView;

    open spec fn view(&self) -> RunView {
        RunView {
            goal_id: self.goal_id@,
            round_idx: self.round_idx,
            node_id: self.node_id@,
            branch: self.branch@,
            candidate: self.candidate@,
            remote: self.remote@,
            target_branch: self.target_branch@,
            base_commit: self.base_commit@,
            remote_configured: self.remote_configured,
            remote_target: self.remote_target@,
            commit: self.commit@,
            merge: self.merge@,
            evidence: evidence_view(self.evidence),
            revision: self.revision,
            stage: self.stage,
            error: crate::errors::error_view(self.error),
        }
    }
}

/// What a merge does next.
#[derive(Debug)]
pub enum GitAction {
    VerifyFence,
    ReadGoal,
    FindRemote(String),
    Fetch(String, String),
    EnsureBranch(String, String),
    Resolve(String),
    IsAncestor(String, String),
    Switch(String),
    FastForward(String, String),
    Merge(String),
    Push(String, String),
    PersistEvidence,
    AdvanceFence(u64),
    Recover,
    Finished,
}

/// An action by its contents.
pub ghost enum ActionView {
    VerifyFence,
    ReadGoal,
    FindRemote(Seq<char>),
    Fetch(Seq<char>, Seq<char>),
    EnsureBranch(Seq<char>, Seq<char>),
    Resolve(Seq<char>),
    IsAncestor(Seq<char>, Seq<char>),
    Switch(Seq<char>),
    FastForward(Seq<char>, Seq<char>),
    Merge(Seq<char>),
    Push(Seq<char>, Seq<char>),
    PersistEvidence,
    AdvanceFence(u64),
    Recover,
    Finished,
}

impl View for GitAction {
    type V = ActionView;

    open spec fn view(&self) -> ActionView {
        match self {
            GitAction::VerifyFence => ActionView::VerifyFence,
            GitAction::ReadGoal => ActionView::ReadGoal,
            GitAction::FindRemote(r) => ActionView::FindRemote(r@),
            GitAction::Fetch(r, b) => ActionView::Fetch(r@, b@),
            GitAction::EnsureBranch(r, b) => ActionView::EnsureBranch(r@, b@),
            GitAction::Resolve(c) => ActionView::Resolve(c@),
            GitAction::IsAncestor(a, b) => ActionView::IsAncestor(a@, b@),
            GitAction::Switch(b) => ActionView::Switch(b@),
            GitAction::FastForward(r, b) => ActionView::FastForward(r@, b@),
            GitAction::Merge(c) => ActionView::Merge(c@),
            GitAction::Push(r, b) => ActionView::Push(r@, b@),
            GitAction::PersistEvidence => ActionView::PersistEvidence,
            GitAction::AdvanceFence(n) => ActionView::AdvanceFence(*n),
            GitAction::Recover => ActionView::Recover,
            GitAction::Finished => ActionView::Finished,
        }
    }
}

/// The remote-tracking name of a branch.
pub open spec fn tracking(remote: Seq<char>, branch: Seq<char>) -> Seq<char> {
    remote + "/"@ + branch
}

/// The action of each stage.
pub open spec fn action_of(run: RunView) -> ActionView {
    let proven = run.evidence;
    match run.stage {
        IntegrationStage::FenceBeforeRead => ActionView::VerifyFence,
        IntegrationStage::ReadGoal => ActionView::ReadGoal,
        IntegrationStage::FenceBeforeProof => ActionView::VerifyFence,
        IntegrationStage::FetchProven => match proven {
            Some(e) => ActionView::Fetch(e.remote, e.target_branch),
            None => ActionView::Finished,
        },
        IntegrationStage::ResolveProven => match proven {
            Some(e) => ActionView::Resolve(
                if e.pushed { tracking(e.remote, e.target_branch) } else { e.target_branch },
            ),
            None => ActionView::Finished,
        },
        IntegrationStage::ProveEvidence => match proven {
            Some(e) => ActionView::IsAncestor(e.candidate_commit, run.commit),
            None => ActionView::Finished,
        },
        IntegrationStage::FenceAfterProof => ActionView::VerifyFence,
        IntegrationStage::FindRemote => ActionView::FindRemote(run.remote),
        IntegrationStage::FenceBeforeBranchFetch => ActionView::VerifyFence,
        IntegrationStage::FetchBranch => ActionView::Fetch(run.remote, run.branch),
        IntegrationStage::FenceBeforeBranch => ActionView::VerifyFence,
        IntegrationStage::EnsureBranch => ActionView::EnsureBranch(run.remote, run.branch),
        IntegrationStage::ResolvePublished => ActionView::Resolve(tracking(run.remote, run.branch)),
        IntegrationStage::FenceBeforeTargetFetch => ActionView::VerifyFence,
        IntegrationStage::FetchTarget => ActionView::Fetch(run.remote, run.target_branch),
        IntegrationStage::ResolvePublishedTarget => ActionView::Resolve(
            tracking(run.remote, run.target_branch),
        ),
        IntegrationStage::ProvePublished => ActionView::IsAncestor(run.candidate, run.commit),
        IntegrationStage::FenceBeforeRecoverySwitch => ActionView::VerifyFence,
        IntegrationStage::SwitchForRecovery => ActionView::Switch(run.target_branch),
        IntegrationStage::FenceBeforeFastForward => ActionView::VerifyFence,
        IntegrationStage::FastForward => ActionView::FastForward(run.remote, run.target_branch),
        IntegrationStage::ResolveCandidate => ActionView::Resolve(run.candidate),
        IntegrationStage::ProveBase => ActionView::IsAncestor(run.base_commit, run.candidate),
        IntegrationStage::ResolveStaleTarget => ActionView::Resolve(run.target_branch),
        IntegrationStage::ProveStaleTarget => ActionView::IsAncestor(run.candidate, run.commit),
        IntegrationStage::FenceBeforeSwitch => ActionView::VerifyFence,
        IntegrationStage::Switch => ActionView::Switch(run.target_branch),
        IntegrationStage::ResolveRemoteTarget => ActionView::Resolve(
            tracking(run.remote, run.target_branch),
        ),
        IntegrationStage::ResolveLocalTarget => ActionView::Resolve(run.target_branch),
        IntegrationStage::ProveSynchronized => ActionView::IsAncestor(
            run.remote_target,
            run.commit,
        ),
        IntegrationStage::FenceBeforeSynchronization => ActionView::VerifyFence,
        IntegrationStage::Synchronize => ActionView::Merge(run.remote_target),
        IntegrationStage::ResolveCurrentTarget => ActionView::Resolve(run.target_branch),
        IntegrationStage::ProveMerged => ActionView::IsAncestor(run.candidate, run.commit),
        IntegrationStage::FenceBeforeMerge => ActionView::VerifyFence,
        IntegrationStage::Merge => ActionView::Merge(run.candidate),
        IntegrationStage::ResolveMerged => ActionView::Resolve(run.target_branch),
        IntegrationStage::FenceBeforePush => ActionView::VerifyFence,
        IntegrationStage::Push => ActionView::Push(run.remote, run.target_branch),
        IntegrationStage::FenceBeforeEvidence => ActionView::VerifyFence,
        IntegrationStage::PersistEvidence => ActionView::PersistEvidence,
        IntegrationStage::AdvanceFence => ActionView::AdvanceFence(run.revision),
        IntegrationStage::Recover => ActionView::Recover,
        IntegrationStage::Integrated => ActionView::Finished,
        IntegrationStage::Failed => ActionView::Finished,
    }
}

/// The stage behind each fence.
pub open spec fn behind_fence(run: RunView) -> IntegrationStage {
    match run.stage {
        IntegrationStage::FenceBeforeRead => IntegrationStage::ReadGoal,
        IntegrationStage::FenceBeforeProof => match run.evidence {
            Some(e) => if e.pushed {
                IntegrationStage::FetchProven
            } else {
                IntegrationStage::ResolveProven
            },
            None => IntegrationStage::ResolveProven,
        },
        IntegrationStage::FenceAfterProof => IntegrationStage::Integrated,
        IntegrationStage::FenceBeforeBranchFetch => IntegrationStage::FetchBranch,
        IntegrationStage::FenceBeforeBranch => IntegrationStage::EnsureBranch,
        IntegrationStage::FenceBeforeTargetFetch => IntegrationStage::FetchTarget,
        IntegrationStage::FenceBeforeRecoverySwitch => IntegrationStage::SwitchForRecovery,
        IntegrationStage::FenceBeforeFastForward => IntegrationStage::FastForward,
        IntegrationStage::FenceBeforeSwitch => IntegrationStage::Switch,
        IntegrationStage::FenceBeforeSynchronization => IntegrationStage::Synchronize,
        IntegrationStage::FenceBeforeMerge => IntegrationStage::Merge,
        IntegrationStage::FenceBeforePush => IntegrationStage::Push,
        IntegrationStage::FenceBeforeEvidence => IntegrationStage::PersistEvidence,
        other => other,
    }
}

/// The stages at which the fence is verified.
pub open spec fn is_fence(stage: IntegrationStage) -> bool {
    match stage {
        IntegrationStage::FenceBeforeRead => true,
        IntegrationStage::FenceBeforeProof => true,
        IntegrationStage::FenceAfterProof => true,
        IntegrationStage::FenceBeforeBranchFetch => true,
        IntegrationStage::FenceBeforeBranch => true,
        IntegrationStage::FenceBeforeTargetFetch => true,
        IntegrationStage::FenceBeforeRecoverySwitch => true,
        IntegrationStage::FenceBeforeFastForward => true,
        IntegrationStage::FenceBeforeSwitch => true,
        IntegrationStage::FenceBeforeSynchronization => true,
        IntegrationStage::FenceBeforeMerge => true,
        IntegrationStage::FenceBeforePush => true,
        IntegrationStage::FenceBeforeEvidence => true,
        _ => false,
    }
}

/// The run at another stage.
pub open spec fn at(run: RunView, stage: IntegrationStage) -> RunView {
    RunView { stage, ..run }
}

/// The run that failed with an error.
pub open spec fn failed(run: RunView, error: crate::errors::ErrorView) -> RunView {
    RunView { stage: IntegrationStage::Failed, error: Some(error), ..run }
}

/// The refusal for a recorded reference that the worker did not expect.
pub open spec fn unexpected_ref(
    goal_id: Seq<char>,
    label: Seq<char>,
    recorded: Seq<char>,
    expected: Seq<char>,
) -> crate::errors::ErrorView {
    crate::errors::ErrorView::Conflict(
        "Goal "@ + goal_id + " "@ + label
            + " changed before Ready Merge integration: recorded "@ + recorded
            + ", worker expected "@ + expected,
    )
}

/// The target branch and base commit of a goal that may be merged, or why it
/// may not.
pub open spec fn merge_inputs(
    run: RunView,
    node_id: Option<Seq<char>>,
    detail: crate::json::JsonView,
) -> Result<(Seq<char>, Seq<char>), crate::errors::ErrorView> {
    let goal_node = match node_id {
        Some(n) => n,
        None => "default"@,
    };
    let rounds = crate::json::elements(crate::json::field(detail, "rounds"@));
    if goal_node != run.node_id {
        Err(
            crate::errors::ErrorView::Conflict(
                "Goal "@ + run.goal_id + " is owned by node "@ + goal_node
                    + ", not integration worker node "@ + run.node_id,
            ),
        )
    } else if rounds is None {
        Err(crate::errors::ErrorView::Conflict("Goal "@ + run.goal_id + " has no rounds"@))
    } else if run.round_idx + 1 != rounds->0.len() {
        Err(
            crate::errors::ErrorView::Conflict(
                "Goal "@ + run.goal_id + " candidate round changed from "@ + crate::text::decimal(
                    (run.round_idx + 1) as nat,
                ) + " to "@ + crate::text::decimal(rounds->0.len()) + " before integration"@,
            ),
        )
    } else {
        let round = rounds->0[run.round_idx as int];
        match crate::merging::required_text(detail, "branch_name"@, run.goal_id) {
            Err(e) => Err(e),
            Ok(branch) => match crate::merging::required_text(
                detail,
                "target_branch"@,
                run.goal_id,
            ) {
                Err(e) => Err(e),
                Ok(target) => match crate::merging::required_text(
                    detail,
                    "base_commit"@,
                    run.goal_id,
                ) {
                    Err(e) => Err(e),
                    Ok(base) => match crate::merging::required_text(
                        detail,
                        "candidate_commit"@,
                        run.goal_id,
                    ) {
                        Err(e) => Err(e),
                        Ok(candidate) => match crate::merging::required_text(
                            round,
                            "workflow_git_remote"@,
                            run.goal_id,
                        ) {
                            Err(e) => Err(e),
                            Ok(remote) => if branch != run.branch {
                                Err(unexpected_ref(run.goal_id, "branch"@, branch, run.branch))
                            } else if candidate != run.candidate {
                                Err(
                                    unexpected_ref(
                                        run.goal_id,
                                        "candidate"@,
                                        candidate,
                                        run.candidate,
                                    ),
                                )
                            } else if remote != run.remote {
                                Err(unexpected_ref(run.goal_id, "remote"@, remote, run.remote))
                            } else {
                                Ok((target, base))
                            },
                        },
                    },
                },
            },
        }
    }
}

/// The run after the goal was read.
pub open spec fn after_read(run: RunView, read: GoalRead) -> RunView {
    match merge_inputs(run, crate::text::maybe_view(read.node_id), read.detail@) {
        Err(e) => failed(run, e),
        Ok((target, base)) => {
            let run = RunView { target_branch: target, base_commit: base, ..run };
            match read.evidence {
                EvidenceRead::Unreadable(text) => failed(
                    run,
                    crate::merging::unreadable_evidence(text@),
                ),
                EvidenceRead::Recorded(e) => RunView {
                    evidence: Some(e@),
                    stage: IntegrationStage::FenceBeforeProof,
                    ..run
                },
                EvidenceRead::Absent => if read.status != GoalStatus::ReadyMerge {
                    failed(
                        run,
                        crate::errors::ErrorView::Conflict(
                            "Goal "@ + run.goal_id + " cannot integrate from "@
                                + crate::model::status_name(read.status)
                                + "; expected ready-merge"@,
                        ),
                    )
                } else {
                    at(run, IntegrationStage::FindRemote)
                },
            }
        },
    }
}

/// A merge that needed none.
pub open spec fn nothing_to_merge(message: Seq<char>) -> crate::merging::MergeView {
    crate::merging::MergeView { ok: true, conflicts: Seq::empty(), message: Some(message) }
}

/// The evidence of the run's merge.
pub open spec fn new_evidence(run: RunView, pushed: bool, now: Seq<char>) -> crate::merging::IntegrationView {
    crate::merging::IntegrationView {
        candidate_commit: run.candidate,
        target_branch: run.target_branch,
        target_commit: run.commit,
        remote: run.remote,
        pushed,
        integrated_at: now,
        merge: run.merge,
    }
}

/// The run after a commit was resolved.
pub open spec fn after_commit(run: RunView, commit: Seq<char>, now: Seq<char>) -> RunView {
    let kept = RunView { commit, ..run };
    match run.stage {
        IntegrationStage::ResolveProven => at(kept, IntegrationStage::ProveEvidence),
        IntegrationStage::ResolvePublished => if commit != run.candidate {
            failed(
                run,
                crate::errors::ErrorView::Conflict(
                    "Published candidate "@ + run.branch + " is "@ + commit + ", expected "@
                        + run.candidate,
                ),
            )
        } else {
            at(run, IntegrationStage::FenceBeforeTargetFetch)
        },
        IntegrationStage::ResolvePublishedTarget => at(kept, IntegrationStage::ProvePublished),
        IntegrationStage::ResolveCandidate => if commit != run.candidate {
            failed(
                run,
                crate::errors::ErrorView::Conflict(
                    "Candidate commit "@ + run.candidate + " resolved unexpectedly to "@ + commit,
                ),
            )
        } else {
            at(run, IntegrationStage::ProveBase)
        },
        IntegrationStage::ResolveStaleTarget => at(kept, IntegrationStage::ProveStaleTarget),
        IntegrationStage::ResolveRemoteTarget => RunView {
            remote_target: commit,
            stage: IntegrationStage::ResolveLocalTarget,
            ..run
        },
        IntegrationStage::ResolveLocalTarget => if commit == run.remote_target {
            at(run, IntegrationStage::ResolveCurrentTarget)
        } else {
            at(kept, IntegrationStage::ProveSynchronized)
        },
        IntegrationStage::ResolveCurrentTarget => at(kept, IntegrationStage::ProveMerged),
        IntegrationStage::ResolveMerged => if run.remote_configured {
            at(kept, IntegrationStage::FenceBeforePush)
        } else {
            RunView {
                evidence: Some(new_evidence(kept, false, now)),
                stage: IntegrationStage::FenceBeforeEvidence,
                ..kept
            }
        },
        _ => run,
    }
}

/// The run after a question was answered.
pub open spec fn after_answer(run: RunView, yes: bool) -> RunView {
    match run.stage {
        IntegrationStage::ProveEvidence => if yes {
            at(run, IntegrationStage::FenceAfterProof)
        } else {
            match run.evidence {
                Some(e) => failed(
                    run,
                    crate::errors::ErrorView::Conflict(
                        "Ready Merge evidence says candidate "@ + e.candidate_commit
                            + " was integrated, but it is absent from "@ + e.target_branch,
                    ),
                ),
                None => run,
            }
        },
        IntegrationStage::FindRemote => RunView {
            remote_configured: yes,
            stage: if yes {
                IntegrationStage::FenceBeforeBranchFetch
            } else {
                IntegrationStage::ResolveCandidate
            },
            ..run
        },
        IntegrationStage::ProvePublished => at(
            run,
            if yes {
                IntegrationStage::FenceBeforeRecoverySwitch
            } else {
                IntegrationStage::ResolveCandidate
            },
        ),
        IntegrationStage::ProveBase => at(
            run,
            if yes {
                IntegrationStage::FenceBeforeSwitch
            } else {
                IntegrationStage::ResolveStaleTarget
            },
        ),
        IntegrationStage::ProveStaleTarget => if yes {
            at(run, IntegrationStage::FenceBeforeSwitch)
        } else {
            failed(
                run,
                crate::errors::ErrorView::StaleCandidate {
                    candidate_commit: run.candidate,
                    recorded_base: run.base_commit,
                    target_branch: run.target_branch,
                    target_commit: run.commit,
                },
            )
        },
        IntegrationStage::ProveSynchronized => at(
            run,
            if yes {
                IntegrationStage::ResolveCurrentTarget
            } else {
                IntegrationStage::FenceBeforeSynchronization
            },
        ),
        IntegrationStage::ProveMerged => if yes {
            RunView {
                merge: nothing_to_merge(
                    "Exact candidate was already present in the local target branch"@,
                ),
                stage: IntegrationStage::ResolveMerged,
                ..run
            }
        } else {
            at(run, IntegrationStage::FenceBeforeMerge)
        },
        _ => run,
    }
}

/// The run after an effect without an answer was done.
pub open spec fn after_done(run: RunView, now: Seq<char>) -> RunView {
    if is_fence(run.stage) {
        at(run, behind_fence(run))
    } else {
        match run.stage {
            IntegrationStage::FetchProven => at(run, IntegrationStage::ResolveProven),
            IntegrationStage::FetchBranch => at(run, IntegrationStage::FenceBeforeBranch),
            IntegrationStage::EnsureBranch => at(run, IntegrationStage::ResolvePublished),
            IntegrationStage::FetchTarget => at(run, IntegrationStage::ResolvePublishedTarget),
            IntegrationStage::SwitchForRecovery => at(
                run,
                IntegrationStage::FenceBeforeFastForward,
            ),
            IntegrationStage::FastForward => {
                let merged = RunView {
                    merge: nothing_to_merge(
                        "Recovered successful Ready Merge integration from the published target branch"@,
                    ),
                    ..run
                };
                RunView {
                    evidence: Some(new_evidence(merged, true, now)),
                    stage: IntegrationStage::FenceBeforeEvidence,
                    ..merged
                }
            },
            IntegrationStage::Switch => at(
                run,
                if run.remote_configured {
                    IntegrationStage::ResolveRemoteTarget
                } else {
                    IntegrationStage::ResolveCurrentTarget
                },
            ),
            IntegrationStage::Push => RunView {
                evidence: Some(new_evidence(run, true, now)),
                stage: IntegrationStage::FenceBeforeEvidence,
                ..run
            },
            IntegrationStage::AdvanceFence => at(run, IntegrationStage::Integrated),
            _ => run,
        }
    }
}

/// The run after Git was asked to merge.
pub open spec fn after_merge(run: RunView, merge: crate::merging::MergeView) -> RunView {
    match run.stage {
        IntegrationStage::Synchronize => if merge.ok {
            at(run, IntegrationStage::ResolveCurrentTarget)
        } else {
            RunView {
                stage: IntegrationStage::Recover,
                error: Some(
                    crate::merging::failed_merge("target synchronization"@, merge.message),
                ),
                ..run
            }
        },
        IntegrationStage::Merge => if merge.ok {
            RunView { merge, stage: IntegrationStage::ResolveMerged, ..run }
        } else {
            RunView {
                stage: IntegrationStage::Recover,
                error: Some(
                    crate::merging::failed_merge("candidate integration"@, merge.message),
                ),
                ..run
            }
        },
        _ => run,
    }
}

/// The run after an event; an event that does not belong to the stage changes
/// nothing.
pub open spec fn next_run(run: RunView, event: IntegrationEvent, now: Seq<char>) -> RunView {
    match run.stage {
        IntegrationStage::Integrated => run,
        IntegrationStage::Failed => run,
        IntegrationStage::Recover => at(run, IntegrationStage::Failed),
        _ => match event {
            IntegrationEvent::Failed(e) => failed(run, e@),
            IntegrationEvent::Goal(read) => if run.stage == IntegrationStage::ReadGoal {
                after_read(run, read)
            } else {
                run
            },
            IntegrationEvent::Commit(c) => after_commit(run, c@, now),
            IntegrationEvent::Answer(yes) => after_answer(run, yes),
            IntegrationEvent::Done => after_done(run, now),
            IntegrationEvent::Merged(m) => after_merge(run, m@),
            IntegrationEvent::Persisted(n) => if run.stage == IntegrationStage::PersistEvidence {
                RunView { revision: n, stage: IntegrationStage::AdvanceFence, ..run }
            } else {
                run
            },
        },
    }
}

fn refuse_unexpected(goal_id: &str, label: &str, recorded: &str, expected: &str) -> (r: Option<
    RefineError,
>)
    ensures
        match r {
            Some(e) => recorded@ != expected@ && e@ == unexpected_ref(
                goal_id@,
                label@,
                recorded@,
                expected@,
            ),
            None => recorded@ == expected@,
        },
{
    if text_eq(recorded, expected) {
        return None;
    }
    let mut m = cat5(
        "Goal ",
        goal_id,
        " ",
        label,
        " changed before Ready Merge integration: recorded ",
    );
    m.append(recorded);
    m.append(", worker expected ");
    m.append(expected);
    Some(RefineError::Conflict(m))
}

impl IntegrationRun {
    fn inputs(&self, node_id: &Option<String>, detail: &Json) -> (r: RefineResult<
        (String, String),
    >)
        ensures
            match r {
                Ok((target, base)) => merge_inputs(
                    self@,
                    crate::text::maybe_view(*node_id),
                    detail@,
                ) == Ok::<(Seq<char>, Seq<char>), crate::errors::ErrorView>((target@, base@)),
                Err(e) => merge_inputs(self@, crate::text::maybe_view(*node_id), detail@) == Err::<
                    (Seq<char>, Seq<char>),
                    crate::errors::ErrorView,
                >(e@),
            },
    {
        let goal_id = self.goal_id.as_str();
        let goal_node = match node_id {
            Some(n) => n.as_str(),
            None => "default",
        };
        if !text_eq(goal_node, self.node_id.as_str()) {
            let mut m = cat5(
                "Goal ",
                goal_id,
                " is owned by node ",
                goal_node,
                ", not integration worker node ",
            );
            m.append(self.node_id.as_str());
            return Err(RefineError::Conflict(m));
        }
        let rounds = match detail.get_array("rounds") {
            Some(rounds) => rounds,
            None => {
                return Err(RefineError::Conflict(cat3("Goal ", goal_id, " has no rounds")));
            },
        };
        if self.round_idx as u128 + 1 != rounds.len() as u128 {
            let from = decimal_text(self.round_idx as u128 + 1);
            let to = decimal_text(rounds.len() as u128);
            let mut m = cat5(
                "Goal ",
                goal_id,
                " candidate round changed from ",
                from.as_str(),
                " to ",
            );
            m.append(to.as_str());
            m.append(" before integration");
            return Err(RefineError::Conflict(m));
        }
        let round = &rounds[self.round_idx];
        let branch = match required_string(detail, "branch_name", goal_id) {
            Ok(t) => t,
            Err(e) => {
                return Err(e);
            },
        };
        let target = match required_string(detail, "target_branch", goal_id) {
            Ok(t) => t,
            Err(e) => {
                return Err(e);
            },
        };
        let base = match required_string(detail, "base_commit", goal_id) {
            Ok(t) => t,
            Err(e) => {
                return Err(e);
            },
        };
        let candidate = match required_string(detail, "candidate_commit", goal_id) {
            Ok(t) => t,
            Err(e) => {
                return Err(e);
            },
        };
        let remote = match required_string(round, "workflow_git_remote", goal_id) {
            Ok(t) => t,
            Err(e) => {
                return Err(e);
            },
        };
        if let Some(e) = refuse_unexpected(
            goal_id,
            "branch",
            branch.as_str(),
            self.branch.as_str(),
        ) {
            return Err(e);
        }
        if let Some(e) = refuse_unexpected(
            goal_id,
            "candidate",
            candidate.as_str(),
            self.candidate.as_str(),
        ) {
            return Err(e);
        }
        if let Some(e) = refuse_unexpected(
            goal_id,
            "remote",
            remote.as_str(),
            self.remote.as_str(),
        ) {
            return Err(e);
        }
        Ok((target, base))
    }

    fn fail(&mut self, error: RefineError)
        ensures
            final(self)@ == failed(old(self)@, error@),
    {
        self.error = Some(error);
        self.stage = IntegrationStage::Failed;
    }

    fn take_goal(&mut self, read: GoalRead)
        ensures
            final(self)@ == after_read(old(self)@, read),
    {
        match self.inputs(&read.node_id, &read.detail) {
            Err(e) => {
                self.fail(e);
            },
            Ok((target, base)) => {
                self.target_branch = target;
                self.base_commit = base;
                match read.evidence {
                    EvidenceRead::Unreadable(text) => {
                        self.fail(unreadable_evidence_error(text.as_str()));
                    },
                    EvidenceRead::Recorded(e) => {
                        self.evidence = Some(e);
                        self.stage = IntegrationStage::FenceBeforeProof;
                    },
                    EvidenceRead::Absent => {
                        if read.status != GoalStatus::ReadyMerge {
                            let m = cat5(
                                "Goal ",
                                self.goal_id.as_str(),
                                " cannot integrate from ",
                                read.status.as_str(),
                                "; expected ready-merge",
                            );
                            self.fail(RefineError::Conflict(m));
                        } else {
                            self.stage = IntegrationStage::FindRemote;
                        }
                    },
                }
            },
        }
    }

    fn build_evidence(&self, pushed: bool, now: &str) -> (r: RoundIntegration)
        ensures
            r@ == new_evidence(self@, pushed, now@),
    {
        RoundIntegration {
            candidate_commit: self.candidate.clone(),
            target_branch: self.target_branch.clone(),
            target_commit: self.commit.clone(),
            remote: self.remote.clone(),
            pushed,
            integrated_at: now.to_owned(),
            merge: MergeResult {
                ok: self.merge.ok,
                conflicts: crate::model::clone_texts(&self.merge.conflicts),
                message: self.merge.message.clone(),
            },
        }
    }

    fn take_commit(&mut self, commit: String, now: &str)
        ensures
            final(self)@ == after_commit(old(self)@, commit@, now@),
    {
        match self.stage {
            IntegrationStage::ResolveProven => {
                self.commit = commit;
                self.stage = IntegrationStage::ProveEvidence;
            },
            IntegrationStage::ResolvePublished => {
                if !text_eq(commit.as_str(), self.candidate.as_str()) {
                    let mut m = cat5(
                        "Published candidate ",
                        self.branch.as_str(),
                        " is ",
                        commit.as_str(),
                        ", expected ",
                    );
                    m.append(self.candidate.as_str());
                    self.fail(RefineError::Conflict(m));
                } else {
                    self.stage = IntegrationStage::FenceBeforeTargetFetch;
                }
            },
            IntegrationStage::ResolvePublishedTarget => {
                self.commit = commit;
                self.stage = IntegrationStage::ProvePublished;
            },
            IntegrationStage::ResolveCandidate => {
                if !text_eq(commit.as_str(), self.candidate.as_str()) {
                    let mut m = cat3(
                        "Candidate commit ",
                        self.candidate.as_str(),
                        " resolved unexpectedly to ",
                    );
                    m.append(commit.as_str());
                    self.fail(RefineError::Conflict(m));
                } else {
                    self.stage = IntegrationStage::ProveBase;
                }
            },
            IntegrationStage::ResolveStaleTarget => {
                self.commit = commit;
                self.stage = IntegrationStage::ProveStaleTarget;
            },
            IntegrationStage::ResolveRemoteTarget => {
                self.remote_target = commit;
                self.stage = IntegrationStage::ResolveLocalTarget;
            },
            IntegrationStage::ResolveLocalTarget => {
                if text_eq(commit.as_str(), self.remote_target.as_str()) {
                    self.stage = IntegrationStage::ResolveCurrentTarget;
                } else {
                    self.commit = commit;
                    self.stage = IntegrationStage::ProveSynchronized;
                }
            },
            IntegrationStage::ResolveCurrentTarget => {
                self.commit = commit;
                self.stage = IntegrationStage::ProveMerged;
            },
            IntegrationStage::ResolveMerged => {
                self.commit = commit;
                if self.remote_configured {
                    self.stage = IntegrationStage::FenceBeforePush;
                } else {
                    let evidence = self.build_evidence(false, now);
                    self.evidence = Some(evidence);
                    self.stage = IntegrationStage::FenceBeforeEvidence;
                }
            },
            _ => {},
        }
    }

    fn take_answer(&mut self, yes: bool)
        ensures
            final(self)@ == after_answer(old(self)@, yes),
    {
        match self.stage {
            IntegrationStage::ProveEvidence => {
                if yes {
                    self.stage = IntegrationStage::FenceAfterProof;
                } else {
                    let refusal = match &self.evidence {
                        Some(e) => {
                            let mut m = cat3(
                                "Ready Merge evidence says candidate ",
                                e.candidate_commit.as_str(),
                                " was integrated, but it is absent from ",
                            );
                            m.append(e.target_branch.as_str());
                            Some(RefineError::Conflict(m))
                        },
                        None => None,
                    };
                    if let Some(e) = refusal {
                        self.fail(e);
                    }
                }
            },
            IntegrationStage::FindRemote => {
                self.remote_configured = yes;
                self.stage = if yes {
                    IntegrationStage::FenceBeforeBranchFetch
                } else {
                    IntegrationStage::ResolveCandidate
                };
            },
            IntegrationStage::ProvePublished => {
                self.stage = if yes {
                    IntegrationStage::FenceBeforeRecoverySwitch
                } else {
                    IntegrationStage::ResolveCandidate
                };
            },
            IntegrationStage::ProveBase => {
                self.stage = if yes {
                    IntegrationStage::FenceBeforeSwitch
                } else {
                    IntegrationStage::ResolveStaleTarget
                };
            },
            IntegrationStage::ProveStaleTarget => {
                if yes {
                    self.stage = IntegrationStage::FenceBeforeSwitch;
                } else {
                    let e = RefineError::StaleCandidate {
                        candidate_commit: self.candidate.clone(),
                        recorded_base: self.base_commit.clone(),
                        target_branch: self.target_branch.clone(),
                        target_commit: self.commit.clone(),
                    };
                    self.fail(e);
                }
            },
            IntegrationStage::ProveSynchronized => {
                self.stage = if yes {
                    IntegrationStage::ResolveCurrentTarget
                } else {
                    IntegrationStage::FenceBeforeSynchronization
                };
            },
            IntegrationStage::ProveMerged => {
                if yes {
                    self.merge = already_merged(
                        "Exact candidate was already present in the local target branch",
                    );
                    self.stage = IntegrationStage::ResolveMerged;
                } else {
                    self.stage = IntegrationStage::FenceBeforeMerge;
                }
            },
            _ => {},
        }
    }

    fn take_done(&mut self, now: &str)
        ensures
            final(self)@ == after_done(old(self)@, now@),
    {
        match self.stage {
            IntegrationStage::FenceBeforeRead => {
                self.stage = IntegrationStage::ReadGoal;
            },
            IntegrationStage::FenceBeforeProof => {
                let pushed = match &self.evidence {
                    Some(e) => e.pushed,
                    None => false,
                };
                self.stage = if pushed {
                    IntegrationStage::FetchProven
                } else {
                    IntegrationStage::ResolveProven
                };
            },
            IntegrationStage::FenceAfterProof => {
                self.stage = IntegrationStage::Integrated;
            },
            IntegrationStage::FenceBeforeBranchFetch => {
                self.stage = IntegrationStage::FetchBranch;
            },
            IntegrationStage::FenceBeforeBranch => {
                self.stage = IntegrationStage::EnsureBranch;
            },
            IntegrationStage::FenceBeforeTargetFetch => {
                self.stage = IntegrationStage::FetchTarget;
            },
            IntegrationStage::FenceBeforeRecoverySwitch => {
                self.stage = IntegrationStage::SwitchForRecovery;
            },
            IntegrationStage::FenceBeforeFastForward => {
                self.stage = IntegrationStage::FastForward;
            },
            IntegrationStage::FenceBeforeSwitch => {
                self.stage = IntegrationStage::Switch;
            },
            IntegrationStage::FenceBeforeSynchronization => {
                self.stage = IntegrationStage::Synchronize;
            },
            IntegrationStage::FenceBeforeMerge => {
                self.stage = IntegrationStage::Merge;
            },
            IntegrationStage::FenceBeforePush => {
                self.stage = IntegrationStage::Push;
            },
            IntegrationStage::FenceBeforeEvidence => {
                self.stage = IntegrationStage::PersistEvidence;
            },
            IntegrationStage::FetchProven => {
                self.stage = IntegrationStage::ResolveProven;
            },
            IntegrationStage::FetchBranch => {
                self.stage = IntegrationStage::FenceBeforeBranch;
            },
            IntegrationStage::EnsureBranch => {
                self.stage = IntegrationStage::ResolvePublished;
            },
            IntegrationStage::FetchTarget => {
                self.stage = IntegrationStage::ResolvePublishedTarget;
            },
            IntegrationStage::SwitchForRecovery => {
                self.stage = IntegrationStage::FenceBeforeFastForward;
            },
            IntegrationStage::FastForward => {
                self.merge = already_merged(
                    "Recovered successful Ready Merge integration from the published target branch",
                );
                let evidence = self.build_evidence(true, now);
                self.evidence = Some(evidence);
                self.stage = IntegrationStage::FenceBeforeEvidence;
            },
            IntegrationStage::Switch => {
                self.stage = if self.remote_configured {
                    IntegrationStage::ResolveRemoteTarget
                } else {
                    IntegrationStage::ResolveCurrentTarget
                };
            },
            IntegrationStage::Push => {
                let evidence = self.build_evidence(true, now);
                self.evidence = Some(evidence);
                self.stage = IntegrationStage::FenceBeforeEvidence;
            },
            IntegrationStage::AdvanceFence => {
                self.stage = IntegrationStage::Integrated;
            },
            _ => {},
        }
    }

    fn take_merge(&mut self, merge: MergeResult)
        ensures
            final(self)@ == after_merge(old(self)@, merge@),
    {
        match self.stage {
            IntegrationStage::Synchronize => {
                if merge.ok {
                    self.stage = IntegrationStage::ResolveCurrentTarget;
                } else {
                    self.error = Some(merge_failure("target synchronization", &merge));
                    self.stage = IntegrationStage::Recover;
                }
            },
            IntegrationStage::Merge => {
                if merge.ok {
                    self.merge = merge;
                    self.stage = IntegrationStage::ResolveMerged;
                } else {
                    self.error = Some(merge_failure("candidate integration", &merge));
                    self.stage = IntegrationStage::Recover;
                }
            },
            _ => {},
        }
    }

    /// Takes note of what came of the current effect, at a given time.
    pub fn advance_at(&mut self, event: IntegrationEvent, now: &str)
        ensures
            final(self)@ == next_run(old(self)@, event, now@),
    {
        match self.stage {
            IntegrationStage::Integrated => {
                return;
            },
            IntegrationStage::Failed => {
                return;
            },
            IntegrationStage::Recover => {
                self.stage = IntegrationStage::Failed;
                return;
            },
            _ => {},
        }
        match event {
            IntegrationEvent::Failed(e) => {
                self.fail(e);
            },
            IntegrationEvent::Goal(read) => {
                if self.stage == IntegrationStage::ReadGoal {
                    self.take_goal(read);
                }
            },
            IntegrationEvent::Commit(c) => {
                self.take_commit(c, now);
            },
            IntegrationEvent::Answer(yes) => {
                self.take_answer(yes);
            },
            IntegrationEvent::Done => {
                self.take_done(now);
            },
            IntegrationEvent::Merged(m) => {
                self.take_merge(m);
            },
            IntegrationEvent::Persisted(n) => {
                if self.stage == IntegrationStage::PersistEvidence {
                    self.revision = n;
                    self.stage = IntegrationStage::AdvanceFence;
                }
            },
        }
    }

    /// Takes note of what came of the current effect.
    pub fn advance(&mut self, event: IntegrationEvent)
        ensures
            exists|now: Seq<char>| final(self)@ == #[trigger] next_run(old(self)@, event, now),
    {
        let now = current_time();
        self.advance_at(event, now.as_str());
    }

    /// What to do next.
    pub fn action(&self) -> (r: GitAction)
        ensures
            r@ == action_of(self@),
    {
        match self.stage {
            IntegrationStage::ReadGoal => GitAction::ReadGoal,
            IntegrationStage::FetchProven => match &self.evidence {
                Some(e) => GitAction::Fetch(e.remote.clone(), e.target_branch.clone()),
                None => GitAction::Finished,
            },
            IntegrationStage::ResolveProven => match &self.evidence {
                Some(e) => GitAction::Resolve(
                    if e.pushed {
                        cat3(e.remote.as_str(), "/", e.target_branch.as_str())
                    } else {
                        e.target_branch.clone()
                    },
                ),
                None => GitAction::Finished,
            },
            IntegrationStage::ProveEvidence => match &self.evidence {
                Some(e) => GitAction::IsAncestor(e.candidate_commit.clone(), self.commit.clone()),
                None => GitAction::Finished,
            },
            IntegrationStage::FindRemote => GitAction::FindRemote(self.remote.clone()),
            IntegrationStage::FetchBranch => GitAction::Fetch(
                self.remote.clone(),
                self.branch.clone(),
            ),
            IntegrationStage::EnsureBranch => GitAction::EnsureBranch(
                self.remote.clone(),
                self.branch.clone(),
            ),
            IntegrationStage::ResolvePublished => GitAction::Resolve(
                cat3(self.remote.as_str(), "/", self.branch.as_str()),
            ),
            IntegrationStage::FetchTarget => GitAction::Fetch(
                self.remote.clone(),
                self.target_branch.clone(),
            ),
            IntegrationStage::ResolvePublishedTarget => GitAction::Resolve(
                cat3(self.remote.as_str(), "/", self.target_branch.as_str()),
            ),
            IntegrationStage::ProvePublished => GitAction::IsAncestor(
                self.candidate.clone(),
                self.commit.clone(),
            ),
            IntegrationStage::SwitchForRecovery => GitAction::Switch(self.target_branch.clone()),
            IntegrationStage::FastForward => GitAction::FastForward(
                self.remote.clone(),
                self.target_branch.clone(),
            ),
            IntegrationStage::ResolveCandidate => GitAction::Resolve(self.candidate.clone()),
            IntegrationStage::ProveBase => GitAction::IsAncestor(
                self.base_commit.clone(),
                self.candidate.clone(),
            ),
            IntegrationStage::ResolveStaleTarget => GitAction::Resolve(self.target_branch.clone()),
            IntegrationStage::ProveStaleTarget => GitAction::IsAncestor(
                self.candidate.clone(),
                self.commit.clone(),
            ),
            IntegrationStage::Switch => GitAction::Switch(self.target_branch.clone()),
            IntegrationStage::ResolveRemoteTarget => GitAction::Resolve(
                cat3(self.remote.as_str(), "/", self.target_branch.as_str()),
            ),
            IntegrationStage::ResolveLocalTarget => GitAction::Resolve(self.target_branch.clone()),
            IntegrationStage::ProveSynchronized => GitAction::IsAncestor(
                self.remote_target.clone(),
                self.commit.clone(),
            ),
            IntegrationStage::Synchronize => GitAction::Merge(self.remote_target.clone()),
            IntegrationStage::ResolveCurrentTarget => GitAction::Resolve(
                self.target_branch.clone(),
            ),
            IntegrationStage::ProveMerged => GitAction::IsAncestor(
                self.candidate.clone(),
                self.commit.clone(),
            ),
            IntegrationStage::Merge => GitAction::Merge(self.candidate.clone()),
            IntegrationStage::ResolveMerged => GitAction::Resolve(self.target_branch.clone()),
            IntegrationStage::Push => GitAction::Push(
                self.remote.clone(),
                self.target_branch.clone(),
            ),
            IntegrationStage::PersistEvidence => GitAction::PersistEvidence,
            IntegrationStage::AdvanceFence => GitAction::AdvanceFence(self.revision),
            IntegrationStage::Recover => GitAction::Recover,
            IntegrationStage::Integrated => GitAction::Finished,
            IntegrationStage::Failed => GitAction::Finished,
            _ => GitAction::VerifyFence,
        }
    }
}

fn already_merged(message: &str) -> (r: MergeResult)
    ensures
        r@ == nothing_to_merge(message@),
{
    let r = MergeResult { ok: true, conflicts: Vec::new(), message: Some(message.to_owned()) };
    assert(r@.conflicts =~= Seq::<Seq<char>>::empty());
    r
}

/// A merge that has not begun.
pub open spec fn fresh_run(
    goal_id: Seq<char>,
    round_idx: usize,
    node_id: Seq<char>,
    branch: Seq<char>,
    candidate: Seq<char>,
    remote: Seq<char>,
) -> RunView {
    RunView {
        goal_id,
        round_idx,
        node_id,
        branch,
        candidate,
        remote,
        target_branch: Seq::empty(),
        base_commit: Seq::empty(),
        remote_configured: false,
        remote_target: Seq::empty(),
        commit: Seq::empty(),
        merge: crate::merging::MergeView { ok: false, conflicts: Seq::empty(), message: None },
        evidence: None,
        revision: 0,
        stage: IntegrationStage::FenceBeforeRead,
        error: None,
    }
}

impl FileMergerService {
    /// Begins the merge of the candidate that a workflow recorded.
    pub fn integrate_workflow_candidate(
        &self,
        goal_id: &str,
        round_idx: usize,
        node_id: &str,
        expected_branch: &str,
        expected_candidate: &str,
        expected_remote: &str,
    ) -> (r: IntegrationRun)
        ensures
            r@ == fresh_run(
                goal_id@,
                round_idx,
                node_id@,
                expected_branch@,
                expected_candidate@,
                expected_remote@,
            ),
    {
        let r = IntegrationRun {
            goal_id: goal_id.to_owned(),
            round_idx,
            node_id: node_id.to_owned(),
            branch: expected_branch.to_owned(),
            candidate: expected_candidate.to_owned(),
            remote: expected_remote.to_owned(),
            target_branch: String::new(),
            base_commit: String::new(),
            remote_configured: false,
            remote_target: String::new(),
            commit: String::new(),
            merge: MergeResult { ok: false, conflicts: Vec::new(), message: None },
            evidence: None,
            revision: 0,
            stage: IntegrationStage::FenceBeforeRead,
            error: None,
        };
        assert(r@.merge.conflicts =~= Seq::<Seq<char>>::empty());
        assert(r@.target_branch =~= Seq::<char>::empty());
        r
    }
}

/// The actions that change the repository, the remote or the goal's record.
pub open spec fn changes_something(action: ActionView) -> bool {
    match action {
        ActionView::Fetch(_, _) => true,
        ActionView::EnsureBranch(_, _) => true,
        ActionView::Switch(_) => true,
        ActionView::FastForward(_, _) => true,
        ActionView::Merge(_) => true,
        ActionView::Push(_, _) => true,
        ActionView::PersistEvidence => true,
        _ => false,
    }
}

/// Nothing is fetched, switched, merged, pushed or recorded unless the fence
/// was verified immediately before.
pub proof fn every_effect_follows_a_verified_fence(
    run: RunView,
    event: IntegrationEvent,
    now: Seq<char>,
)
    requires
        next_run(run, event, now).stage != run.stage,
        changes_something(action_of(next_run(run, event, now))),
    ensures
        action_of(run) == ActionView::VerifyFence,
        event is Done,
{
}

/// A merge succeeds only after its new evidence was recorded and the fence
/// moved to the recorded revision, or after existing evidence was proven and
/// the fence verified once more.
pub proof fn success_has_recorded_evidence(run: RunView, event: IntegrationEvent, now: Seq<char>)
    requires
        next_run(run, event, now).stage == IntegrationStage::Integrated,
        run.stage != IntegrationStage::Integrated,
    ensures
        event is Done,
        run.stage == IntegrationStage::AdvanceFence || run.stage
            == IntegrationStage::FenceAfterProof,
        next_run(run, event, now).evidence == run.evidence,
{
}

/// The fence is moved only to the revision that recording the evidence gave.
pub proof fn the_fence_moves_to_the_recorded_revision(
    run: RunView,
    event: IntegrationEvent,
    now: Seq<char>,
)
    requires
        next_run(run, event, now).stage == IntegrationStage::AdvanceFence,
        run.stage != IntegrationStage::AdvanceFence,
    ensures
        run.stage == IntegrationStage::PersistEvidence,
        event == IntegrationEvent::Persisted(next_run(run, event, now).revision),
{
}

/// A merge that Git could not finish is cleaned up and fails; nothing is
/// pushed or recorded for it.
pub proof fn conflicts_are_never_published(
    run: RunView,
    merge: MergeResult,
    event: IntegrationEvent,
    now: Seq<char>,
)
    requires
        run.stage == IntegrationStage::Merge || run.stage == IntegrationStage::Synchronize,
        !merge.ok,
    ensures
        ({
            let after = next_run(run, IntegrationEvent::Merged(merge), now);
            &&& after.stage == IntegrationStage::Recover
            &&& next_run(after, event, now).stage == IntegrationStage::Failed
            &&& next_run(after, event, now).error == after.error
            &&& after.error is Some
        }),
{
}

/// What is true of a merge at every moment: whatever evidence it is about to
/// record names its own candidate, target and remote, and says that it was
/// pushed exactly where a remote is configured.
pub open spec fn evidence_is_own(run: RunView) -> bool {
    run.stage == IntegrationStage::FenceBeforeEvidence || run.stage
        == IntegrationStage::PersistEvidence || run.stage == IntegrationStage::AdvanceFence ==> (
    run.evidence matches Some(e) && e.candidate_commit == run.candidate && e.target_branch
        == run.target_branch && e.remote == run.remote && e.pushed == run.remote_configured)
}

/// The stages that need a configured remote.
pub open spec fn needs_remote(stage: IntegrationStage) -> bool {
    match stage {
        IntegrationStage::FenceBeforeBranchFetch => true,
        IntegrationStage::FetchBranch => true,
        IntegrationStage::FenceBeforeBranch => true,
        IntegrationStage::EnsureBranch => true,
        IntegrationStage::ResolvePublished => true,
        IntegrationStage::FenceBeforeTargetFetch => true,
        IntegrationStage::FetchTarget => true,
        IntegrationStage::ResolvePublishedTarget => true,
        IntegrationStage::ProvePublished => true,
        IntegrationStage::FenceBeforeRecoverySwitch => true,
        IntegrationStage::SwitchForRecovery => true,
        IntegrationStage::FenceBeforeFastForward => true,
        IntegrationStage::FastForward => true,
        IntegrationStage::FenceBeforePush => true,
        IntegrationStage::Push => true,
        _ => false,
    }
}

/// The stages at which recorded evidence is proven, and the one at which the
/// merge is complete.
pub open spec fn rests_on_evidence(stage: IntegrationStage) -> bool {
    match stage {
        IntegrationStage::FenceBeforeProof => true,
        IntegrationStage::FetchProven => true,
        IntegrationStage::ResolveProven => true,
        IntegrationStage::ProveEvidence => true,
        IntegrationStage::FenceAfterProof => true,
        IntegrationStage::Integrated => true,
        _ => false,
    }
}

/// The invariant of a merge.
pub open spec fn sound(run: RunView) -> bool {
    &&& evidence_is_own(run)
    &&& needs_remote(run.stage) ==> run.remote_configured
    &&& rests_on_evidence(run.stage) ==> run.evidence is Some
    &&& run.stage == IntegrationStage::Recover || run.stage == IntegrationStage::Failed
        ==> run.error is Some
}

/// A merge starts out sound.
pub proof fn merges_begin_sound(
    goal_id: Seq<char>,
    round_idx: usize,
    node_id: Seq<char>,
    branch: Seq<char>,
    candidate: Seq<char>,
    remote: Seq<char>,
)
    ensures
        sound(fresh_run(goal_id, round_idx, node_id, branch, candidate, remote)),
{
}

/// Every event keeps a merge sound, and the goal, candidate and remote that it
/// is about.
pub proof fn merges_stay_sound(run: RunView, event: IntegrationEvent, now: Seq<char>)
    requires
        sound(run),
    ensures
        sound(next_run(run, event, now)),
        next_run(run, event, now).goal_id == run.goal_id,
        next_run(run, event, now).candidate == run.candidate,
        next_run(run, event, now).branch == run.branch,
        next_run(run, event, now).remote == run.remote,
{
}

/// A candidate whose recorded base is not its ancestor is stale only where the
/// candidate is also absent from its target branch.
pub proof fn merged_candidates_are_not_stale(run: RunView, event: IntegrationEvent, now: Seq<char>)
    requires
        next_run(run, event, now).error matches Some(
            crate::errors::ErrorView::StaleCandidate { .. },
        ),
        run.error is None,
        !(event is Failed),
    ensures
        run.stage == IntegrationStage::ProveStaleTarget,
        event == IntegrationEvent::Answer(false),
        action_of(run) == ActionView::IsAncestor(run.candidate, run.commit),
{
}

} // verus!

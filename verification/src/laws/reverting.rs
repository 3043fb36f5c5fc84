//! How a reviewed merge is accepted, and how a merge is taken back.
use vstd::prelude::*;

use crate::errors::RefineError;
use crate::merging::approval::{ApprovalEvent, ApprovalRun, ApprovalStage};
use crate::merging::reconciliation::{NodeClaim, RevertEvent, RevertStage, WorktreeStatus};
use crate::merging::{EvidenceRead, MergeResult};
use crate::model::GoalStatus;

verus! {

/// A goal may be accepted exactly where it is in review, names its candidate,
/// has a round, and the evidence of its merge is of that candidate.
pub proof fn only_the_reviewed_candidate_is_accepted(
    goal_id: Seq<char>,
    status: GoalStatus,
    detail: crate::json::JsonView,
    evidence: EvidenceRead,
)
    ensures
        ({
            let outcome = crate::merging::approval::review_outcome(
                goal_id,
                status,
                detail,
                evidence,
            );
            let named = crate::laws::values::names_something(detail, "candidate_commit"@);
            let candidate = crate::text::trimmed(
                crate::laws::values::text_of(detail, "candidate_commit"@),
            );
            let has_round = crate::laws::values::has_list(detail, "rounds"@)
                && crate::laws::values::list_of(detail, "rounds"@).len() > 0;
            &&& outcome is Ok == (status is Review && named && has_round && evidence is Recorded
                && (evidence->Recorded_0).candidate_commit@ == candidate)
            &&& outcome is Ok ==> outcome->Ok_0 == (candidate, (evidence->Recorded_0)@)
            &&& !(status is Review) ==> outcome->Err_0 is InvalidInput
            &&& status is Review && named && has_round && evidence is Unreadable
                ==> outcome->Err_0 is Serialization
            &&& status is Review && outcome is Err && !(named && has_round
                && evidence is Unreadable) ==> outcome->Err_0 is Conflict
        }),
{
    crate::laws::values::named_texts_are_read(detail, "candidate_commit"@);
}

/// An acceptance asks for the local target and whether it holds the candidate;
/// where the merge was pushed it fetches the published target and asks the same
/// of it, and only then is the goal accepted.
pub proof fn acceptance_proves_the_candidate_where_it_is(
    run: ApprovalRun,
    event: ApprovalEvent,
)
    ensures
        ({
            let integration = run.integration@;
            let asked = crate::merging::approval::approval_action(run);
            let next = crate::merging::approval::next_approval_stage(
                run.stage,
                run.integration.pushed,
                event,
            );
            let commit = crate::merging::approval::next_approval_commit(run, event);
            let error = crate::merging::approval::next_approval_error(run, event);
            let published = crate::laws::merging::published_name(
                integration.remote,
                integration.target_branch,
            );
            &&& run.stage == ApprovalStage::ResolveTarget ==> asked
                == crate::merging::integration::ActionView::Resolve(integration.target_branch)
            &&& run.stage == ApprovalStage::ResolveTarget && event is Commit ==> next
                == ApprovalStage::ProveIntegrated && commit == (event->Commit_0)@
            &&& run.stage == ApprovalStage::ProveIntegrated ==> asked
                == crate::merging::integration::ActionView::IsAncestor(
                integration.candidate_commit,
                run.commit@,
            )
            &&& run.stage == ApprovalStage::ProveIntegrated && event == ApprovalEvent::Answer(true)
                ==> next == (if integration.pushed {
                ApprovalStage::FetchPublished
            } else {
                ApprovalStage::AcceptGoal
            }) && commit == run.commit@
            &&& run.stage == ApprovalStage::ProveIntegrated && event == ApprovalEvent::Answer(
                false,
            ) ==> next == ApprovalStage::Failed && error is Some && error->0 is Conflict
            &&& run.stage == ApprovalStage::FetchPublished ==> asked
                == crate::merging::integration::ActionView::Fetch(
                integration.remote,
                integration.target_branch,
            )
            &&& run.stage == ApprovalStage::FetchPublished && event is Done ==> next
                == ApprovalStage::ResolvePublished
            &&& run.stage == ApprovalStage::ResolvePublished ==> asked
                == crate::merging::integration::ActionView::Resolve(published)
            &&& run.stage == ApprovalStage::ResolvePublished && event is Commit ==> next
                == ApprovalStage::ProvePublished && commit == (event->Commit_0)@
            &&& run.stage == ApprovalStage::ProvePublished ==> asked
                == crate::merging::integration::ActionView::IsAncestor(
                integration.candidate_commit,
                run.commit@,
            )
            &&& run.stage == ApprovalStage::ProvePublished && event == ApprovalEvent::Answer(true)
                ==> next == ApprovalStage::AcceptGoal
            &&& run.stage == ApprovalStage::ProvePublished && event == ApprovalEvent::Answer(false)
                ==> next == ApprovalStage::Failed && error is Some && error->0 is Conflict
        }),
{
}

/// A failed effect ends an acceptance with its error, and a finished acceptance
/// takes note of nothing.
pub proof fn failed_effects_end_an_acceptance(run: ApprovalRun, event: ApprovalEvent)
    ensures
        ({
            let next = crate::merging::approval::next_approval_stage(
                run.stage,
                run.integration.pushed,
                event,
            );
            let error = crate::merging::approval::next_approval_error(run, event);
            let ended = run.stage == ApprovalStage::AcceptGoal || run.stage
                == ApprovalStage::Failed;
            &&& ended ==> next == run.stage && error == crate::errors::error_view(run.error)
                && crate::merging::approval::approval_action(run)
                == crate::merging::integration::ActionView::Finished
            &&& !ended && event is Failed ==> next == ApprovalStage::Failed && error == Some(
                (event->Failed_0)@,
            )
        }),
{
}

/// A merge may be taken back exactly where a running claim of this request owns
/// the goal on this node, the goal is in quality assurance, the round is there,
/// and its evidence is still the one that the request names.
pub proof fn only_the_owner_takes_a_merge_back(
    goal_id: Seq<char>,
    round_idx: usize,
    claim_id: Seq<char>,
    execution_id: Seq<char>,
    node_id: Seq<char>,
    integration: crate::merging::IntegrationView,
    claim: Option<NodeClaim>,
    status: GoalStatus,
    detail: crate::json::JsonView,
    evidence: EvidenceRead,
)
    ensures
        ({
            let outcome = crate::merging::reconciliation::reconciliation_outcome(
                goal_id,
                round_idx,
                claim_id,
                execution_id,
                node_id,
                integration,
                claim,
                status,
                detail,
                evidence,
            );
            let owned = claim is Some && claim->0.claim.claim_id@ == claim_id
                && claim->0.claim.execution_id is Some && (claim->0.claim.execution_id->0)@
                == execution_id && claim->0.claim.goal_id@ == goal_id && claim->0.node_id@
                == node_id && claim->0.claim.state is Running;
            let has_round = crate::laws::values::has_list(detail, "rounds"@) && round_idx
                < crate::laws::values::list_of(detail, "rounds"@).len();
            &&& outcome is Ok == (owned && status is Qa && has_round && evidence is Recorded && (
            evidence->Recorded_0)@ == integration)
            &&& owned && status is Qa && has_round && evidence is Unreadable
                ==> outcome->Err_0 is Serialization
            &&& outcome is Err && !(owned && status is Qa && has_round && evidence is Unreadable)
                ==> outcome->Err_0 is Conflict
        }),
{
}

/// Where the target's worktree is on the target branch and clean, and the
/// target stands where it is expected, a merge that was not pushed is looked
/// for in it.
pub proof fn a_local_target_is_inspected_first(
    target_root: Seq<char>,
    integration: crate::merging::IntegrationView,
    expected: Seq<char>,
    status: WorktreeStatus,
    commit: String,
)
    requires
        status.branch is Some,
        (status.branch->0)@ == integration.target_branch,
        !status.dirty_user_changes,
        !status.refine_owned_artifacts,
        commit@ == expected,
    ensures
        ({
            let a = crate::merging::reconciliation::fresh_revert(
                target_root,
                integration,
                expected,
            );
            let b = crate::merging::reconciliation::next_revert(a, RevertEvent::Inspected(status));
            let c = crate::merging::reconciliation::next_revert(b, RevertEvent::Commit(commit));
            &&& crate::merging::reconciliation::revert_action(a)
                == crate::merging::reconciliation::RevertActionView::Inspect(target_root)
            &&& crate::merging::reconciliation::revert_action(b)
                == crate::merging::reconciliation::RevertActionView::Resolve(
                integration.target_branch,
            )
            &&& !integration.pushed ==> crate::merging::reconciliation::revert_action(c)
                == crate::merging::reconciliation::RevertActionView::IsAncestor(
                integration.target_commit,
                expected,
            ) && c.stage == RevertStage::ProveIntegration
            &&& integration.pushed ==> crate::merging::reconciliation::revert_action(c)
                == crate::merging::reconciliation::RevertActionView::Fetch(
                integration.remote,
                integration.target_branch,
            ) && c.stage == RevertStage::FetchPublished
            &&& c.error is None && c.integration == integration && c.expected == expected
        }),
{
}

/// A merge that was pushed is looked for only where the published target stands
/// where it is expected too.
pub proof fn a_published_target_is_checked_too(
    run: crate::merging::reconciliation::RevertView,
    commit: String,
)
    requires
        run.stage == RevertStage::FetchPublished,
        commit@ == run.expected,
    ensures
        ({
            let b = crate::merging::reconciliation::next_revert(run, RevertEvent::Done);
            let c = crate::merging::reconciliation::next_revert(b, RevertEvent::Commit(commit));
            &&& crate::merging::reconciliation::revert_action(b)
                == crate::merging::reconciliation::RevertActionView::Resolve(
                crate::laws::merging::published_name(
                    run.integration.remote,
                    run.integration.target_branch,
                ),
            )
            &&& crate::merging::reconciliation::revert_action(c)
                == crate::merging::reconciliation::RevertActionView::IsAncestor(
                run.integration.target_commit,
                run.expected,
            )
            &&& c.stage == RevertStage::ProveIntegration && c.error == run.error
        }),
{
}

/// A merge commit with two parents, of which only the second holds the
/// candidate, is reverted against its first parent.
pub proof fn an_exact_merge_is_reverted(
    run: crate::merging::reconciliation::RevertView,
    parents: Vec<String>,
)
    requires
        run.stage == RevertStage::ProveIntegration,
        parents@.len() == 2,
    ensures
        ({
            let b = crate::merging::reconciliation::next_revert(run, RevertEvent::Answer(true));
            let c = crate::merging::reconciliation::next_revert(b, RevertEvent::Parents(parents));
            let d = crate::merging::reconciliation::next_revert(c, RevertEvent::Answer(false));
            let e = crate::merging::reconciliation::next_revert(d, RevertEvent::Answer(true));
            &&& crate::merging::reconciliation::revert_action(b)
                == crate::merging::reconciliation::RevertActionView::Parents(
                run.integration.target_commit,
            )
            &&& crate::merging::reconciliation::revert_action(c)
                == crate::merging::reconciliation::RevertActionView::IsAncestor(
                run.integration.candidate_commit,
                parents@[0]@,
            )
            &&& crate::merging::reconciliation::revert_action(d)
                == crate::merging::reconciliation::RevertActionView::IsAncestor(
                run.integration.candidate_commit,
                parents@[1]@,
            )
            &&& crate::merging::reconciliation::revert_action(e)
                == crate::merging::reconciliation::RevertActionView::Revert(
                run.integration.target_commit,
                1,
            )
            &&& e.stage == RevertStage::Revert && e.error == run.error
        }),
{
}

/// A clean revert is resolved, pushed where the merge was pushed, and settled
/// with the commit and the result that it has.
pub proof fn a_clean_revert_is_settled(
    run: crate::merging::reconciliation::RevertView,
    result: MergeResult,
    commit: String,
)
    requires
        run.stage == RevertStage::Revert,
        result.ok,
    ensures
        ({
            let b = crate::merging::reconciliation::next_revert(run, RevertEvent::Reverted(result));
            let c = crate::merging::reconciliation::next_revert(b, RevertEvent::Commit(commit));
            let d = crate::merging::reconciliation::next_revert(c, RevertEvent::Done);
            let end = if run.integration.pushed {
                d
            } else {
                c
            };
            &&& crate::merging::reconciliation::revert_action(b)
                == crate::merging::reconciliation::RevertActionView::Resolve(
                run.integration.target_branch,
            )
            &&& run.integration.pushed ==> crate::merging::reconciliation::revert_action(c)
                == crate::merging::reconciliation::RevertActionView::Push(
                run.integration.remote,
                run.integration.target_branch,
            )
            &&& crate::merging::reconciliation::revert_action(end)
                == crate::merging::reconciliation::RevertActionView::Settle
            &&& end.stage == RevertStage::Settle
            &&& end.commit == commit@
            &&& end.result == result@
            &&& end.integration == run.integration
            &&& end.error == run.error
        }),
{
}

/// A revert meets a conflict, and nothing is reverted, where the worktree is on
/// another branch or not clean.
pub proof fn user_work_is_preserved(
    run: crate::merging::reconciliation::RevertView,
    status: WorktreeStatus,
)
    requires
        run.stage == RevertStage::Inspect,
    ensures
        ({
            let next = crate::merging::reconciliation::next_revert(
                run,
                RevertEvent::Inspected(status),
            );
            let fit = status.branch is Some && (status.branch->0)@ == run.integration.target_branch
                && !status.dirty_user_changes && !status.refine_owned_artifacts;
            &&& fit == (next.stage == RevertStage::ResolveTarget)
            &&& !fit ==> next.stage == RevertStage::Failed && next.error is Some
                && next.error->0 is Conflict
                && crate::merging::reconciliation::revert_action(next)
                == crate::merging::reconciliation::RevertActionView::Finished
        }),
{
}

/// A revert meets a conflict, and nothing is reverted, where the target moved,
/// locally or where it is published.
pub proof fn a_target_that_moved_is_left_alone(
    run: crate::merging::reconciliation::RevertView,
    commit: String,
)
    requires
        run.stage == RevertStage::ResolveTarget || run.stage == RevertStage::ResolvePublished,
        commit@ != run.expected,
    ensures
        ({
            let next = crate::merging::reconciliation::next_revert(run, RevertEvent::Commit(commit));
            next.stage == RevertStage::Failed && next.error is Some && next.error->0 is Conflict
        }),
{
}

/// A revert meets a conflict, and nothing is reverted, where the target does not
/// hold the merge, the merge has not two parents, the first holds the candidate
/// or the second does not.
pub proof fn an_inexact_merge_is_left_alone(
    run: crate::merging::reconciliation::RevertView,
    event: RevertEvent,
)
    requires
        run.stage == RevertStage::ProveIntegration && event == RevertEvent::Answer(false)
            || run.stage == RevertStage::ReadParents && event is Parents && (
        event->Parents_0)@.len() != 2 || run.stage == RevertStage::ProveFirstParent && event
            == RevertEvent::Answer(true) || run.stage == RevertStage::ProveSecondParent && event
            == RevertEvent::Answer(false),
    ensures
        ({
            let next = crate::merging::reconciliation::next_revert(run, event);
            next.stage == RevertStage::Failed && next.error is Some && next.error->0 is Conflict
        }),
{
}

/// A revert that Git did not finish is cleaned up, and its failure is kept
/// whatever came of that.
pub proof fn an_unfinished_revert_is_cleaned_up(
    run: crate::merging::reconciliation::RevertView,
    result: MergeResult,
    error: RefineError,
)
    requires
        run.stage == RevertStage::Revert,
        !result.ok,
    ensures
        ({
            let b = crate::merging::reconciliation::next_revert(run, RevertEvent::Reverted(result));
            let c = crate::merging::reconciliation::next_revert(b, RevertEvent::Done);
            let d = crate::merging::reconciliation::next_revert(b, RevertEvent::Failed(error));
            &&& crate::merging::reconciliation::revert_action(b)
                == crate::merging::reconciliation::RevertActionView::Recover
            &&& b.error is Some && b.error->0 is Conflict
            &&& c.stage == RevertStage::Failed && c.error == b.error
            &&& d.stage == RevertStage::Failed && d.error == b.error
        }),
{
}

/// A revert that cannot be pushed is undone: the target is put back to where it
/// was expected, and the failure is a conflict either way.
pub proof fn an_unpushed_revert_is_undone(
    run: crate::merging::reconciliation::RevertView,
    error: RefineError,
    second: RefineError,
)
    requires
        run.stage == RevertStage::Push,
    ensures
        ({
            let b = crate::merging::reconciliation::next_revert(run, RevertEvent::Failed(error));
            let c = crate::merging::reconciliation::next_revert(b, RevertEvent::Done);
            let d = crate::merging::reconciliation::next_revert(b, RevertEvent::Failed(second));
            &&& crate::merging::reconciliation::revert_action(b)
                == crate::merging::reconciliation::RevertActionView::Reset(run.expected)
            &&& b.push_error == Some(error@)
            &&& c.stage == RevertStage::Failed && c.error is Some && c.error->0 is Conflict
            &&& d.stage == RevertStage::Failed && d.error is Some && d.error->0 is Conflict
        }),
{
}

/// Any other failed effect ends a revert with its error.
pub proof fn failed_effects_end_a_revert(
    run: crate::merging::reconciliation::RevertView,
    error: RefineError,
)
    requires
        run.stage != RevertStage::Push,
        run.stage != RevertStage::RestoreTarget,
        run.stage != RevertStage::Recover,
        run.stage != RevertStage::Failed,
    ensures
        ({
            let next = crate::merging::reconciliation::next_revert(run, RevertEvent::Failed(error));
            next.stage == RevertStage::Failed && next.error == Some(error@)
        }),
{
}

} // verus!

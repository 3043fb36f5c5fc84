//! When a merge may go on, and how it is settled.
use vstd::prelude::*;

use crate::merging::integration::IntegrationStage;
use crate::merging::settlement::{SettlementEvent, SettlementStage};
use crate::merging::{ExpectedRefs, WorkflowExecutionFence};

verus! {

/// A goal is as its merge expects it: at its revision, ready to merge, in its
/// round, on its branch, with its candidate and its remote.
pub open spec fn is_as_expected(
    fence: WorkflowExecutionFence,
    detail: crate::json::JsonView,
    expected: ExpectedRefs,
) -> bool {
    &&& crate::laws::values::is_at_revision(detail, fence.goal_revision)
    &&& crate::laws::values::says(detail, "status"@, "ready-merge"@)
    &&& crate::laws::values::has_list(detail, "rounds"@)
    &&& crate::laws::values::list_of(detail, "rounds"@).len() == fence.round_idx + 1
    &&& crate::laws::values::says(detail, "branch_name"@, expected.branch@)
    &&& crate::laws::values::says(detail, "candidate_commit"@, expected.candidate@)
    &&& crate::laws::values::says(
        crate::laws::values::list_of(detail, "rounds"@)[fence.round_idx as int],
        "workflow_git_remote"@,
        expected.remote@,
    )
}

/// A merge may go on exactly where its operation is still active and its goal
/// is as it expects; otherwise it meets a conflict.
pub proof fn merges_go_on_only_where_nothing_moved(
    fence: WorkflowExecutionFence,
    operation_id: Seq<char>,
    operation_active: bool,
    operation_state: Seq<char>,
    detail: crate::json::JsonView,
    expected: ExpectedRefs,
)
    ensures
        ({
            let check = crate::merging::fence_check(
                fence,
                operation_id,
                operation_active,
                operation_state,
                detail,
                expected,
            );
            &&& check is Ok == (operation_active && is_as_expected(fence, detail, expected))
            &&& check is Err ==> check->Err_0 is Conflict
        }),
{
    crate::laws::values::records_are_at_one_revision(detail, fence.goal_revision);
}

/// What a merge needs is read exactly where the record names it, without the
/// white space around it.
pub proof fn what_a_merge_needs_is_read(
    record: crate::json::JsonView,
    key: Seq<char>,
    goal_id: Seq<char>,
)
    ensures
        ({
            let read = crate::merging::required_text(record, key, goal_id);
            &&& read is Ok == crate::laws::values::names_something(record, key)
            &&& read is Ok ==> read->Ok_0 == crate::text::trimmed(
                crate::laws::values::text_of(record, key),
            )
            &&& read is Err ==> read->Err_0 is Conflict
        }),
{
    crate::laws::values::named_texts_are_read(record, key);
}

/// The branch of a goal follows the configured pattern, or the usual one where
/// none is configured.
pub proof fn branches_follow_their_pattern(settings: crate::json::JsonView, goal_id: Seq<char>)
    ensures
        ({
            let key = "branch_name_pattern"@;
            &&& crate::laws::values::names_something(settings, key) ==> crate::merging::goal_branch(
                settings,
                goal_id,
            ) == crate::text::replaced_all(
                crate::text::trimmed(crate::laws::values::text_of(settings, key)),
                "{goal_id}"@,
                goal_id,
            )
            &&& !crate::laws::values::names_something(settings, key)
                ==> crate::merging::goal_branch(settings, goal_id) == "refine/"@ + goal_id
        }),
{
    crate::laws::values::named_texts_are_read(settings, "branch_name_pattern"@);
    usual_branches(goal_id);
}

proof fn usual_branches(goal_id: Seq<char>)
    ensures
        crate::text::replaced_all("refine/{goal_id}"@, "{goal_id}"@, goal_id) == "refine/"@
            + goal_id,
{
    reveal_strlit("refine/{goal_id}");
    reveal_strlit("{goal_id}");
    reveal_strlit("refine/");
    let part = "{goal_id}"@;
    let whole = "refine/{goal_id}"@;
    assert(part.len() == 9 && whole.len() == 16 && "refine/"@.len() == 7);
    assert(part[0] == '{');
    assert(whole =~= "refine/"@ + part);
    assert(whole.skip(7) =~= part);
    rest_is_kept(whole, part, goal_id, 7);
    assert(whole.skip(0) =~= whole);
    assert(whole.take(7) =~= "refine/"@);
}

proof fn rest_is_kept(whole: Seq<char>, part: Seq<char>, by: Seq<char>, n: int)
    requires
        part.len() > 0,
        0 <= n,
        whole.len() == n + part.len(),
        whole.skip(n) == part,
        forall|i: int| 0 <= i < n ==> #[trigger] whole[i] != part[0],
    ensures
        crate::text::replaced_all(whole, part, by) == whole.take(n) + by,
    decreases n,
{
    if n == 0 {
        assert(whole.skip(0) =~= whole);
        assert(whole.subrange(0, part.len() as int) =~= part);
        assert(whole.skip(part.len() as int) =~= Seq::empty());
        assert(crate::text::replaced_all(whole.skip(part.len() as int), part, by)
            =~= Seq::<char>::empty());
        assert(crate::text::replaced_all(whole, part, by) =~= by);
        assert(whole.take(0) + by =~= by);
    } else {
        assert(!crate::text::begins_with(whole, part)) by {
            if crate::text::begins_with(whole, part) {
                assert(whole.subrange(0, part.len() as int)[0] == whole[0]);
            }
        }
        let rest = whole.skip(1);
        assert(rest.skip(n - 1) =~= whole.skip(n));
        assert forall|i: int| 0 <= i < n - 1 implies #[trigger] rest[i] != part[0] by {
            assert(rest[i] == whole[i + 1]);
        }
        rest_is_kept(rest, part, by, n - 1);
        assert(seq![whole.first()] + (rest.take(n - 1) + by) =~= whole.take(n) + by);
    }
}

/// The operation that merges a round is named after the goal and the number of
/// the round, counted from one, and its request records what it merges.
pub proof fn operations_record_what_they_merge(
    fence: WorkflowExecutionFence,
    claim_id: Seq<char>,
    expected: ExpectedRefs,
)
    ensures
        crate::merging::operation_name(fence.goal_id@, fence.round_idx) == "merger:"@
            + fence.goal_id@ + ":"@ + crate::text::decimal((fence.round_idx + 1) as nat),
        ({
            let request = crate::merging::operation_request(fence, claim_id, expected);
            &&& crate::laws::values::says(request, "goal_id"@, fence.goal_id@)
            &&& crate::laws::values::counts(request, "round_idx"@, fence.round_idx as u64)
            &&& crate::laws::values::says(request, "claim_id"@, claim_id)
            &&& crate::laws::values::says(request, "execution_id"@, fence.execution_id@)
            &&& crate::laws::values::says(request, "node_id"@, fence.node_id@)
            &&& crate::laws::values::counts(request, "goal_revision"@, fence.goal_revision)
            &&& crate::laws::values::says(request, "candidate_commit"@, expected.candidate@)
            &&& crate::laws::values::says(request, "branch"@, expected.branch@)
            &&& crate::laws::values::says(request, "remote"@, expected.remote@)
        }),
{
    reveal_strlit("goal_id");
    reveal_strlit("round_idx");
    reveal_strlit("claim_id");
    reveal_strlit("execution_id");
    reveal_strlit("node_id");
    reveal_strlit("goal_revision");
    reveal_strlit("candidate_commit");
    reveal_strlit("branch");
    reveal_strlit("remote");
    assert("goal_id"@.len() == 7 && "round_idx"@.len() == 9 && "claim_id"@.len() == 8
        && "execution_id"@.len() == 12 && "node_id"@.len() == 7 && "goal_revision"@.len() == 13
        && "candidate_commit"@.len() == 16 && "branch"@.len() == 6 && "remote"@.len() == 6);
    assert("goal_id"@[0] == 'g' && "node_id"@[0] == 'n' && "branch"@[0] == 'b' && "remote"@[0]
        == 'r');
}

/// A settlement that meets no failure writes its fence, registers its
/// operation, merges, checks its fence again and only then settles the goal.
pub proof fn merges_are_settled_in_order(
    execution_id: Seq<char>,
    merge: crate::merging::integration::RunView,
    now: Seq<char>,
)
    ensures
        ({
            let a = crate::merging::settlement::fresh_settlement(execution_id, merge);
            let b = crate::merging::settlement::next_settlement(a, SettlementEvent::Done, now);
            let c = crate::merging::settlement::next_settlement(b, SettlementEvent::Done, now);
            &&& a.stage == SettlementStage::CommitFence
            &&& b.stage == SettlementStage::RegisterOperation
            &&& c.stage == SettlementStage::Integrate
            &&& a.merge == merge && b.merge == merge && c.merge == merge
            &&& a.error is None && b.error is None && c.error is None
        }),
{
}

/// The merge of a settlement takes its own events; the settlement goes on to
/// its last fence exactly where the merge is complete, and fails with the
/// merge's error where the merge failed.
pub proof fn settlements_follow_their_merge(
    run: crate::merging::settlement::SettlementView,
    event: crate::merging::integration::IntegrationEvent,
    now: Seq<char>,
)
    requires
        run.stage == SettlementStage::Integrate,
    ensures
        ({
            let merge = crate::merging::integration::next_run(run.merge, event, now);
            let next = crate::merging::settlement::next_settlement(
                run,
                SettlementEvent::Merge(event),
                now,
            );
            &&& next.merge == merge
            &&& next.execution_id == run.execution_id
            &&& (next.stage == SettlementStage::VerifyFence) == (merge.stage
                == IntegrationStage::Integrated)
            &&& (next.stage == SettlementStage::ReportFailure) == (merge.stage
                == IntegrationStage::Failed)
            &&& merge.stage == IntegrationStage::Failed ==> next.error == merge.error
            &&& merge.stage != IntegrationStage::Failed && merge.stage
                != IntegrationStage::Integrated ==> next.stage == SettlementStage::Integrate
                && next.error == run.error
        }),
{
}

/// After the last fence the goal is settled, with the evidence of its merge.
pub proof fn merges_are_settled_with_their_evidence(
    run: crate::merging::settlement::SettlementView,
    now: Seq<char>,
)
    requires
        run.stage == SettlementStage::VerifyFence,
    ensures
        ({
            let b = crate::merging::settlement::next_settlement(run, SettlementEvent::Done, now);
            let c = crate::merging::settlement::next_settlement(b, SettlementEvent::Done, now);
            &&& b.stage == SettlementStage::Settle
            &&& c.stage == SettlementStage::Settled
            &&& crate::merging::settlement::settled_evidence(run) == run.merge.evidence
            &&& crate::merging::settlement::settled_evidence(b) == run.merge.evidence
            &&& crate::merging::settlement::settled_evidence(c) == run.merge.evidence
        }),
{
}

/// Evidence is given to nobody before the merge is complete, and to nobody
/// after a failure.
pub proof fn evidence_is_not_given_early(run: crate::merging::settlement::SettlementView)
    requires
        run.stage == SettlementStage::CommitFence || run.stage
            == SettlementStage::RegisterOperation || run.stage == SettlementStage::Integrate
            || run.stage == SettlementStage::ReportFailure || run.stage
            == SettlementStage::Failed,
    ensures
        crate::merging::settlement::settled_evidence(run) is None,
{
}

/// A failure before the operation is registered ends the settlement; a later
/// one is reported to the operation first. The error is kept.
pub proof fn failures_are_reported_once_registered(
    run: crate::merging::settlement::SettlementView,
    error: crate::errors::RefineError,
    now: Seq<char>,
)
    ensures
        ({
            let next = crate::merging::settlement::next_settlement(
                run,
                SettlementEvent::Failed(error),
                now,
            );
            &&& run.stage == SettlementStage::CommitFence || run.stage
                == SettlementStage::RegisterOperation ==> next.stage == SettlementStage::Failed
                && next.error == Some(error@)
            &&& run.stage == SettlementStage::Integrate || run.stage
                == SettlementStage::VerifyFence || run.stage == SettlementStage::Settle
                ==> next.stage == SettlementStage::ReportFailure && next.error == Some(error@)
            &&& run.stage == SettlementStage::Settled || run.stage == SettlementStage::Failed
                || run.stage == SettlementStage::ReportFailure ==> next == run
        }),
{
}

/// A reported failure is recorded under its code and with its text; after a
/// cancellation nothing is recorded and the error says that it was cancelled.
pub proof fn failures_are_recorded_unless_cancelled(
    run: crate::merging::settlement::SettlementView,
    cancelled: bool,
)
    requires
        run.error is Some,
    ensures
        ({
            let (after, record) = crate::merging::settlement::failure_reported(run, cancelled);
            &&& after.stage == SettlementStage::Failed
            &&& after.merge == run.merge
            &&& cancelled ==> record is None && after.error is Some && after.error->0 is Conflict
            &&& !cancelled ==> after.error == run.error && record is Some
                && crate::laws::values::says(record->0, "execution_id"@, run.execution_id)
                && crate::laws::values::says(
                record->0,
                "message"@,
                crate::errors::described(run.error->0),
            )
            &&& !cancelled && run.error->0 is StaleCandidate ==> crate::laws::values::says(
                record->0,
                "code"@,
                "ready_merge_candidate_stale"@,
            )
            &&& !cancelled && !(run.error->0 is StaleCandidate) ==> crate::laws::values::says(
                record->0,
                "code"@,
                "ready_merge_integration_failed"@,
            )
        }),
{
    reveal_strlit("code");
    reveal_strlit("message");
    reveal_strlit("execution_id");
    assert("code"@.len() == 4 && "message"@.len() == 7 && "execution_id"@.len() == 12);
}

} // verus!

//! What is recorded of a stop, and what a stop settles.
use vstd::prelude::*;

use crate::model::GoalSummaryProjection;
use crate::process_control::ownership::{
    ManagedProcess, WorkflowClaim, WorkflowClaimState, WorkflowOwnershipPhase, WorktreeRead,
};
use crate::process_control::receipts::{
    DurableReceiptBoundary, ReceiptEvent, ReceiptStage, ReceiptWrite, StopContext,
    TerminationEvent, TerminationIntent, TerminationRun, TerminationStage,
};
use crate::process_control::termination::{
    AgentStopLinks, CancellableClaim, ChatSession, GoalSettlement, ManagedCancellation,
    RecoveredTermination,
};

verus! {

/// The kind of an error.
pub open spec fn same_kind(a: crate::errors::ErrorView, b: crate::errors::ErrorView) -> bool {
    ||| a is InvalidInput && b is InvalidInput
    ||| a is NotFound && b is NotFound
    ||| a is Unauthorized && b is Unauthorized
    ||| a is Conflict && (b is Conflict || b is StaleCandidate)
    ||| a is Degraded && b is Degraded
    ||| a is Io && b is Io
    ||| a is Serialization && b is Serialization
    ||| a is NotImplemented && b is NotImplemented
}

proof fn receipt_keys_differ()
    ensures
        "state"@ != "process_id"@,
        "state"@ != "goal_id"@,
        "state"@ != "workflow"@,
        "state"@ != "requested_termination_intent"@,
        "state"@ != "termination_intent"@,
        "state"@ != "goal_disposition"@,
        "state"@ != "worktree"@,
        "state"@ != "recorded_at"@,
        "state"@ != "termination"@,
        "state"@ != "confirmed_exit"@,
        "state"@ != "registry_cleanup_completed"@,
        "state"@ != "identity_cleanup_completed"@,
        "state"@ != "goal_cancelled"@,
        "state"@ != "goal_requeued"@,
        "state"@ != "claim_cancelled"@,
        "state"@ != "worktree_retention"@,
        "state"@ != "recovery"@,
        "process_id"@ != "goal_id"@,
        "process_id"@ != "workflow"@,
        "process_id"@ != "requested_termination_intent"@,
        "process_id"@ != "termination_intent"@,
        "process_id"@ != "goal_disposition"@,
        "process_id"@ != "worktree"@,
        "process_id"@ != "recorded_at"@,
        "process_id"@ != "termination"@,
        "process_id"@ != "confirmed_exit"@,
        "process_id"@ != "registry_cleanup_completed"@,
        "process_id"@ != "identity_cleanup_completed"@,
        "process_id"@ != "goal_cancelled"@,
        "process_id"@ != "goal_requeued"@,
        "process_id"@ != "claim_cancelled"@,
        "process_id"@ != "worktree_retention"@,
        "process_id"@ != "recovery"@,
        "goal_id"@ != "workflow"@,
        "goal_id"@ != "requested_termination_intent"@,
        "goal_id"@ != "termination_intent"@,
        "goal_id"@ != "goal_disposition"@,
        "goal_id"@ != "worktree"@,
        "goal_id"@ != "recorded_at"@,
        "goal_id"@ != "termination"@,
        "goal_id"@ != "confirmed_exit"@,
        "goal_id"@ != "registry_cleanup_completed"@,
        "goal_id"@ != "identity_cleanup_completed"@,
        "goal_id"@ != "goal_cancelled"@,
        "goal_id"@ != "goal_requeued"@,
        "goal_id"@ != "claim_cancelled"@,
        "goal_id"@ != "worktree_retention"@,
        "goal_id"@ != "recovery"@,
        "workflow"@ != "requested_termination_intent"@,
        "workflow"@ != "termination_intent"@,
        "workflow"@ != "goal_disposition"@,
        "workflow"@ != "worktree"@,
        "workflow"@ != "recorded_at"@,
        "workflow"@ != "termination"@,
        "workflow"@ != "confirmed_exit"@,
        "workflow"@ != "registry_cleanup_completed"@,
        "workflow"@ != "identity_cleanup_completed"@,
        "workflow"@ != "goal_cancelled"@,
        "workflow"@ != "goal_requeued"@,
        "workflow"@ != "claim_cancelled"@,
        "workflow"@ != "worktree_retention"@,
        "workflow"@ != "recovery"@,
        "requested_termination_intent"@ != "termination_intent"@,
        "requested_termination_intent"@ != "goal_disposition"@,
        "requested_termination_intent"@ != "worktree"@,
        "requested_termination_intent"@ != "recorded_at"@,
        "requested_termination_intent"@ != "termination"@,
        "requested_termination_intent"@ != "confirmed_exit"@,
        "requested_termination_intent"@ != "registry_cleanup_completed"@,
        "requested_termination_intent"@ != "identity_cleanup_completed"@,
        "requested_termination_intent"@ != "goal_cancelled"@,
        "requested_termination_intent"@ != "goal_requeued"@,
        "requested_termination_intent"@ != "claim_cancelled"@,
        "requested_termination_intent"@ != "worktree_retention"@,
        "requested_termination_intent"@ != "recovery"@,
        "termination_intent"@ != "goal_disposition"@,
        "termination_intent"@ != "worktree"@,
        "termination_intent"@ != "recorded_at"@,
        "termination_intent"@ != "termination"@,
        "termination_intent"@ != "confirmed_exit"@,
        "termination_intent"@ != "registry_cleanup_completed"@,
        "termination_intent"@ != "identity_cleanup_completed"@,
        "termination_intent"@ != "goal_cancelled"@,
        "termination_intent"@ != "goal_requeued"@,
        "termination_intent"@ != "claim_cancelled"@,
        "termination_intent"@ != "worktree_retention"@,
        "termination_intent"@ != "recovery"@,
        "goal_disposition"@ != "worktree"@,
        "goal_disposition"@ != "recorded_at"@,
        "goal_disposition"@ != "termination"@,
        "goal_disposition"@ != "confirmed_exit"@,
        "goal_disposition"@ != "registry_cleanup_completed"@,
        "goal_disposition"@ != "identity_cleanup_completed"@,
        "goal_disposition"@ != "goal_cancelled"@,
        "goal_disposition"@ != "goal_requeued"@,
        "goal_disposition"@ != "claim_cancelled"@,
        "goal_disposition"@ != "worktree_retention"@,
        "goal_disposition"@ != "recovery"@,
        "worktree"@ != "recorded_at"@,
        "worktree"@ != "termination"@,
        "worktree"@ != "confirmed_exit"@,
        "worktree"@ != "registry_cleanup_completed"@,
        "worktree"@ != "identity_cleanup_completed"@,
        "worktree"@ != "goal_cancelled"@,
        "worktree"@ != "goal_requeued"@,
        "worktree"@ != "claim_cancelled"@,
        "worktree"@ != "worktree_retention"@,
        "worktree"@ != "recovery"@,
        "recorded_at"@ != "termination"@,
        "recorded_at"@ != "confirmed_exit"@,
        "recorded_at"@ != "registry_cleanup_completed"@,
        "recorded_at"@ != "identity_cleanup_completed"@,
        "recorded_at"@ != "goal_cancelled"@,
        "recorded_at"@ != "goal_requeued"@,
        "recorded_at"@ != "claim_cancelled"@,
        "recorded_at"@ != "worktree_retention"@,
        "recorded_at"@ != "recovery"@,
        "termination"@ != "confirmed_exit"@,
        "termination"@ != "registry_cleanup_completed"@,
        "termination"@ != "identity_cleanup_completed"@,
        "termination"@ != "goal_cancelled"@,
        "termination"@ != "goal_requeued"@,
        "termination"@ != "claim_cancelled"@,
        "termination"@ != "worktree_retention"@,
        "termination"@ != "recovery"@,
        "confirmed_exit"@ != "registry_cleanup_completed"@,
        "confirmed_exit"@ != "identity_cleanup_completed"@,
        "confirmed_exit"@ != "goal_cancelled"@,
        "confirmed_exit"@ != "goal_requeued"@,
        "confirmed_exit"@ != "claim_cancelled"@,
        "confirmed_exit"@ != "worktree_retention"@,
        "confirmed_exit"@ != "recovery"@,
        "registry_cleanup_completed"@ != "identity_cleanup_completed"@,
        "registry_cleanup_completed"@ != "goal_cancelled"@,
        "registry_cleanup_completed"@ != "goal_requeued"@,
        "registry_cleanup_completed"@ != "claim_cancelled"@,
        "registry_cleanup_completed"@ != "worktree_retention"@,
        "registry_cleanup_completed"@ != "recovery"@,
        "identity_cleanup_completed"@ != "goal_cancelled"@,
        "identity_cleanup_completed"@ != "goal_requeued"@,
        "identity_cleanup_completed"@ != "claim_cancelled"@,
        "identity_cleanup_completed"@ != "worktree_retention"@,
        "identity_cleanup_completed"@ != "recovery"@,
        "goal_cancelled"@ != "goal_requeued"@,
        "goal_cancelled"@ != "claim_cancelled"@,
        "goal_cancelled"@ != "worktree_retention"@,
        "goal_cancelled"@ != "recovery"@,
        "goal_requeued"@ != "claim_cancelled"@,
        "goal_requeued"@ != "worktree_retention"@,
        "goal_requeued"@ != "recovery"@,
        "claim_cancelled"@ != "worktree_retention"@,
        "claim_cancelled"@ != "recovery"@,
        "worktree_retention"@ != "recovery"@,
{
    reveal_strlit("state");
    reveal_strlit("process_id");
    reveal_strlit("goal_id");
    reveal_strlit("workflow");
    reveal_strlit("requested_termination_intent");
    reveal_strlit("termination_intent");
    reveal_strlit("goal_disposition");
    reveal_strlit("worktree");
    reveal_strlit("recorded_at");
    reveal_strlit("termination");
    reveal_strlit("confirmed_exit");
    reveal_strlit("registry_cleanup_completed");
    reveal_strlit("identity_cleanup_completed");
    reveal_strlit("goal_cancelled");
    reveal_strlit("goal_requeued");
    reveal_strlit("claim_cancelled");
    reveal_strlit("worktree_retention");
    reveal_strlit("recovery");
    assert("state"@.len() == 5);
    assert("process_id"@.len() == 10);
    assert("goal_id"@.len() == 7);
    assert("workflow"@.len() == 8);
    assert("requested_termination_intent"@.len() == 28);
    assert("termination_intent"@.len() == 18);
    assert("goal_disposition"@.len() == 16);
    assert("worktree"@.len() == 8);
    assert("recorded_at"@.len() == 11);
    assert("termination"@.len() == 11);
    assert("confirmed_exit"@.len() == 14);
    assert("registry_cleanup_completed"@.len() == 26);
    assert("identity_cleanup_completed"@.len() == 26);
    assert("goal_cancelled"@.len() == 14);
    assert("goal_requeued"@.len() == 13);
    assert("claim_cancelled"@.len() == 15);
    assert("worktree_retention"@.len() == 18);
    assert("recovery"@.len() == 8);
    assert("workflow"@[0] == 'w');
    assert("workflow"@[4] == 'f');
    assert("termination_intent"@[0] == 't');
    assert("worktree"@[0] == 'w');
    assert("worktree"@[4] == 't');
    assert("recorded_at"@[0] == 'r');
    assert("termination"@[0] == 't');
    assert("confirmed_exit"@[0] == 'c');
    assert("registry_cleanup_completed"@[0] == 'r');
    assert("identity_cleanup_completed"@[0] == 'i');
    assert("goal_cancelled"@[0] == 'g');
    assert("worktree_retention"@[0] == 'w');
    assert("recovery"@[0] == 'r');
}

/// What every receipt of an exit says: whose exit it is, why it was asked for,
/// that it is confirmed, how far it was cleaned up, and that nothing else was
/// settled.
pub open spec fn tells_of_the_exit(
    receipt: crate::json::JsonView,
    context: StopContext,
    recorded_at: Seq<char>,
    termination: crate::json::JsonView,
    cleaned: bool,
) -> bool {
    let yes = crate::json::JsonView::Bool(true);
    let no = crate::json::JsonView::Bool(false);
    let done = crate::json::JsonView::Bool(cleaned);
    &&& crate::laws::values::says(receipt, "process_id"@, context.process_id@)
    &&& context.goal_id is Some ==> crate::laws::values::says(receipt, "goal_id"@, (context.goal_id->0)@)
    &&& context.goal_id is None ==> crate::laws::values::holds(receipt, "goal_id"@, crate::json::JsonView::Null)
    &&& context.workflow is None ==> crate::laws::values::holds(receipt, "workflow"@, crate::json::JsonView::Null)
    &&& context.workflow is Some ==> crate::laws::values::has_key(receipt, "workflow"@) && tells_the_owner(
        receipt->Object_0["workflow"@],
        (context.workflow->0)@,
    )
    &&& crate::laws::values::says(receipt, "requested_termination_intent"@, context.intent.name@)
    &&& crate::laws::values::says(receipt, "termination_intent"@, context.intent.name@)
    &&& crate::laws::values::says(receipt, "goal_disposition"@, context.intent.disposition@)
    &&& crate::laws::values::holds(receipt, "worktree"@, context.worktree@)
    &&& crate::laws::values::says(receipt, "recorded_at"@, recorded_at)
    &&& crate::laws::values::holds(receipt, "termination"@, termination)
    &&& crate::laws::values::holds(receipt, "confirmed_exit"@, yes)
    &&& crate::laws::values::holds(receipt, "registry_cleanup_completed"@, done)
    &&& crate::laws::values::holds(receipt, "identity_cleanup_completed"@, done)
    &&& crate::laws::values::holds(receipt, "goal_cancelled"@, no)
    &&& crate::laws::values::holds(receipt, "goal_requeued"@, no)
    &&& crate::laws::values::holds(receipt, "claim_cancelled"@, no)
    &&& crate::laws::values::holds(receipt, "worktree_retention"@, context.worktree_retention@)
}

/// The record of an owner names the process, its claim, its execution and its
/// round, as far as they are known.
pub open spec fn tells_the_owner(
    record: crate::json::JsonView,
    owner: crate::process_control::ownership::OwnershipView,
) -> bool {
    &&& crate::laws::values::says(record, "process_id"@, owner.process_id)
    &&& crate::laws::values::says(record, "claim_id"@, owner.claim_id)
    &&& owner.execution_id is Some ==> crate::laws::values::says(record, "execution_id"@, owner.execution_id->0)
    &&& owner.execution_id is None ==> crate::laws::values::holds(record, "execution_id"@, crate::json::JsonView::Null)
    &&& owner.round_idx is Some ==> crate::laws::values::counts(record, "round_idx"@, owner.round_idx->0 as u64)
    &&& owner.round_idx is None ==> crate::laws::values::holds(record, "round_idx"@, crate::json::JsonView::Null)
}

proof fn owner_keys_differ()
    ensures
        "process_id"@ != "claim_id"@,
        "process_id"@ != "execution_id"@,
        "process_id"@ != "round_idx"@,
        "claim_id"@ != "execution_id"@,
        "claim_id"@ != "round_idx"@,
        "execution_id"@ != "round_idx"@,
{
    reveal_strlit("process_id");
    reveal_strlit("claim_id");
    reveal_strlit("execution_id");
    reveal_strlit("round_idx");
    assert("process_id"@.len() == 10);
    assert("claim_id"@.len() == 8);
    assert("execution_id"@.len() == 12);
    assert("round_idx"@.len() == 9);
}

/// Owners are recorded with all that is known of them.
pub proof fn owners_are_recorded(owner: crate::process_control::ownership::OwnershipView)
    ensures
        tells_the_owner(crate::process_control::receipts::ownership_record(owner), owner),
{
    owner_keys_differ();
}

/// The receipt before cleanup says that cleanup is to come, and the one after it
/// that it is done.
pub proof fn receipts_tell_of_the_exit(
    context: StopContext,
    recorded_at: Seq<char>,
    termination: crate::json::JsonView,
)
    ensures
        ({
            let before = crate::process_control::receipts::cleanup_pending_receipt(context, recorded_at, termination);
            let after = crate::process_control::receipts::settlement_pending_receipt(context, recorded_at, termination);
            &&& tells_of_the_exit(before, context, recorded_at, termination, false)
            &&& crate::laws::values::says(before, "state"@, "confirmed_exit_cleanup_pending"@)
            &&& tells_of_the_exit(after, context, recorded_at, termination, true)
            &&& crate::laws::values::says(after, "state"@, "confirmed_exit_settlement_pending"@)
        }),
{
    receipt_keys_differ();
    if context.workflow is Some {
        owners_are_recorded((context.workflow->0)@);
    }
}

/// A termination that meets no failure records the exit before it cleans up,
/// records the cleanup after it, and keeps what each of them gave.
pub proof fn exits_are_recorded_around_their_cleanup(run: TerminationRun, event: TerminationEvent)
    ensures
        ({
            let stage = crate::process_control::receipts::next_termination_stage(run.stage, event);
            let outcome = crate::process_control::receipts::next_termination_outcome(run, event);
            let error = crate::process_control::receipts::next_termination_error(run, event);
            &&& run.stage == TerminationStage::Terminate && event is Exited ==> stage
                == TerminationStage::RecordExit && outcome == (event->Exited_0)@
            &&& run.stage == TerminationStage::RecordExit && event is Recorded ==> stage
                == TerminationStage::CleanUp && outcome == run.termination@
            &&& run.stage == TerminationStage::CleanUp && event is CleanedUp ==> stage
                == TerminationStage::RecordCleanup && outcome == (event->CleanedUp_0)@
            &&& run.stage == TerminationStage::RecordCleanup && event is Recorded ==> stage
                == TerminationStage::Returned && outcome == run.termination@
            &&& event is Exited || event is Recorded || event is CleanedUp ==> error
                == crate::errors::error_view(run.error)
        }),
{
}

/// A termination whose exit is not confirmed fails with the same kind of error;
/// a later failure is retained first, and fails with what retaining it gave.
pub proof fn failed_terminations_are_retained(run: TerminationRun, event: TerminationEvent)
    ensures
        ({
            let stage = crate::process_control::receipts::next_termination_stage(run.stage, event);
            let error = crate::process_control::receipts::next_termination_error(run, event);
            &&& run.stage == TerminationStage::Terminate && event is ExitFailed ==> stage
                == TerminationStage::Failed && error is Some && same_kind(
                error->0,
                (event->ExitFailed_0)@,
            )
            &&& (run.stage == TerminationStage::RecordExit || run.stage
                == TerminationStage::RecordCleanup) && event is RecordFailed ==> stage
                == TerminationStage::Retain && error == Some((event->RecordFailed_0)@)
            &&& run.stage == TerminationStage::CleanUp && event is CleanupFailed ==> stage
                == TerminationStage::Retain && error == Some((event->CleanupFailed_1)@)
                && crate::process_control::receipts::next_termination_outcome(run, event) == (event->CleanupFailed_0)@
            &&& run.stage == TerminationStage::Retain && event is Retained ==> stage
                == TerminationStage::Failed && error == Some((event->Retained_0)@)
            &&& run.stage == TerminationStage::Returned || run.stage == TerminationStage::Failed
                ==> stage == run.stage
        }),
{
}

/// A stop failure keeps its kind, says what it said, and names the process that
/// is to be retried and the goal that is left alone.
pub proof fn stop_failures_say_what_is_left(
    error: crate::errors::ErrorView,
    process_id: Seq<char>,
    goal_id: Seq<char>,
)
    ensures
        ({
            let alone = crate::process_control::receipts::stop_failure(error, process_id, None);
            let linked = crate::process_control::receipts::stop_failure(error, process_id, Some(goal_id));
            let tail = "; retry process "@ + process_id + " after recovery"@;
            &&& same_kind(alone, error) && same_kind(linked, error)
            &&& crate::errors::described(alone) == crate::errors::described(error) + tail
            &&& crate::errors::described(linked) == crate::errors::described(error)
                + "; linked Goal "@ + goal_id + " remains non-cancelled"@ + tail
        }),
{
    let tail = "; retry process "@ + process_id + " after recovery"@;
    let alone = crate::process_control::receipts::stop_failure(error, process_id, None);
    let linked = crate::process_control::receipts::stop_failure(error, process_id, Some(goal_id));
    assert(crate::errors::described(alone) =~= crate::errors::described(error) + tail);
    assert(crate::errors::described(linked) =~= crate::errors::described(error)
        + "; linked Goal "@ + goal_id + " remains non-cancelled"@ + tail);
}

/// A flag of a termination is its own where it has one, and otherwise it is set
/// exactly where every process of the group has it set.
pub proof fn flags_hold_of_every_process(termination: crate::json::JsonView, key: Seq<char>)
    ensures
        crate::laws::values::holds(termination, key, crate::json::JsonView::Bool(true)) ==> crate::process_control::receipts::outcome_flag(
            termination,
            key,
        ),
        crate::laws::values::holds(termination, key, crate::json::JsonView::Bool(false)) ==> !crate::process_control::receipts::outcome_flag(
            termination,
            key,
        ),
        !(crate::laws::values::has_key(termination, key) && termination->Object_0[key] is Bool) ==> crate::process_control::receipts::outcome_flag(
            termination,
            key,
        ) == (crate::laws::values::has_list(termination, "managed_processes"@) && forall|i: int|
            0 <= i < crate::laws::values::list_of(termination, "managed_processes"@).len() ==> crate::laws::values::holds(
                #[trigger] crate::laws::values::list_of(termination, "managed_processes"@)[i],
                key,
                crate::json::JsonView::Bool(true),
            )),
{
    if crate::laws::values::has_list(termination, "managed_processes"@) {
        let processes = crate::laws::values::list_of(termination, "managed_processes"@);
        assert forall|i: int| 0 <= i < processes.len() implies (crate::json::field(
            #[trigger] processes[i],
            key,
        ) == Some(crate::json::JsonView::Bool(true))) == crate::laws::values::holds(
            processes[i],
            key,
            crate::json::JsonView::Bool(true),
        ) by {}
    }
}

/// The effects of a durable write in their order: a temporary file is written
/// and synced, takes the place of the receipt, and then the directory is synced.
pub open spec fn write_effects() -> Seq<ReceiptStage> {
    seq![
        ReceiptStage::CreateDirectory,
        ReceiptStage::CreateTemporary,
        ReceiptStage::WriteTemporary,
        ReceiptStage::SyncTemporary,
        ReceiptStage::Observe(DurableReceiptBoundary::FileSyncedBeforeRename),
        ReceiptStage::Rename,
        ReceiptStage::Observe(DurableReceiptBoundary::RenamedBeforeDirectorySync),
        ReceiptStage::SyncDirectory,
        ReceiptStage::Observe(DurableReceiptBoundary::DirectorySynced),
        ReceiptStage::Written,
    ]
}

/// A durable write takes its effects in their order; one that fails before the
/// receipt is replaced removes the temporary file, unless there is none yet, and
/// one that fails later leaves the receipt as it is.
pub proof fn receipts_are_written_in_order(n: int)
    requires
        0 <= n < 9,
    ensures
        crate::process_control::receipts::next_receipt_stage(write_effects()[n], true) == write_effects()[n + 1],
        n == 0 || n > 5 ==> crate::process_control::receipts::next_receipt_stage(write_effects()[n], false)
            == ReceiptStage::Failed,
        1 <= n <= 5 ==> crate::process_control::receipts::next_receipt_stage(write_effects()[n], false)
            == ReceiptStage::RemoveTemporary,
        crate::process_control::receipts::next_receipt_stage(ReceiptStage::RemoveTemporary, true) == ReceiptStage::Failed,
        crate::process_control::receipts::next_receipt_stage(ReceiptStage::RemoveTemporary, false) == ReceiptStage::Failed,
{
}

/// The first failure of a durable write is the one that it ends with.
pub proof fn the_first_failure_of_a_write_stands(write: ReceiptWrite, event: ReceiptEvent)
    ensures
        ({
            let error = crate::process_control::receipts::next_receipt_error(write, event);
            let over = write.stage is RemoveTemporary || write.stage is Written
                || write.stage is Failed;
            &&& over || event is Succeeded ==> error == crate::errors::error_view(write.error)
            &&& !over && event is IoFailed ==> error is Some && error->0 is Io
            &&& !over && event is Refused ==> error == Some((event->Refused_0)@)
        }),
{
}

/// The temporary file of a receipt stands beside it, hidden, under its name and
/// a unique one.
pub proof fn temporary_files_stand_beside_their_receipt(
    parent: Seq<char>,
    file_name: Seq<char>,
    unique: Seq<char>,
)
    ensures
        crate::process_control::receipts::temporary_path(parent, Some(file_name), unique) == crate::paths::joined(
            parent,
            "."@ + file_name + "."@ + unique + ".tmp"@,
        ),
        crate::process_control::receipts::temporary_path(parent, None, unique) == crate::paths::joined(
            parent,
            "."@ + "process-stop-receipt"@ + "."@ + unique + ".tmp"@,
        ),
{
}

/// A managed cancellation cancels the operations, then the execution, then
/// confirms the operations; any failure ends it.
pub proof fn operations_are_cancelled_around_the_execution(stage: ManagedCancellation)
    ensures
        crate::process_control::termination::next_managed(ManagedCancellation::CancelOperations, true)
            == ManagedCancellation::CancelExecution,
        crate::process_control::termination::next_managed(ManagedCancellation::CancelExecution, true)
            == ManagedCancellation::ConfirmOperations,
        crate::process_control::termination::next_managed(ManagedCancellation::ConfirmOperations, true)
            == ManagedCancellation::Cancelled,
        stage == ManagedCancellation::CancelOperations || stage
            == ManagedCancellation::CancelExecution || stage
            == ManagedCancellation::ConfirmOperations ==> crate::process_control::termination::next_managed(stage, false)
            == ManagedCancellation::Failed,
        stage == ManagedCancellation::Cancelled || stage == ManagedCancellation::Failed
            ==> crate::process_control::termination::next_managed(stage, true) == stage && crate::process_control::termination::next_managed(stage, false) == stage,
{
}

/// Every state of a claim is stored under its own name.
pub proof fn claim_states_are_stored_by_name()
    ensures
        crate::process_control::termination::claim_state_name(WorkflowClaimState::Claimed) == "claimed"@,
        crate::process_control::termination::claim_state_name(WorkflowClaimState::Running) == "running"@,
        crate::process_control::termination::claim_state_name(WorkflowClaimState::Completed) == "completed"@,
        crate::process_control::termination::claim_state_name(WorkflowClaimState::Failed) == "failed"@,
        crate::process_control::termination::claim_state_name(WorkflowClaimState::Cancelled) == "cancelled"@,
        crate::process_control::termination::claim_state_name(WorkflowClaimState::Interrupted) == "interrupted"@,
{
}

/// An execution is cancelled exactly where its first claim is running; one that
/// is cancelled already is told so, any other is refused, and so is one that is
/// not named or not claimed.
pub proof fn only_running_executions_are_cancelled(
    claims: Seq<WorkflowClaim>,
    raw_id: Seq<char>,
    at: int,
)
    ensures
        ({
            let outcome = crate::process_control::termination::cancellable_outcome(claims, raw_id);
            let id = crate::text::trimmed(raw_id);
            let named = !crate::laws::texts::only_spaces(raw_id);
            &&& !named ==> outcome is Err && outcome->Err_0 is InvalidInput
            &&& named && (forall|i: int|
                0 <= i < claims.len() ==> !crate::laws::claiming::runs(#[trigger] claims[i], id))
                ==> outcome is Err && outcome->Err_0 is NotFound
            &&& named && crate::laws::claiming::first_claim_of(claims, id, at) ==> {
                let claim = claims[at];
                &&& claim.state is Running ==> outcome is Ok && outcome->Ok_0
                    == CancellableClaim::Running(claim)
                &&& claim.state is Cancelled ==> outcome is Ok && outcome->Ok_0
                    == CancellableClaim::AlreadyCancelled(claim)
                &&& !(claim.state is Running) && !(claim.state is Cancelled) ==> outcome is Err
                    && outcome->Err_0 is Conflict
            }
        }),
{
    crate::laws::texts::blank_texts_hold_only_white_space(raw_id);
    let id = crate::text::trimmed(raw_id);
    crate::laws::claiming::claims_are_found_by_execution(claims, id);
    if crate::process_control::ownership::claim_with_execution(claims, id) is Some {
        let k = choose|k: int| #[trigger] crate::laws::claiming::first_claim_of(claims, id, k);
        assert(crate::laws::claiming::runs(claims[k], id));
    }
}

/// The cancellation of an execution first needs its name, then the lock, then,
/// where the service is bound, a replay that finds nothing; only then is its
/// claim looked at.
pub proof fn cancellations_begin_in_order(
    bound: bool,
    raw_id: Seq<char>,
    registration: Result<(), crate::errors::ErrorView>,
    replayed: Result<Option<crate::json::JsonView>, crate::errors::ErrorView>,
    claims: Result<Seq<WorkflowClaim>, crate::errors::ErrorView>,
)
    ensures
        ({
            let start = crate::process_control::termination::cancellation_start(bound, raw_id, registration, replayed, claims);
            let named = !crate::laws::texts::only_spaces(raw_id);
            let ready = named && registration is Ok;
            let clear = ready && (!bound || replayed is Ok && replayed->Ok_0 is None);
            &&& !named ==> start is Err && start->Err_0 is InvalidInput
            &&& named && registration is Err ==> start is Err && start->Err_0
                == registration->Err_0
            &&& ready && bound && replayed is Err ==> start is Err && start->Err_0
                == replayed->Err_0
            &&& ready && bound && replayed is Ok && replayed->Ok_0 is Some ==> start is Ok
                && start->Ok_0 == crate::process_control::termination::CancellationStartView::Replayed(replayed->Ok_0->0)
            &&& clear && claims is Err ==> start is Err && start->Err_0 == claims->Err_0
            &&& clear && claims is Ok ==> start is Ok == crate::process_control::termination::cancellable_outcome(
                claims->Ok_0,
                raw_id,
            ) is Ok
            &&& clear && claims is Ok && start is Ok ==> start->Ok_0
                == crate::process_control::termination::CancellationStartView::Claim(crate::process_control::termination::cancellable_outcome(claims->Ok_0, raw_id)->Ok_0)
        }),
{
    crate::laws::texts::blank_texts_hold_only_white_space(raw_id);
}

/// A process that is gone is reported as it was retained, and as not found
/// where nothing was.
pub proof fn retained_outcomes_are_given_back(
    process_id: Seq<char>,
    recovered: Result<Option<crate::json::JsonView>, crate::errors::ErrorView>,
)
    ensures
        ({
            let outcome = crate::process_control::termination::recovered_outcome(process_id, recovered);
            &&& recovered is Err ==> outcome is Err && outcome->Err_0 == recovered->Err_0
            &&& recovered is Ok && recovered->Ok_0 is Some ==> outcome is Ok && outcome->Ok_0
                == recovered->Ok_0->0
            &&& recovered is Ok && recovered->Ok_0 is None ==> outcome is Err
                && outcome->Err_0 is NotFound
        }),
{
}

/// A process works for a claim and an execution.
pub open spec fn works_for(
    goals: Map<Seq<char>, GoalSummaryProjection>,
    claims: Seq<WorkflowClaim>,
    claim: WorkflowClaim,
    execution: Seq<char>,
    process: ManagedProcess,
) -> bool {
    let fence = crate::process_control::ownership::fence_outcome(
        goals,
        claims,
        claim.goal_id@,
        process.id@,
        crate::process_control::ownership::metadata_of(process.details),
        WorkflowOwnershipPhase::BeforeTermination,
    );
    fence is Ok && fence->Ok_0.workflow is Some && fence->Ok_0.workflow->0.claim_id
        == claim.claim_id@ && fence->Ok_0.workflow->0.execution_id == Some(execution)
}

/// The owners of an execution's processes are known exactly where every one of
/// them works for it; then they stand in the order of the processes.
pub proof fn every_process_works_for_the_execution(
    goals: Map<Seq<char>, GoalSummaryProjection>,
    claims: Seq<WorkflowClaim>,
    claim: WorkflowClaim,
    execution: Seq<char>,
    managed: Seq<ManagedProcess>,
)
    ensures
        ({
            let owners = crate::process_control::termination::execution_owners(goals, claims, claim, execution, managed);
            &&& owners is Ok == forall|i: int|
                0 <= i < managed.len() ==> works_for(
                    goals,
                    claims,
                    claim,
                    execution,
                    #[trigger] managed[i],
                )
            &&& owners is Ok ==> owners->Ok_0.len() == managed.len() && forall|i: int|
                0 <= i < managed.len() ==> (#[trigger] owners->Ok_0[i]).process_id
                    == managed[i].id@ && owners->Ok_0[i].claim_id == claim.claim_id@
                    && owners->Ok_0[i].execution_id == Some(execution)
        }),
    decreases managed.len(),
{
    if managed.len() > 0 {
        let rest = managed.drop_last();
        let last: int = managed.len() - 1;
        every_process_works_for_the_execution(goals, claims, claim, execution, rest);
        assert(managed[last] == managed.last());
        assert forall|i: int| 0 <= i < rest.len() implies #[trigger] rest[i] == managed[i] by {}
        let owners = crate::process_control::termination::execution_owners(goals, claims, claim, execution, managed);
        if owners is Ok {
            assert forall|i: int| 0 <= i < managed.len() implies works_for(
                goals,
                claims,
                claim,
                execution,
                #[trigger] managed[i],
            ) by {
                if i < last {
                    assert(works_for(goals, claims, claim, execution, rest[i]));
                }
            }
            assert forall|i: int| 0 <= i < managed.len() implies (
            #[trigger] owners->Ok_0[i]).process_id == managed[i].id@ && owners->Ok_0[i].claim_id
                == claim.claim_id@ && owners->Ok_0[i].execution_id == Some(execution) by {
                if i < last {
                    let before = crate::process_control::termination::execution_owners(goals, claims, claim, execution, rest)->Ok_0;
                    assert(owners->Ok_0[i] == before[i]);
                    assert(rest[i] == managed[i]);
                }
            }
        } else if forall|i: int|
            0 <= i < managed.len() ==> works_for(
                goals,
                claims,
                claim,
                execution,
                #[trigger] managed[i],
            ) {
            assert(works_for(goals, claims, claim, execution, managed[last]));
            assert forall|i: int| 0 <= i < rest.len() implies works_for(
                goals,
                claims,
                claim,
                execution,
                #[trigger] rest[i],
            ) by {
                assert(works_for(goals, claims, claim, execution, managed[i]));
            }
        }
    }
}

/// A running execution of a bound service is cancelled exactly where there is
/// evidence of a process, its goal may be touched and every process works for
/// it. Earlier exits count only where no process is left.
pub proof fn executions_are_cancelled_with_their_processes(
    goals: Map<Seq<char>, GoalSummaryProjection>,
    claims: Seq<WorkflowClaim>,
    claim: WorkflowClaim,
    execution: Seq<char>,
    managed: Seq<ManagedProcess>,
    recovered: Seq<RecoveredTermination>,
)
    ensures
        ({
            let plan = crate::process_control::termination::execution_plan_outcome(
                Some(goals),
                claims,
                claim,
                execution,
                managed,
                recovered,
            );
            let evidence = managed.len() > 0 || recovered.len() > 0;
            let touched = crate::laws::claiming::may_be_touched(goals, claim.goal_id@);
            let owned = forall|i: int|
                0 <= i < managed.len() ==> works_for(
                    goals,
                    claims,
                    claim,
                    execution,
                    #[trigger] managed[i],
                );
            &&& plan is Ok == (evidence && touched && owned)
            &&& !evidence ==> plan->Err_0 is Conflict
            &&& plan is Ok ==> plan->Ok_0.expectation is Some
                && crate::laws::claiming::is_seen_as_it_is(
                plan->Ok_0.expectation->0,
                goals[claim.goal_id@],
            )
            &&& plan is Ok && managed.len() > 0 ==> plan->Ok_0.terminations.len() == 0
                && plan->Ok_0.worktrees.len() == 0 && plan->Ok_0.ownership.len() == managed.len()
            &&& plan is Ok && managed.len() == 0 ==> plan->Ok_0.terminations.len()
                == recovered.len() && plan->Ok_0.ownership.len() == recovered.len()
            &&& plan is Ok && managed.len() == 0 ==> forall|i: int|
                0 <= i < recovered.len() ==> #[trigger] plan->Ok_0.terminations[i]
                    == recovered[i].termination@ && plan->Ok_0.ownership[i]
                    == recovered[i].ownership@
        }),
{
    every_process_works_for_the_execution(goals, claims, claim, execution, managed);
    crate::laws::claiming::done_goals_are_not_touched(goals, claim.goal_id@);
}

/// An execution of a service that is bound to no target is cancelled with its
/// claim alone.
pub proof fn unbound_executions_are_cancelled_with_their_claim(
    claims: Seq<WorkflowClaim>,
    claim: WorkflowClaim,
    execution: Seq<char>,
    managed: Seq<ManagedProcess>,
    recovered: Seq<RecoveredTermination>,
)
    ensures
        ({
            let plan = crate::process_control::termination::execution_plan_outcome(
                None,
                claims,
                claim,
                execution,
                managed,
                recovered,
            );
            &&& plan is Ok && plan->Ok_0.expectation is None && plan->Ok_0.terminations.len() == 0
            &&& plan->Ok_0.ownership.len() == 1 && plan->Ok_0.ownership[0].claim_id
                == claim.claim_id@ && plan->Ok_0.ownership[0].execution_id == Some(execution)
                && plan->Ok_0.ownership[0].round_idx is None
        }),
{
}

/// Cancelling an execution terminates every process, settles the goal where
/// there is one and the claim otherwise, and completes and retains one receipt
/// for each exit.
pub proof fn executions_are_cancelled_by_their_effects(
    plan: crate::process_control::termination::ExecutionPlanView,
    managed: nat,
)
    requires
        managed + plan.terminations.len() <= usize::MAX,
    ensures
        ({
            let p = crate::process_control::termination::execution_protocol(plan, managed);
            let exits = managed + plan.terminations.len();
            &&& p.processes == managed && p.receipts == exits && p.retained == exits
            &&& p.goal == plan.expectation is Some && p.claim == plan.expectation is None
            &&& !p.chat && !p.chat_first && !p.operations
        }),
{
}

/// Stopping one agent closes its chat first, settles its goal where it has one,
/// and brackets that by its operations.
pub proof fn agents_are_stopped_by_their_effects(goal: bool, chat: bool)
    ensures
        ({
            let p = crate::process_control::termination::agent_protocol(goal, chat);
            &&& p.processes == 1 && p.receipts == 1 && p.retained == 1
            &&& p.chat_first == chat && p.goal == goal && p.operations
            &&& !p.chat && !p.claim
        }),
{
}

/// Stopping a chat terminates every process of it, cancels its operations,
/// closes the chat after that and settles its goal where it has one.
pub proof fn chats_are_stopped_by_their_effects(goal: bool, managed: nat)
    requires
        managed <= usize::MAX,
    ensures
        ({
            let p = crate::process_control::termination::chat_protocol(goal, managed);
            &&& p.processes == managed && p.receipts == managed && p.retained == 1
            &&& p.chat && p.operations && p.goal == goal
            &&& !p.chat_first && !p.claim
        }),
{
}

/// The worktree of some process among the first ones.
pub open spec fn is_a_worktree_of(managed: Seq<ManagedProcess>, path: Seq<char>) -> bool {
    exists|i: int|
        0 <= i < managed.len() && (#[trigger] managed[i]).worktree is At && (
        managed[i].worktree->At_0)@ == path
}

/// A cancellation keeps the worktrees that it recovered, in their order, and
/// each one of its processes once; it keeps nothing else.
pub proof fn worktrees_are_kept_once(
    recovered: Seq<Seq<char>>,
    managed: Seq<ManagedProcess>,
    path: Seq<char>,
)
    requires
        crate::process_control::termination::kept_worktrees(recovered, managed) is Ok,
    ensures
        ({
            let kept = crate::process_control::termination::kept_worktrees(recovered, managed)->Ok_0;
            &&& kept.contains(path) == (recovered.contains(path) || is_a_worktree_of(managed, path))
            &&& recovered.len() <= kept.len() && kept.take(recovered.len() as int) == recovered
            &&& recovered.no_duplicates() ==> kept.no_duplicates()
        }),
    decreases managed.len(),
{
    let kept = crate::process_control::termination::kept_worktrees(recovered, managed)->Ok_0;
    if managed.len() == 0 {
        assert(kept.take(recovered.len() as int) =~= recovered);
    } else {
        let rest = managed.drop_last();
        let last: int = managed.len() - 1;
        worktrees_are_kept_once(recovered, rest, path);
        let before = crate::process_control::termination::kept_worktrees(recovered, rest)->Ok_0;
        assert(managed[last] == managed.last());
        if is_a_worktree_of(rest, path) {
            let i = choose|i: int|
                0 <= i < rest.len() && (#[trigger] rest[i]).worktree is At && (
                rest[i].worktree->At_0)@ == path;
            assert(managed[i] == rest[i]);
        }
        if is_a_worktree_of(managed, path) {
            let i = choose|i: int|
                0 <= i < managed.len() && (#[trigger] managed[i]).worktree is At && (
                managed[i].worktree->At_0)@ == path;
            if i < last {
                assert(rest[i] == managed[i]);
            }
        }
        if managed[last].worktree is At && !before.contains((managed[last].worktree->At_0)@) {
            let one = (managed[last].worktree->At_0)@;
            assert(kept == before.push(one));
            assert(kept[before.len() as int] == one);
            if before.contains(path) {
                let i = before.index_of(path);
                assert(kept[i] == path);
            }
            if kept.contains(path) && path != one {
                let i = kept.index_of(path);
                assert(before[i] == path);
            }
            assert(kept.take(recovered.len() as int) =~= before.take(recovered.len() as int));
        }
    }
}

/// An agent is stopped exactly where its goal, if it is linked to one, lets it
/// be, and its chat, if it has one, is open.
pub proof fn agents_are_stopped_where_goal_and_chat_allow(
    links: AgentStopLinks,
    goals: Map<Seq<char>, GoalSummaryProjection>,
    claims: Seq<WorkflowClaim>,
    sessions: Seq<ChatSession>,
    process: ManagedProcess,
)
    ensures
        ({
            let outcome = crate::process_control::termination::agent_fence_outcome(links, goals, claims, sessions, process);
            let fence = crate::process_control::ownership::fence_outcome(
                goals,
                claims,
                (links.goal_id->0)@,
                process.id@,
                crate::process_control::ownership::metadata_of(process.details),
                WorkflowOwnershipPhase::BeforeTermination,
            );
            let chat_is_open = links.session_id is None || has_open_session(
                sessions,
                (links.session_id->0)@,
            );
            &&& outcome is Ok == ((links.goal_id is None || fence is Ok) && chat_is_open)
            &&& outcome is Ok && links.goal_id is None ==> outcome->Ok_0 is None
            &&& outcome is Ok && links.goal_id is Some ==> outcome->Ok_0 == Some(fence->Ok_0)
            &&& links.goal_id is Some && fence is Err ==> outcome->Err_0 == fence->Err_0
        }),
{
    if links.session_id is Some {
        open_sessions_are_found(sessions, (links.session_id->0)@);
    }
}

/// A session with this id is open.
pub open spec fn has_open_session(sessions: Seq<ChatSession>, id: Seq<char>) -> bool {
    exists|i: int| 0 <= i < sessions.len() && (#[trigger] sessions[i]).id@ == id && !sessions[i].closed
}

/// An open session is found exactly where there is one.
pub proof fn open_sessions_are_found(sessions: Seq<ChatSession>, id: Seq<char>)
    ensures
        crate::process_control::termination::open_session(sessions, id) is Some == has_open_session(sessions, id),
        crate::process_control::termination::open_session(sessions, id) is Some ==> ({
            let session = crate::process_control::termination::open_session(sessions, id)->0;
            sessions.contains(session) && session.id@ == id && !session.closed
        }),
    decreases sessions.len(),
{
    if sessions.len() > 0 {
        let rest = sessions.drop_first();
        open_sessions_are_found(rest, id);
        assert(sessions[0] == sessions.first());
        assert(sessions.contains(sessions[0]));
        assert forall|i: int| 0 < i < sessions.len() implies #[trigger] sessions[i] == rest[i
            - 1] by {}
        if has_open_session(rest, id) {
            let i = choose|i: int|
                0 <= i < rest.len() && (#[trigger] rest[i]).id@ == id && !rest[i].closed;
            assert(sessions[i + 1] == rest[i]);
            let session = crate::process_control::termination::open_session(rest, id)->0;
            let k = rest.index_of(session);
            assert(sessions[k + 1] == session);
        }
        if has_open_session(sessions, id) && !(sessions[0].id@ == id && !sessions[0].closed) {
            let i = choose|i: int|
                0 <= i < sessions.len() && (#[trigger] sessions[i]).id@ == id
                    && !sessions[i].closed;
            assert(rest[i - 1] == sessions[i]);
        }
    }
}

/// A chat that is not open is not found; a chat without a goal is stopped unless
/// it reports work that no process does.
pub proof fn chats_without_a_goal_are_stopped(
    process_id: Seq<char>,
    session_id: Seq<char>,
    sessions: Seq<ChatSession>,
    goals: Map<Seq<char>, GoalSummaryProjection>,
    claims: Seq<WorkflowClaim>,
    managed: Seq<ManagedProcess>,
)
    ensures
        ({
            let plan = crate::process_control::termination::chat_plan_outcome(
                process_id,
                session_id,
                sessions,
                goals,
                claims,
                managed,
            );
            let session = crate::process_control::termination::open_session(sessions, session_id)->0;
            let busy = session.in_flight || session.queue_dispatching;
            &&& !has_open_session(sessions, session_id) ==> plan is Err && plan->Err_0 is NotFound
            &&& has_open_session(sessions, session_id) && session.goal_id is None ==> plan is Ok
                == !(busy && managed.len() == 0)
            &&& has_open_session(sessions, session_id) && session.goal_id is None && plan is Ok
                ==> plan->Ok_0.goal_id is None && plan->Ok_0.expectation is None
                && plan->Ok_0.ownership.len() == 0 && plan->Ok_0.worktrees.len() == 0
            &&& has_open_session(sessions, session_id) && session.goal_id is None && plan is Err
                ==> plan->Err_0 is Degraded
        }),
{
    open_sessions_are_found(sessions, session_id);
}

/// A process of a chat may be stopped for its goal, and its worktree is known.
pub open spec fn may_be_stopped_for(
    goals: Map<Seq<char>, GoalSummaryProjection>,
    claims: Seq<WorkflowClaim>,
    goal_id: Seq<char>,
    process: ManagedProcess,
) -> bool {
    !(process.worktree is Failed) && crate::process_control::ownership::fence_outcome(
        goals,
        claims,
        goal_id,
        process.id@,
        crate::process_control::ownership::metadata_of(process.details),
        WorkflowOwnershipPhase::BeforeTermination,
    ) is Ok
}

proof fn chats_need_every_process(
    goals: Map<Seq<char>, GoalSummaryProjection>,
    claims: Seq<WorkflowClaim>,
    goal_id: Seq<char>,
    managed: Seq<ManagedProcess>,
)
    ensures
        crate::process_control::termination::chat_fences(goals, claims, goal_id, managed) is Ok == forall|i: int|
            0 <= i < managed.len() ==> may_be_stopped_for(
                goals,
                claims,
                goal_id,
                #[trigger] managed[i],
            ),
    decreases managed.len(),
{
    if managed.len() > 0 {
        let rest = managed.drop_last();
        let last: int = managed.len() - 1;
        chats_need_every_process(goals, claims, goal_id, rest);
        assert(managed[last] == managed.last());
        if crate::process_control::termination::chat_fences(goals, claims, goal_id, managed) is Ok {
            assert forall|i: int| 0 <= i < managed.len() implies may_be_stopped_for(
                goals,
                claims,
                goal_id,
                #[trigger] managed[i],
            ) by {
                if i < last {
                    assert(may_be_stopped_for(goals, claims, goal_id, rest[i]));
                }
            }
        } else if forall|i: int|
            0 <= i < managed.len() ==> may_be_stopped_for(
                goals,
                claims,
                goal_id,
                #[trigger] managed[i],
            ) {
            assert(may_be_stopped_for(goals, claims, goal_id, managed[last]));
            assert forall|i: int| 0 <= i < rest.len() implies may_be_stopped_for(
                goals,
                claims,
                goal_id,
                #[trigger] rest[i],
            ) by {
                assert(may_be_stopped_for(goals, claims, goal_id, managed[i]));
            }
        }
    }
}

/// A chat with a goal is stopped exactly where the goal may be touched, every
/// process of it may be stopped for the goal, and, where there is none, neither
/// the chat reports work nor a claim holds the goal.
pub proof fn chats_are_stopped_with_their_goal(
    process_id: Seq<char>,
    session_id: Seq<char>,
    sessions: Seq<ChatSession>,
    goals: Map<Seq<char>, GoalSummaryProjection>,
    claims: Seq<WorkflowClaim>,
    managed: Seq<ManagedProcess>,
)
    requires
        has_open_session(sessions, session_id),
        crate::process_control::termination::open_session(sessions, session_id)->0.goal_id is Some,
    ensures
        ({
            let plan = crate::process_control::termination::chat_plan_outcome(
                process_id,
                session_id,
                sessions,
                goals,
                claims,
                managed,
            );
            let session = crate::process_control::termination::open_session(sessions, session_id)->0;
            let goal_id = (session.goal_id->0)@;
            let busy = session.in_flight || session.queue_dispatching;
            let every = forall|i: int|
                0 <= i < managed.len() ==> may_be_stopped_for(
                    goals,
                    claims,
                    goal_id,
                    #[trigger] managed[i],
                );
            &&& plan is Ok == (crate::laws::claiming::may_be_touched(goals, goal_id) && every && (
            managed.len() > 0 || !busy && !crate::laws::claiming::is_held(claims, goal_id)))
            &&& plan is Ok ==> plan->Ok_0.goal_id == Some(goal_id) && plan->Ok_0.expectation is Some
                && crate::laws::claiming::is_seen_as_it_is(
                plan->Ok_0.expectation->0,
                goals[goal_id],
            )
        }),
{
    open_sessions_are_found(sessions, session_id);
    let goal_id = (crate::process_control::termination::open_session(sessions, session_id)->0.goal_id->0)@;
    crate::laws::claiming::goals_are_held_by_their_claims(claims, goal_id);
    crate::laws::claiming::done_goals_are_not_touched(goals, goal_id);
    chats_need_every_process(goals, claims, goal_id, managed);
}

proof fn result_keys_differ()
    ensures
        "stopped"@ != "requested_termination_intent"@,
        "stopped"@ != "termination_intent"@,
        "stopped"@ != "intent_superseded"@,
        "stopped"@ != "process"@,
        "stopped"@ != "termination"@,
        "stopped"@ != "goal"@,
        "stopped"@ != "worktree_retention"@,
        "requested_termination_intent"@ != "termination_intent"@,
        "requested_termination_intent"@ != "intent_superseded"@,
        "requested_termination_intent"@ != "process"@,
        "requested_termination_intent"@ != "termination"@,
        "requested_termination_intent"@ != "goal"@,
        "requested_termination_intent"@ != "worktree_retention"@,
        "termination_intent"@ != "intent_superseded"@,
        "termination_intent"@ != "process"@,
        "termination_intent"@ != "termination"@,
        "termination_intent"@ != "goal"@,
        "termination_intent"@ != "worktree_retention"@,
        "intent_superseded"@ != "process"@,
        "intent_superseded"@ != "termination"@,
        "intent_superseded"@ != "goal"@,
        "intent_superseded"@ != "worktree_retention"@,
        "process"@ != "termination"@,
        "process"@ != "goal"@,
        "process"@ != "worktree_retention"@,
        "termination"@ != "goal"@,
        "termination"@ != "worktree_retention"@,
        "goal"@ != "worktree_retention"@,
{
    reveal_strlit("stopped");
    reveal_strlit("requested_termination_intent");
    reveal_strlit("termination_intent");
    reveal_strlit("intent_superseded");
    reveal_strlit("process");
    reveal_strlit("termination");
    reveal_strlit("goal");
    reveal_strlit("worktree_retention");
    assert("stopped"@.len() == 7);
    assert("requested_termination_intent"@.len() == 28);
    assert("termination_intent"@.len() == 18);
    assert("intent_superseded"@.len() == 17);
    assert("process"@.len() == 7);
    assert("termination"@.len() == 11);
    assert("goal"@.len() == 4);
    assert("worktree_retention"@.len() == 18);
    assert("stopped"@[0] == 's');
    assert("termination_intent"@[0] == 't');
    assert("process"@[0] == 'p');
    assert("worktree_retention"@[0] == 'w');
}

proof fn execution_keys_differ()
    ensures
        "execution_id"@ != "claim_id"@,
        "execution_id"@ != "goal_id"@,
        "execution_id"@ != "processes"@,
        "execution_id"@ != "goal"@,
        "execution_id"@ != "worktree_retention"@,
        "claim_id"@ != "goal_id"@,
        "claim_id"@ != "processes"@,
        "claim_id"@ != "goal"@,
        "claim_id"@ != "worktree_retention"@,
        "goal_id"@ != "processes"@,
        "goal_id"@ != "goal"@,
        "goal_id"@ != "worktree_retention"@,
        "processes"@ != "goal"@,
        "processes"@ != "worktree_retention"@,
        "goal"@ != "worktree_retention"@,
{
    reveal_strlit("execution_id");
    reveal_strlit("claim_id");
    reveal_strlit("goal_id");
    reveal_strlit("processes");
    reveal_strlit("goal");
    reveal_strlit("worktree_retention");
    assert("execution_id"@.len() == 12);
    assert("claim_id"@.len() == 8);
    assert("goal_id"@.len() == 7);
    assert("processes"@.len() == 9);
    assert("goal"@.len() == 4);
    assert("worktree_retention"@.len() == 18);
}

proof fn chat_keys_differ()
    ensures
        "id"@ != "kind"@,
        "id"@ != "session_id"@,
        "id"@ != "goal_id"@,
        "id"@ != "status"@,
        "id"@ != "pid"@,
        "kind"@ != "session_id"@,
        "kind"@ != "goal_id"@,
        "kind"@ != "status"@,
        "kind"@ != "pid"@,
        "session_id"@ != "goal_id"@,
        "session_id"@ != "status"@,
        "session_id"@ != "pid"@,
        "goal_id"@ != "status"@,
        "goal_id"@ != "pid"@,
        "status"@ != "pid"@,
{
    reveal_strlit("id");
    reveal_strlit("kind");
    reveal_strlit("session_id");
    reveal_strlit("goal_id");
    reveal_strlit("status");
    reveal_strlit("pid");
    assert("id"@.len() == 2);
    assert("kind"@.len() == 4);
    assert("session_id"@.len() == 10);
    assert("goal_id"@.len() == 7);
    assert("status"@.len() == 6);
    assert("pid"@.len() == 3);
}

proof fn summary_keys_differ()
    ensures
        "confirmed_exit"@ != "registry_cleanup_completed"@,
        "confirmed_exit"@ != "identity_cleanup_completed"@,
        "confirmed_exit"@ != "managed_processes"@,
        "confirmed_exit"@ != "already_idle"@,
        "confirmed_exit"@ != "registry_retained_until_exit"@,
        "registry_cleanup_completed"@ != "identity_cleanup_completed"@,
        "registry_cleanup_completed"@ != "managed_processes"@,
        "registry_cleanup_completed"@ != "already_idle"@,
        "registry_cleanup_completed"@ != "registry_retained_until_exit"@,
        "identity_cleanup_completed"@ != "managed_processes"@,
        "identity_cleanup_completed"@ != "already_idle"@,
        "identity_cleanup_completed"@ != "registry_retained_until_exit"@,
        "managed_processes"@ != "already_idle"@,
        "managed_processes"@ != "registry_retained_until_exit"@,
        "already_idle"@ != "registry_retained_until_exit"@,
{
    reveal_strlit("confirmed_exit");
    reveal_strlit("registry_cleanup_completed");
    reveal_strlit("identity_cleanup_completed");
    reveal_strlit("managed_processes");
    reveal_strlit("already_idle");
    reveal_strlit("registry_retained_until_exit");
    assert("confirmed_exit"@.len() == 14);
    assert("registry_cleanup_completed"@.len() == 26);
    assert("identity_cleanup_completed"@.len() == 26);
    assert("managed_processes"@.len() == 17);
    assert("already_idle"@.len() == 12);
    assert("registry_retained_until_exit"@.len() == 28);
    assert("registry_cleanup_completed"@[0] == 'r');
    assert("identity_cleanup_completed"@[0] == 'i');
}

/// A stop reports the intent that was asked for and the one that was followed,
/// and the goal only where it was settled.
pub proof fn stops_report_what_was_followed(
    intent: TerminationIntent,
    settlement: Option<GoalSettlement>,
    process: crate::json::JsonView,
    termination: crate::json::JsonView,
)
    ensures
        ({
            let report = crate::process_control::termination::stop_result(intent, settlement, process, termination);
            let followed = if settlement is Some {
                settlement->0.termination_intent.name@
            } else {
                intent.name@
            };
            &&& crate::laws::values::holds(report, "stopped"@, crate::json::JsonView::Bool(true))
            &&& crate::laws::values::says(report, "requested_termination_intent"@, intent.name@)
            &&& crate::laws::values::says(report, "termination_intent"@, followed)
            &&& crate::laws::values::holds(
                report,
                "intent_superseded"@,
                crate::json::JsonView::Bool(followed != intent.name@),
            )
            &&& crate::laws::values::holds(report, "process"@, process)
            &&& crate::laws::values::holds(report, "termination"@, termination)
            &&& settlement is Some ==> crate::laws::values::holds(report, "goal"@, settlement->0.goal@) && crate::laws::values::holds(
                report,
                "worktree_retention"@,
                settlement->0.worktree_retention@,
            )
            &&& settlement is None ==> !crate::laws::values::has_key(report, "goal"@) && !crate::laws::values::has_key(
                report,
                "worktree_retention"@,
            )
        }),
{
    result_keys_differ();
}

/// A cancelled execution is reported with its claim, its goal and the exits of
/// its processes.
pub proof fn cancelled_executions_are_reported(
    execution: Seq<char>,
    claim: WorkflowClaim,
    terminations: Seq<crate::json::JsonView>,
    settlement: Option<GoalSettlement>,
)
    ensures
        ({
            let report = crate::process_control::termination::execution_result(execution, claim, terminations, settlement);
            &&& crate::laws::values::says(report, "execution_id"@, execution)
            &&& crate::laws::values::says(report, "claim_id"@, claim.claim_id@)
            &&& crate::laws::values::says(report, "goal_id"@, claim.goal_id@)
            &&& crate::laws::values::holds(report, "processes"@, crate::json::JsonView::Array(terminations))
            &&& settlement is Some ==> crate::laws::values::holds(report, "goal"@, settlement->0.goal@) && crate::laws::values::holds(
                report,
                "worktree_retention"@,
                settlement->0.worktree_retention@,
            )
            &&& settlement is None ==> crate::laws::values::holds(report, "goal"@, crate::json::JsonView::Null)
                && crate::laws::values::holds(report, "worktree_retention"@, crate::json::JsonView::Null)
        }),
{
    execution_keys_differ();
}

/// A stopped chat is shown as a process, and its exits as one.
pub proof fn stopped_chats_are_shown(
    process_id: Seq<char>,
    session: ChatSession,
    terminations: Seq<crate::json::JsonView>,
)
    ensures
        ({
            let shown = crate::process_control::termination::chat_process(process_id, session);
            let summary = crate::process_control::termination::chat_summary(terminations);
            let report = crate::process_control::termination::chat_termination(terminations);
            let yes = crate::json::JsonView::Bool(true);
            let idle = crate::json::JsonView::Bool(terminations.len() == 0);
            &&& crate::laws::values::says(shown, "id"@, process_id) && crate::laws::values::says(shown, "kind"@, "chat"@)
            &&& crate::laws::values::says(shown, "session_id"@, session.id@) && crate::laws::values::says(shown, "status"@, "stopped"@)
            &&& crate::laws::values::holds(shown, "pid"@, crate::json::JsonView::Null)
            &&& session.goal_id is Some ==> crate::laws::values::says(shown, "goal_id"@, (session.goal_id->0)@)
            &&& session.goal_id is None ==> crate::laws::values::holds(
                shown,
                "goal_id"@,
                crate::json::JsonView::Null,
            )
            &&& crate::laws::values::holds(summary, "confirmed_exit"@, yes) && crate::laws::values::holds(
                summary,
                "registry_cleanup_completed"@,
                yes,
            ) && crate::laws::values::holds(summary, "identity_cleanup_completed"@, yes) && crate::laws::values::holds(
                summary,
                "already_idle"@,
                idle,
            ) && crate::laws::values::holds(
                summary,
                "managed_processes"@,
                crate::json::JsonView::Array(terminations),
            )
            &&& crate::laws::values::holds(report, "confirmed_exit"@, yes) && crate::laws::values::holds(
                report,
                "registry_retained_until_exit"@,
                yes,
            ) && crate::laws::values::holds(report, "already_idle"@, idle) && crate::laws::values::holds(
                report,
                "managed_processes"@,
                crate::json::JsonView::Array(terminations),
            )
        }),
{
    chat_keys_differ();
    summary_keys_differ();
}

/// A settlement that was committed needs nothing more, one that was rolled back is
/// tried again once its cause is resolved, and any other is replayed.
pub proof fn settlements_are_continued_from_their_state(state: Seq<char>)
    ensures
        ({
            let advice = crate::process_control::receipts::settlement_recovery(state);
            let settled = crate::process_control::receipts::settlement_recovery("committed"@);
            let restored = crate::process_control::receipts::settlement_recovery("rolled_back"@);
            &&& settled
                == "Goal, claim, capacity, and receipts are settled; all workflow worktrees and branches remain available for inspection, commit, preservation, or a separate explicit human-controlled cleanup operation"@
            &&& restored
                == "the exact pre-settlement Goal, claim, capacity, workflow policy, and target context were restored; retry the same explicit termination intent through the shared Process capability after resolving the cause"@
            &&& state != "committed"@ && state != "rolled_back"@ ==> advice
                == "retry the same explicit termination intent through the shared Process capability; it will replay this journal before any terminal-state shortcut and deterministically finish the exact Goal, claim, capacity, workflow policy, target context, and retained-worktree evidence"@
        }),
{
    reveal_strlit("committed");
    reveal_strlit("rolled_back");
    assert("committed"@.len() == 9 && "rolled_back"@.len() == 11);
}

} // verus!

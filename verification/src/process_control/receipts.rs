//! The records kept of a stop: what they say, and how they reach the disk.
use vstd::prelude::*;

use crate::clock::{current_time, fresh_id};
use crate::codec::write_pretty;
use crate::errors::{error_with_message, RefineError, RefineResult};
use crate::json::Json;
use crate::paths::join_path;
use crate::process_control::ownership::WorkflowGoalOwnership;
use crate::text::{cat2, cat3, cat5};

verus! {

/// Why a process is stopped: its recorded name, and what becomes of the goal.
#[derive(Debug)]
pub struct TerminationIntent {
    pub name: String,
    pub disposition: String,
}

impl Clone for TerminationIntent {
    fn clone(&self) -> (r: Self)
        ensures
            r == *self,
    {
        TerminationIntent { name: self.name.clone(), disposition: self.disposition.clone() }
    }
}

/// What is known of a process before it is terminated.
pub struct StopContext {
    pub process_id: String,
    pub goal_id: Option<String>,
    pub workflow: Option<WorkflowGoalOwnership>,
    pub intent: TerminationIntent,
    pub worktree: Json,
    pub worktree_retention: Json,
}

/// The recorded form of a process's ownership.
pub open spec fn ownership_record(o: crate::process_control::ownership::OwnershipView) -> crate::json::JsonView {
    crate::json::JsonView::Object(
        Map::<Seq<char>, crate::json::JsonView>::empty().insert(
            "process_id"@,
            crate::json::JsonView::Text(o.process_id),
        ).insert("claim_id"@, crate::json::JsonView::Text(o.claim_id)).insert(
            "execution_id"@,
            match o.execution_id {
                Some(e) => crate::json::JsonView::Text(e),
                None => crate::json::JsonView::Null,
            },
        ).insert(
            "round_idx"@,
            match o.round_idx {
                Some(i) => crate::json::JsonView::Number(
                    crate::json::NumberView::Unsigned(i as u64),
                ),
                None => crate::json::JsonView::Null,
            },
        ),
    )
}

/// Records a process's ownership.
pub fn workflow_ownership_json(ownership: &WorkflowGoalOwnership) -> (r: Json)
    ensures
        r@ == ownership_record(ownership@),
{
    let mut o = Json::object();
    o.set("process_id", Json::text(ownership.process_id.as_str()));
    o.set("claim_id", Json::text(ownership.claim_id.as_str()));
    o.set("execution_id", Json::maybe_text(&ownership.execution_id));
    let round = match ownership.round_idx {
        Some(i) => Json::unsigned(i as u64),
        None => Json::null(),
    };
    o.set("round_idx", round);
    o
}

/// The receipt of a confirmed exit, before and after cleanup.
pub open spec fn exit_receipt(
    context: StopContext,
    state: Seq<char>,
    recorded_at: Seq<char>,
    termination: crate::json::JsonView,
    cleaned: bool,
    recovery: Seq<char>,
) -> crate::json::JsonView {
    crate::json::JsonView::Object(
        Map::<Seq<char>, crate::json::JsonView>::empty().insert(
            "state"@,
            crate::json::JsonView::Text(state),
        ).insert("process_id"@, crate::json::JsonView::Text(context.process_id@)).insert(
            "goal_id"@,
            crate::json::maybe_text_view(context.goal_id),
        ).insert(
            "workflow"@,
            match context.workflow {
                Some(w) => ownership_record(w@),
                None => crate::json::JsonView::Null,
            },
        ).insert(
            "requested_termination_intent"@,
            crate::json::JsonView::Text(context.intent.name@),
        ).insert("termination_intent"@, crate::json::JsonView::Text(context.intent.name@)).insert(
            "goal_disposition"@,
            crate::json::JsonView::Text(context.intent.disposition@),
        ).insert("worktree"@, context.worktree@).insert(
            "recorded_at"@,
            crate::json::JsonView::Text(recorded_at),
        ).insert("termination"@, termination).insert(
            "confirmed_exit"@,
            crate::json::JsonView::Bool(true),
        ).insert("registry_cleanup_completed"@, crate::json::JsonView::Bool(cleaned)).insert(
            "identity_cleanup_completed"@,
            crate::json::JsonView::Bool(cleaned),
        ).insert("goal_cancelled"@, crate::json::JsonView::Bool(false)).insert(
            "goal_requeued"@,
            crate::json::JsonView::Bool(false),
        ).insert("claim_cancelled"@, crate::json::JsonView::Bool(false)).insert(
            "worktree_retention"@,
            context.worktree_retention@,
        ).insert("recovery"@, crate::json::JsonView::Text(recovery)),
    )
}

fn build_exit_receipt(
    context: &StopContext,
    state: &str,
    recorded_at: &str,
    termination: &Json,
    cleaned: bool,
    recovery: &str,
) -> (r: Json)
    ensures
        r@ == exit_receipt(*context, state@, recorded_at@, termination@, cleaned, recovery@),
{
    let workflow = match &context.workflow {
        Some(w) => workflow_ownership_json(w),
        None => Json::null(),
    };
    let mut o = Json::object();
    o.set("state", Json::text(state));
    o.set("process_id", Json::text(context.process_id.as_str()));
    o.set("goal_id", Json::maybe_text(&context.goal_id));
    o.set("workflow", workflow);
    o.set("requested_termination_intent", Json::text(context.intent.name.as_str()));
    o.set("termination_intent", Json::text(context.intent.name.as_str()));
    o.set("goal_disposition", Json::text(context.intent.disposition.as_str()));
    o.set("worktree", context.worktree.clone());
    o.set("recorded_at", Json::text(recorded_at));
    o.set("termination", termination.clone());
    o.set("confirmed_exit", Json::boolean(true));
    o.set("registry_cleanup_completed", Json::boolean(cleaned));
    o.set("identity_cleanup_completed", Json::boolean(cleaned));
    o.set("goal_cancelled", Json::boolean(false));
    o.set("goal_requeued", Json::boolean(false));
    o.set("claim_cancelled", Json::boolean(false));
    o.set("worktree_retention", context.worktree_retention.clone());
    o.set("recovery", Json::text(recovery));
    o
}

/// The receipt of a confirmed exit whose cleanup is still to come.
pub open spec fn cleanup_pending_receipt(
    context: StopContext,
    recorded_at: Seq<char>,
    termination: crate::json::JsonView,
) -> crate::json::JsonView {
    exit_receipt(
        context,
        "confirmed_exit_cleanup_pending"@,
        recorded_at,
        termination,
        false,
        "the exact process exit is confirmed and every workflow worktree and branch remains retained; retry process cleanup and stop settlement from the retained process-stop receipt"@,
    )
}

/// The receipt of a cleaned up exit whose settlement is still to come.
pub open spec fn settlement_pending_receipt(
    context: StopContext,
    recorded_at: Seq<char>,
    termination: crate::json::JsonView,
) -> crate::json::JsonView {
    exit_receipt(
        context,
        "confirmed_exit_settlement_pending"@,
        recorded_at,
        termination,
        true,
        "process cleanup is complete and every workflow worktree and branch remains retained; retry the fenced stop settlement from the retained process-stop receipt"@,
    )
}

/// Where the termination of one process stands.
#[derive(Clone, Copy, Debug, PartialEq, Eq, Structural)]
pub enum TerminationStage {
    Terminate,
    RecordExit,
    CleanUp,
    RecordCleanup,
    Retain,
    Returned,
    Failed,
}

/// What came of the effect of a stage.
pub enum TerminationEvent {
    Exited(Json),
    ExitFailed(RefineError),
    Recorded,
    RecordFailed(RefineError),
    CleanedUp(Json),
    CleanupFailed(Json, RefineError),
    Retained(RefineError),
}

/// The termination of one process, with its outcome so far and the error that
/// ends it.
pub struct TerminationRun {
    pub context: StopContext,
    pub stage: TerminationStage,
    pub termination: Json,
    pub error: Option<RefineError>,
}

/// The stage after an event; an event that does not belong to the stage
/// changes nothing.
pub open spec fn next_termination_stage(stage: TerminationStage, event: TerminationEvent) -> TerminationStage {
    match (stage, event) {
        (TerminationStage::Terminate, TerminationEvent::Exited(_)) => TerminationStage::RecordExit,
        (TerminationStage::Terminate, TerminationEvent::ExitFailed(_)) => TerminationStage::Failed,
        (TerminationStage::RecordExit, TerminationEvent::Recorded) => TerminationStage::CleanUp,
        (TerminationStage::RecordExit, TerminationEvent::RecordFailed(_)) => TerminationStage::Retain,
        (TerminationStage::CleanUp, TerminationEvent::CleanedUp(_)) => TerminationStage::RecordCleanup,
        (TerminationStage::CleanUp, TerminationEvent::CleanupFailed(_, _)) => TerminationStage::Retain,
        (TerminationStage::RecordCleanup, TerminationEvent::Recorded) => TerminationStage::Returned,
        (TerminationStage::RecordCleanup, TerminationEvent::RecordFailed(_)) => TerminationStage::Retain,
        (TerminationStage::Retain, TerminationEvent::Retained(_)) => TerminationStage::Failed,
        _ => stage,
    }
}

/// The outcome known after an event.
pub open spec fn next_termination_outcome(run: TerminationRun, event: TerminationEvent) -> crate::json::JsonView {
    match (run.stage, event) {
        (TerminationStage::Terminate, TerminationEvent::Exited(t)) => t@,
        (TerminationStage::CleanUp, TerminationEvent::CleanedUp(t)) => t@,
        (TerminationStage::CleanUp, TerminationEvent::CleanupFailed(t, _)) => t@,
        _ => run.termination@,
    }
}

/// The error known after an event.
pub open spec fn next_termination_error(run: TerminationRun, event: TerminationEvent) -> Option<
    crate::errors::ErrorView,
> {
    match (run.stage, event) {
        (TerminationStage::Terminate, TerminationEvent::ExitFailed(e)) => Some(
            stop_failure(e@, run.context.process_id@, crate::text::maybe_view(run.context.goal_id)),
        ),
        (TerminationStage::RecordExit, TerminationEvent::RecordFailed(e)) => Some(e@),
        (TerminationStage::CleanUp, TerminationEvent::CleanupFailed(_, e)) => Some(e@),
        (TerminationStage::RecordCleanup, TerminationEvent::RecordFailed(e)) => Some(e@),
        (TerminationStage::Retain, TerminationEvent::Retained(e)) => Some(e@),
        _ => crate::errors::error_view(run.error),
    }
}

/// A stop failure that says what became of the linked goal.
pub open spec fn stop_failure(
    error: crate::errors::ErrorView,
    process_id: Seq<char>,
    goal_id: Option<Seq<char>>,
) -> crate::errors::ErrorView {
    let context = match goal_id {
        Some(g) => "; linked Goal "@ + g + " remains non-cancelled"@,
        None => Seq::<char>::empty(),
    };
    crate::errors::with_message(
        error,
        crate::errors::described(error) + context + "; retry process "@ + process_id
            + " after recovery"@,
    )
}

/// Adds the linked goal and the retry advice to a stop failure.
pub fn stop_failure_with_goal_context(
    error: RefineError,
    process_id: &str,
    goal_id: &Option<String>,
) -> (r: RefineError)
    ensures
        r@ == stop_failure(error@, process_id@, crate::text::maybe_view(*goal_id)),
{
    let context = match goal_id {
        Some(g) => cat3("; linked Goal ", g.as_str(), " remains non-cancelled"),
        None => String::new(),
    };
    assert(goal_id is None ==> context@ =~= Seq::<char>::empty());
    let described = error.describe();
    let message = cat5(
        described.as_str(),
        context.as_str(),
        "; retry process ",
        process_id,
        " after recovery",
    );
    error_with_message(error, message)
}

impl TerminationRun {
    /// A termination that is still to be requested.
    pub fn begin(context: StopContext) -> (r: TerminationRun)
        ensures
            r.context == context,
            r.stage == TerminationStage::Terminate,
            r.termination@ is Null,
            r.error is None,
    {
        TerminationRun {
            context,
            stage: TerminationStage::Terminate,
            termination: Json::null(),
            error: None,
        }
    }

    /// Takes note of what came of the current effect.
    pub fn advance(&mut self, event: TerminationEvent)
        ensures
            final(self).context == old(self).context,
            final(self).stage == next_termination_stage(old(self).stage, event),
            final(self).termination@ == next_termination_outcome(*old(self), event),
            crate::errors::error_view(final(self).error) == next_termination_error(*old(self), event),
    {
        match (self.stage, event) {
            (TerminationStage::Terminate, TerminationEvent::Exited(t)) => {
                self.termination = t;
                self.stage = TerminationStage::RecordExit;
            },
            (TerminationStage::Terminate, TerminationEvent::ExitFailed(e)) => {
                let e = stop_failure_with_goal_context(
                    e,
                    self.context.process_id.as_str(),
                    &self.context.goal_id,
                );
                self.error = Some(e);
                self.stage = TerminationStage::Failed;
            },
            (TerminationStage::RecordExit, TerminationEvent::Recorded) => {
                self.stage = TerminationStage::CleanUp;
            },
            (TerminationStage::RecordExit, TerminationEvent::RecordFailed(e)) => {
                self.error = Some(e);
                self.stage = TerminationStage::Retain;
            },
            (TerminationStage::CleanUp, TerminationEvent::CleanedUp(t)) => {
                self.termination = t;
                self.stage = TerminationStage::RecordCleanup;
            },
            (TerminationStage::CleanUp, TerminationEvent::CleanupFailed(t, e)) => {
                self.termination = t;
                self.error = Some(e);
                self.stage = TerminationStage::Retain;
            },
            (TerminationStage::RecordCleanup, TerminationEvent::Recorded) => {
                self.stage = TerminationStage::Returned;
            },
            (TerminationStage::RecordCleanup, TerminationEvent::RecordFailed(e)) => {
                self.error = Some(e);
                self.stage = TerminationStage::Retain;
            },
            (TerminationStage::Retain, TerminationEvent::Retained(e)) => {
                self.error = Some(e);
                self.stage = TerminationStage::Failed;
            },
            _ => {},
        }
    }

    /// The receipt to write at a recording stage, at a given time; none at
    /// any other stage.
    pub fn receipt_at(&self, recorded_at: &str) -> (r: Option<Json>)
        ensures
            match self.stage {
                TerminationStage::RecordExit => r matches Some(v) && v@ == cleanup_pending_receipt(
                    self.context,
                    recorded_at@,
                    self.termination@,
                ),
                TerminationStage::RecordCleanup => r matches Some(v) && v@
                    == settlement_pending_receipt(
                    self.context,
                    recorded_at@,
                    self.termination@,
                ),
                _ => r is None,
            },
    {
        match self.stage {
            TerminationStage::RecordExit => Some(
                build_exit_receipt(
                    &self.context,
                    "confirmed_exit_cleanup_pending",
                    recorded_at,
                    &self.termination,
                    false,
                    "the exact process exit is confirmed and every workflow worktree and branch remains retained; retry process cleanup and stop settlement from the retained process-stop receipt",
                ),
            ),
            TerminationStage::RecordCleanup => Some(
                build_exit_receipt(
                    &self.context,
                    "confirmed_exit_settlement_pending",
                    recorded_at,
                    &self.termination,
                    true,
                    "process cleanup is complete and every workflow worktree and branch remains retained; retry the fenced stop settlement from the retained process-stop receipt",
                ),
            ),
            _ => None,
        }
    }

    /// The receipt to write at a recording stage, dated now.
    pub fn receipt(&self) -> (r: Option<Json>)
        ensures
            match self.stage {
                TerminationStage::RecordExit => exists|now: Seq<char>|
                    r matches Some(v) && v@ == #[trigger] cleanup_pending_receipt(
                        self.context,
                        now,
                        self.termination@,
                    ),
                TerminationStage::RecordCleanup => exists|now: Seq<char>|
                    r matches Some(v) && v@ == #[trigger] settlement_pending_receipt(
                        self.context,
                        now,
                        self.termination@,
                    ),
                _ => r is None,
            },
    {
        let now = current_time();
        self.receipt_at(now.as_str())
    }
}

/// Cleanup starts only after the confirmed exit is on record, and the
/// termination is reported only after its cleanup is on record.
pub proof fn outcomes_are_recorded_first(stage: TerminationStage, event: TerminationEvent)
    requires
        next_termination_stage(stage, event) != stage,
    ensures
        next_termination_stage(stage, event) == TerminationStage::RecordExit ==> stage
            == TerminationStage::Terminate && event is Exited,
        next_termination_stage(stage, event) == TerminationStage::CleanUp ==> stage
            == TerminationStage::RecordExit && event is Recorded,
        next_termination_stage(stage, event) == TerminationStage::RecordCleanup ==> stage
            == TerminationStage::CleanUp && event is CleanedUp,
        next_termination_stage(stage, event) == TerminationStage::Returned ==> stage
            == TerminationStage::RecordCleanup && event is Recorded,
{
}

/// Once an exit is confirmed, the termination fails only after the failure was
/// retained.
pub proof fn confirmed_exits_fail_only_retained(stage: TerminationStage, event: TerminationEvent)
    requires
        stage != TerminationStage::Terminate,
        stage != TerminationStage::Failed,
        next_termination_stage(stage, event) == TerminationStage::Failed,
    ensures
        stage == TerminationStage::Retain,
        event is Retained,
{
}

/// Whether a termination, or every process of a grouped one, has a flag set.
pub open spec fn outcome_flag(termination: crate::json::JsonView, key: Seq<char>) -> bool {
    match crate::json::field(termination, key) {
        Some(crate::json::JsonView::Bool(b)) => b,
        _ => match crate::json::elements(crate::json::field(termination, "managed_processes"@)) {
            Some(processes) => forall|i: int|
                0 <= i < processes.len() ==> crate::json::field(#[trigger] processes[i], key)
                    == Some(crate::json::JsonView::Bool(true)),
            None => false,
        },
    }
}

/// Reads a flag of a termination outcome.
#[verifier::loop_isolation(false)]
pub fn termination_outcome_flag(termination: &Json, key: &str) -> (r: bool)
    ensures
        r == outcome_flag(termination@, key@),
{
    if let Some(value) = termination.get(key) {
        if let Some(b) = value.as_bool() {
            return b;
        }
    }
    match termination.get_array("managed_processes") {
        Some(processes) => {
            let ghost views = crate::json::json_views(processes@);
            let mut i: usize = 0;
            while i < processes.len()
                invariant
                    i <= processes.len(),
                    views == crate::json::json_views(processes@),
                    forall|j: int|
                        0 <= j < i ==> crate::json::field(#[trigger] views[j], key@) == Some(
                            crate::json::JsonView::Bool(true),
                        ),
                decreases processes.len() - i,
            {
                let set = match processes[i].get(key) {
                    Some(v) => match v.as_bool() {
                        Some(b) => b,
                        None => false,
                    },
                    None => false,
                };
                assert(views[i as int] == processes@[i as int]@);
                if !set {
                    return false;
                }
                i = i + 1;
            }
            true
        },
        None => false,
    }
}

/// Advice on how a cancellation continues from the state of its journal.
pub open spec fn settlement_recovery(state: Seq<char>) -> Seq<char> {
    if state == "committed"@ {
        "Goal, claim, capacity, and receipts are settled; all workflow worktrees and branches remain available for inspection, commit, preservation, or a separate explicit human-controlled cleanup operation"@
    } else if state == "rolled_back"@ {
        "the exact pre-settlement Goal, claim, capacity, workflow policy, and target context were restored; retry the same explicit termination intent through the shared Process capability after resolving the cause"@
    } else {
        "retry the same explicit termination intent through the shared Process capability; it will replay this journal before any terminal-state shortcut and deterministically finish the exact Goal, claim, capacity, workflow policy, target context, and retained-worktree evidence"@
    }
}

/// Says how a cancellation continues from the state of its journal.
pub fn cancellation_settlement_recovery(state: &str) -> (r: &'static str)
    ensures
        r@ == settlement_recovery(state@),
{
    if crate::text::text_eq(state, "committed") {
        "Goal, claim, capacity, and receipts are settled; all workflow worktrees and branches remain available for inspection, commit, preservation, or a separate explicit human-controlled cleanup operation"
    } else if crate::text::text_eq(state, "rolled_back") {
        "the exact pre-settlement Goal, claim, capacity, workflow policy, and target context were restored; retry the same explicit termination intent through the shared Process capability after resolving the cause"
    } else {
        "retry the same explicit termination intent through the shared Process capability; it will replay this journal before any terminal-state shortcut and deterministically finish the exact Goal, claim, capacity, workflow policy, target context, and retained-worktree evidence"
    }
}

/// The points at which a durable write can be observed.
#[derive(Clone, Copy, Debug, PartialEq, Eq, Structural)]
pub enum DurableReceiptBoundary {
    FileSyncedBeforeRename,
    RenamedBeforeDirectorySync,
    DirectorySynced,
}

/// Where a durable write stands: the effect that comes next.
#[derive(Clone, Copy, Debug, PartialEq, Eq, Structural)]
pub enum ReceiptStage {
    CreateDirectory,
    CreateTemporary,
    WriteTemporary,
    SyncTemporary,
    Observe(DurableReceiptBoundary),
    Rename,
    SyncDirectory,
    RemoveTemporary,
    Written,
    Failed,
}

/// What came of the effect of a stage.
pub enum ReceiptEvent {
    Succeeded,
    IoFailed(String),
    Refused(RefineError),
}

/// A durable write of one receipt.
pub struct ReceiptWrite {
    pub path: String,
    pub parent: String,
    pub temporary: String,
    pub value: Json,
    pub bytes: Vec<u8>,
    pub stage: ReceiptStage,
    pub error: Option<RefineError>,
}

/// The stage after an effect that succeeded or failed.
pub open spec fn next_receipt_stage(stage: ReceiptStage, ok: bool) -> ReceiptStage {
    match stage {
        ReceiptStage::CreateDirectory => if ok {
            ReceiptStage::CreateTemporary
        } else {
            ReceiptStage::Failed
        },
        ReceiptStage::CreateTemporary => if ok {
            ReceiptStage::WriteTemporary
        } else {
            ReceiptStage::RemoveTemporary
        },
        ReceiptStage::WriteTemporary => if ok {
            ReceiptStage::SyncTemporary
        } else {
            ReceiptStage::RemoveTemporary
        },
        ReceiptStage::SyncTemporary => if ok {
            ReceiptStage::Observe(DurableReceiptBoundary::FileSyncedBeforeRename)
        } else {
            ReceiptStage::RemoveTemporary
        },
        ReceiptStage::Observe(DurableReceiptBoundary::FileSyncedBeforeRename) => if ok {
            ReceiptStage::Rename
        } else {
            ReceiptStage::RemoveTemporary
        },
        ReceiptStage::Rename => if ok {
            ReceiptStage::Observe(DurableReceiptBoundary::RenamedBeforeDirectorySync)
        } else {
            ReceiptStage::RemoveTemporary
        },
        ReceiptStage::Observe(DurableReceiptBoundary::RenamedBeforeDirectorySync) => if ok {
            ReceiptStage::SyncDirectory
        } else {
            ReceiptStage::Failed
        },
        ReceiptStage::SyncDirectory => if ok {
            ReceiptStage::Observe(DurableReceiptBoundary::DirectorySynced)
        } else {
            ReceiptStage::Failed
        },
        ReceiptStage::Observe(DurableReceiptBoundary::DirectorySynced) => if ok {
            ReceiptStage::Written
        } else {
            ReceiptStage::Failed
        },
        ReceiptStage::RemoveTemporary => ReceiptStage::Failed,
        ReceiptStage::Written => ReceiptStage::Written,
        ReceiptStage::Failed => ReceiptStage::Failed,
    }
}

/// What an input or output failure at a stage is reported as.
pub open spec fn receipt_io_message(w: ReceiptWrite, text: Seq<char>) -> Seq<char> {
    match w.stage {
        ReceiptStage::CreateDirectory => "failed to create partial process-stop receipt directory "@
            + w.parent@ + ": "@ + text,
        ReceiptStage::CreateTemporary => "failed to create partial process-stop receipt "@
            + w.temporary@ + ": "@ + text,
        ReceiptStage::WriteTemporary => "failed to write partial process-stop receipt "@
            + w.temporary@ + ": "@ + text,
        ReceiptStage::SyncTemporary => "failed to sync partial process-stop receipt "@
            + w.temporary@ + ": "@ + text,
        ReceiptStage::Rename => "failed to commit partial process-stop receipt "@ + w.path@ + ": "@
            + text,
        _ => "failed to sync partial process-stop receipt directory "@ + w.parent@ + ": "@ + text,
    }
}

/// The error known after an event.
pub open spec fn next_receipt_error(w: ReceiptWrite, event: ReceiptEvent) -> Option<
    crate::errors::ErrorView,
> {
    match (w.stage, event) {
        (ReceiptStage::RemoveTemporary, _) => crate::errors::error_view(w.error),
        (ReceiptStage::Written, _) => crate::errors::error_view(w.error),
        (ReceiptStage::Failed, _) => crate::errors::error_view(w.error),
        (_, ReceiptEvent::Succeeded) => crate::errors::error_view(w.error),
        (_, ReceiptEvent::IoFailed(text)) => Some(
            crate::errors::ErrorView::Io(receipt_io_message(w, text@)),
        ),
        (_, ReceiptEvent::Refused(e)) => Some(e@),
    }
}

/// Once the directory exists the value is encoded, and the write goes on with
/// bytes that read back as the value.
pub open spec fn encoding_step(before: ReceiptWrite, after: ReceiptWrite) -> bool {
    &&& after.stage == ReceiptStage::CreateTemporary
    &&& after.error == before.error
    &&& after.bytes@ == crate::codec::pretty_bytes(crate::codec::carried(before.value@))
    &&& crate::codec::reads_back(after.bytes@, before.value@)
}

/// Where a temporary copy of a receipt is written.
pub open spec fn temporary_path(parent: Seq<char>, file_name: Option<Seq<char>>, unique: Seq<char>) -> Seq<char> {
    crate::paths::joined(
        parent,
        "."@ + (match file_name {
            Some(n) => n,
            None => "process-stop-receipt"@,
        }) + "."@ + unique + ".tmp"@,
    )
}

impl ReceiptWrite {
    /// Plans a durable write through a temporary file with a given unique name.
    pub fn with_unique(
        path: &str,
        parent: Option<String>,
        file_name: Option<String>,
        value: Json,
        unique: &str,
    ) -> (r: RefineResult<ReceiptWrite>)
        ensures
            match r {
                Ok(w) => parent matches Some(p) && w.parent == p && w.path@ == path@ && w.value
                    == value && w.bytes@ == Seq::<u8>::empty() && w.stage
                    == ReceiptStage::CreateDirectory && w.error is None
                    && w.temporary@ == temporary_path(
                    p@,
                    crate::text::maybe_view(file_name),
                    unique@,
                ),
                Err(e) => parent is None && e@ == crate::errors::ErrorView::InvalidInput(
                    "partial process-stop receipt "@ + path@ + " has no parent"@,
                ),
            },
    {
        let parent = match parent {
            Some(parent) => parent,
            None => {
                return Err(
                    RefineError::InvalidInput(
                        cat3("partial process-stop receipt ", path, " has no parent"),
                    ),
                );
            },
        };
        let name = match &file_name {
            Some(n) => n.as_str(),
            None => "process-stop-receipt",
        };
        let temporary_name = cat5(".", name, ".", unique, ".tmp");
        let temporary = join_path(parent.as_str(), temporary_name.as_str());
        Ok(
            ReceiptWrite {
                path: path.to_owned(),
                parent,
                temporary,
                value,
                bytes: Vec::new(),
                stage: ReceiptStage::CreateDirectory,
                error: None,
            },
        )
    }

    /// Plans a durable write through a fresh temporary file.
    pub fn begin(
        path: &str,
        parent: Option<String>,
        file_name: Option<String>,
        value: Json,
    ) -> (r: RefineResult<ReceiptWrite>)
        ensures
            match r {
                Ok(w) => parent matches Some(p) && w.parent == p && w.path@ == path@ && w.value
                    == value && w.bytes@ == Seq::<u8>::empty() && w.stage
                    == ReceiptStage::CreateDirectory && w.error is None
                    && exists|unique: Seq<char>|
                    w.temporary@ == #[trigger] temporary_path(
                        p@,
                        crate::text::maybe_view(file_name),
                        unique,
                    ),
                Err(e) => parent is None && e@ == crate::errors::ErrorView::InvalidInput(
                    "partial process-stop receipt "@ + path@ + " has no parent"@,
                ),
            },
    {
        let unique = fresh_id();
        ReceiptWrite::with_unique(path, parent, file_name, value, unique.as_str())
    }

    fn io_message(&self, text: &str) -> (r: String)
        ensures
            r@ == receipt_io_message(*self, text@),
    {
        let (what, at) = match self.stage {
            ReceiptStage::CreateDirectory => (
                "failed to create partial process-stop receipt directory ",
                self.parent.as_str(),
            ),
            ReceiptStage::CreateTemporary => (
                "failed to create partial process-stop receipt ",
                self.temporary.as_str(),
            ),
            ReceiptStage::WriteTemporary => (
                "failed to write partial process-stop receipt ",
                self.temporary.as_str(),
            ),
            ReceiptStage::SyncTemporary => (
                "failed to sync partial process-stop receipt ",
                self.temporary.as_str(),
            ),
            ReceiptStage::Rename => (
                "failed to commit partial process-stop receipt ",
                self.path.as_str(),
            ),
            _ => (
                "failed to sync partial process-stop receipt directory ",
                self.parent.as_str(),
            ),
        };
        let mut m = cat3(what, at, ": ");
        m.append(text);
        m
    }

    /// Takes note of what came of the current effect.
    pub fn advance(&mut self, event: ReceiptEvent)
        ensures
            final(self).path == old(self).path,
            final(self).parent == old(self).parent,
            final(self).temporary == old(self).temporary,
            final(self).value == old(self).value,
            old(self).stage == ReceiptStage::CreateDirectory && event is Succeeded ==> encoding_step(
                *old(self),
                *final(self),
            ),
            !(old(self).stage == ReceiptStage::CreateDirectory && event is Succeeded)
                ==> final(self).bytes == old(self).bytes && final(self).stage == next_receipt_stage(
                old(self).stage,
                event is Succeeded,
            ) && crate::errors::error_view(final(self).error) == next_receipt_error(*old(self), event),
    {
        if self.stage == ReceiptStage::RemoveTemporary || self.stage == ReceiptStage::Failed {
            self.stage = ReceiptStage::Failed;
            return;
        }
        if self.stage == ReceiptStage::Written {
            return;
        }
        match event {
            ReceiptEvent::Succeeded => {
                self.stage = match self.stage {
                    ReceiptStage::CreateDirectory => match write_pretty(&self.value) {
                        Ok(bytes) => {
                            self.bytes = bytes;
                            ReceiptStage::CreateTemporary
                        },
                        Err(text) => {
                            self.error = Some(
                                RefineError::Serialization(
                                    cat2(
                                        "failed to encode partial process-stop receipt: ",
                                        text.as_str(),
                                    ),
                                ),
                            );
                            ReceiptStage::Failed
                        },
                    },
                    ReceiptStage::CreateTemporary => ReceiptStage::WriteTemporary,
                    ReceiptStage::WriteTemporary => ReceiptStage::SyncTemporary,
                    ReceiptStage::SyncTemporary => ReceiptStage::Observe(
                        DurableReceiptBoundary::FileSyncedBeforeRename,
                    ),
                    ReceiptStage::Observe(DurableReceiptBoundary::FileSyncedBeforeRename) => ReceiptStage::Rename,
                    ReceiptStage::Rename => ReceiptStage::Observe(
                        DurableReceiptBoundary::RenamedBeforeDirectorySync,
                    ),
                    ReceiptStage::Observe(DurableReceiptBoundary::RenamedBeforeDirectorySync) => ReceiptStage::SyncDirectory,
                    ReceiptStage::SyncDirectory => ReceiptStage::Observe(
                        DurableReceiptBoundary::DirectorySynced,
                    ),
                    ReceiptStage::Observe(DurableReceiptBoundary::DirectorySynced) => ReceiptStage::Written,
                    other => other,
                };
            },
            ReceiptEvent::IoFailed(text) => {
                let message = self.io_message(text.as_str());
                self.error = Some(RefineError::Io(message));
                self.stage = self.failed_stage();
            },
            ReceiptEvent::Refused(e) => {
                self.error = Some(e);
                self.stage = self.failed_stage();
            },
        }
    }

    fn failed_stage(&self) -> (r: ReceiptStage)
        ensures
            r == (if self.stage == ReceiptStage::Written {
                ReceiptStage::Failed
            } else {
                next_receipt_stage(self.stage, false)
            }),
    {
        match self.stage {
            ReceiptStage::CreateTemporary => ReceiptStage::RemoveTemporary,
            ReceiptStage::WriteTemporary => ReceiptStage::RemoveTemporary,
            ReceiptStage::SyncTemporary => ReceiptStage::RemoveTemporary,
            ReceiptStage::Observe(DurableReceiptBoundary::FileSyncedBeforeRename) => ReceiptStage::RemoveTemporary,
            ReceiptStage::Rename => ReceiptStage::RemoveTemporary,
            _ => ReceiptStage::Failed,
        }
    }
}

/// The receipt's own path changes only by the rename, which comes only after
/// its new contents are synced and observed.
pub proof fn receipts_are_replaced_only_when_synced(stage: ReceiptStage, ok: bool)
    requires
        next_receipt_stage(stage, ok) == ReceiptStage::Rename,
    ensures
        ok,
        stage == ReceiptStage::Observe(DurableReceiptBoundary::FileSyncedBeforeRename),
{
}

/// A write that fails after its temporary file was created and before the
/// rename took effect removes the temporary file first.
pub proof fn temporary_files_are_removed(stage: ReceiptStage)
    requires
        stage == ReceiptStage::CreateTemporary || stage == ReceiptStage::WriteTemporary || stage
            == ReceiptStage::SyncTemporary || stage == ReceiptStage::Rename || stage
            == ReceiptStage::Observe(DurableReceiptBoundary::FileSyncedBeforeRename),
    ensures
        next_receipt_stage(stage, false) == ReceiptStage::RemoveTemporary,
        next_receipt_stage(ReceiptStage::RemoveTemporary, true) == ReceiptStage::Failed,
{
}

} // verus!

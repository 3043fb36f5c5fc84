use refine::codec::parse_json;
use refine::errors::RefineError;
use refine::json::Json;
use refine::model::{GoalIndexProjection, GoalPriority, GoalStatus, GoalSummaryProjection};
use refine::process_control::ownership::{
    owner_of_process, preflight_goal_for_process, preflight_goal_state, stale_workflow_ownership,
    ManagedProcess, WorkflowAutomationState, WorkflowClaim, WorkflowClaimState,
    WorkflowGoalOwnership, WorkflowOwnershipPhase, WorktreeRead,
};
use refine::process_control::protocol::{StopProtocol, StopStage};
use refine::process_control::receipts::{
    cancellation_settlement_recovery, termination_outcome_flag, DurableReceiptBoundary,
    ReceiptEvent, ReceiptStage, ReceiptWrite, StopContext, TerminationEvent, TerminationIntent,
    TerminationRun, TerminationStage,
};
use refine::process_control::termination::{
    agent_stop_fence, agent_stop_links, agent_stop_protocol, build_stop_result,
    chat_stop_protocol, chat_stop_result, chat_termination_summary, check_stop_request,
    execution_cancellation_result, execution_stop_protocol, execution_to_cancel,
    managed_process_roots, owned_executions, plan_chat_stop, plan_execution_cancellation,
    process_worktree, recovered_stop, retained_worktrees, signalled_stop_result, CancellableClaim,
    CancellationStart, ChatSession,
    ExecutionPlan, FileProcessControlService, GoalSettlement, ManagedCancellation,
    RecoveredTermination, StopRoute,
};
use refine::text_map::TextMap;

fn text(value: &str) -> String {
    value.to_string()
}

fn state_of(name: &str) -> Json {
    let mut value = Json::object();
    value.set("state", Json::text(name));
    value
}

const PARENT: &str = "process-control-journal-durability/process-stop-outcomes";
const JOURNAL: &str =
    "process-control-journal-durability/process-stop-outcomes/workflow-cancellation-GOAL-claim.json";

/// A directory that holds at most the journal and its temporary copy.
struct Directory {
    journal: Option<Vec<u8>>,
    temporary: Option<Vec<u8>>,
}

impl Directory {
    fn write(
        &mut self,
        value: Json,
        mut observe: impl FnMut(DurableReceiptBoundary) -> Option<RefineError>,
    ) -> Result<(), RefineError> {
        let mut write = ReceiptWrite::begin(
            JOURNAL,
            Some(text(PARENT)),
            Some(text("workflow-cancellation-GOAL-claim.json")),
            value,
        )?;
        assert!(write.temporary.ends_with(".tmp"));
        assert!(write.temporary.starts_with(PARENT));
        loop {
            let event = match write.stage {
                ReceiptStage::WriteTemporary => {
                    self.temporary = Some(write.bytes.clone());
                    ReceiptEvent::Succeeded
                }
                ReceiptStage::Observe(boundary) => match observe(boundary) {
                    Some(error) => ReceiptEvent::Refused(error),
                    None => ReceiptEvent::Succeeded,
                },
                ReceiptStage::Rename => {
                    self.journal = self.temporary.take();
                    ReceiptEvent::Succeeded
                }
                ReceiptStage::RemoveTemporary => {
                    self.temporary = None;
                    ReceiptEvent::Succeeded
                }
                ReceiptStage::Written => return Ok(()),
                ReceiptStage::Failed => return Err(write.error.unwrap()),
                _ => ReceiptEvent::Succeeded,
            };
            write.advance(event);
        }
    }

    fn state(&self) -> String {
        let stored = parse_json(self.journal.as_ref().unwrap()).ok().unwrap();
        stored.get_string("state").unwrap()
    }
}

#[test]
fn cancellation_journal_writer_exposes_synced_atomic_boundaries() {
    let mut directory = Directory { journal: None, temporary: None };
    directory.write(state_of("prepared"), |_| None).unwrap();

    let before_rename = directory
        .write(state_of("claim_persisted"), |boundary| {
            if boundary == DurableReceiptBoundary::FileSyncedBeforeRename {
                Some(RefineError::Io(text("injected crash after journal file sync")))
            } else {
                None
            }
        })
        .unwrap_err();
    assert!(before_rename.describe().contains("injected crash after journal file sync"));
    assert_eq!(directory.state(), "prepared");

    let after_rename = directory
        .write(state_of("capacity_released"), |boundary| {
            if boundary == DurableReceiptBoundary::RenamedBeforeDirectorySync {
                Some(RefineError::Io(text("injected crash before journal directory sync")))
            } else {
                None
            }
        })
        .unwrap_err();
    assert!(after_rename.describe().contains("injected crash before journal directory sync"));
    assert_eq!(directory.state(), "capacity_released");

    let mut boundaries = Vec::new();
    directory
        .write(state_of("committed"), |boundary| {
            boundaries.push(boundary);
            None
        })
        .unwrap();
    assert_eq!(
        boundaries,
        vec![
            DurableReceiptBoundary::FileSyncedBeforeRename,
            DurableReceiptBoundary::RenamedBeforeDirectorySync,
            DurableReceiptBoundary::DirectorySynced,
        ]
    );
    assert_eq!(directory.state(), "committed");
    assert!(directory.temporary.is_none());
}

#[test]
fn io_failures_of_a_receipt_name_the_step() {
    let mut write = ReceiptWrite::with_unique(
        "dir/receipt.json",
        Some(text("dir")),
        Some(text("receipt.json")),
        state_of("x"),
        "U1",
    )
    .ok()
    .unwrap();
    assert_eq!(write.temporary, "dir/.receipt.json.U1.tmp");
    write.advance(ReceiptEvent::IoFailed(text("denied")));
    assert_eq!(write.stage, ReceiptStage::Failed);
    assert_eq!(
        write.error.unwrap().describe(),
        "failed to create partial process-stop receipt directory dir: denied"
    );
    let orphan = ReceiptWrite::begin("/", None, None, state_of("x")).err().unwrap();
    assert_eq!(orphan.describe(), "partial process-stop receipt / has no parent");
}

fn ownership() -> WorkflowGoalOwnership {
    WorkflowGoalOwnership {
        process_id: text("process-1"),
        claim_id: text("claim-current"),
        execution_id: Some(text("exec-current")),
        round_idx: Some(0),
    }
}

fn stop_context() -> StopContext {
    StopContext {
        process_id: text("process-1"),
        goal_id: Some(text("GOAL-REGISTRY-CLEANUP")),
        workflow: Some(ownership()),
        intent: TerminationIntent { name: text("terminate"), disposition: text("cancel") },
        worktree: Json::null(),
        worktree_retention: Json::object(),
    }
}

fn exited() -> Json {
    let mut outcome = Json::object();
    outcome.set("confirmed_exit", Json::boolean(true));
    outcome.set("registry_cleanup_completed", Json::boolean(false));
    outcome.set("identity_cleanup_completed", Json::boolean(false));
    outcome
}

#[test]
fn registry_cleanup_failure_retains_confirmed_exit_before_goal_settlement() {
    let mut run = TerminationRun::begin(stop_context());
    run.advance(TerminationEvent::Exited(exited()));
    assert_eq!(run.stage, TerminationStage::RecordExit);
    let receipt = run.receipt_at("2026-07-23T00:00:00Z").unwrap();
    assert_eq!(receipt.get_text("state"), Some("confirmed_exit_cleanup_pending"));
    assert_eq!(receipt.get("confirmed_exit").unwrap().as_bool(), Some(true));
    assert_eq!(receipt.get("registry_cleanup_completed").unwrap().as_bool(), Some(false));
    assert_eq!(receipt.get("identity_cleanup_completed").unwrap().as_bool(), Some(false));
    assert_eq!(receipt.get("goal_cancelled").unwrap().as_bool(), Some(false));
    assert_eq!(receipt.get_text("recorded_at"), Some("2026-07-23T00:00:00Z"));
    assert_eq!(
        receipt.get("workflow").unwrap().get_text("claim_id"),
        Some("claim-current")
    );
    run.advance(TerminationEvent::Recorded);
    run.advance(TerminationEvent::CleanupFailed(
        exited(),
        RefineError::Io(text("injected registry cleanup failure")),
    ));
    assert_eq!(run.stage, TerminationStage::Retain);
    assert!(!termination_outcome_flag(&run.termination, "registry_cleanup_completed"));
    assert!(termination_outcome_flag(&run.termination, "confirmed_exit"));
    assert_eq!(
        run.error.as_ref().unwrap().describe(),
        "injected registry cleanup failure"
    );
    run.advance(TerminationEvent::Retained(RefineError::Io(text("retained"))));
    assert_eq!(run.stage, TerminationStage::Failed);
    assert!(run.receipt().is_none());

    let protocol = execution_stop_protocol(&execution_plan(true, 0), 1);
    assert_eq!(protocol.next(protocol.first(), false), StopStage::Failed);
}

#[test]
fn an_unconfirmed_exit_leaves_the_goal_alone() {
    let mut run = TerminationRun::begin(stop_context());
    run.advance(TerminationEvent::ExitFailed(RefineError::Io(text("still alive"))));
    assert_eq!(run.stage, TerminationStage::Failed);
    assert_eq!(
        run.error.unwrap().describe(),
        "still alive; linked Goal GOAL-REGISTRY-CLEANUP remains non-cancelled; retry process \
         process-1 after recovery"
    );
}

#[test]
fn receipts_are_dated() {
    let mut run = TerminationRun::begin(stop_context());
    run.advance(TerminationEvent::Exited(exited()));
    let receipt = run.receipt().unwrap();
    assert!(receipt.get_text("recorded_at").unwrap() > "2024");
}

fn execution_plan(bound: bool, recovered: usize) -> ExecutionPlan {
    let expectation = if bound {
        preflight_goal_state(&goals(GoalStatus::InProgress), "GOAL1").ok()
    } else {
        None
    };
    ExecutionPlan {
        expectation,
        ownership: Vec::new(),
        terminations: (0..recovered).map(|_| Json::object()).collect(),
        worktrees: Vec::new(),
    }
}

fn effects(protocol: &StopProtocol, fails: Option<StopStage>) -> Vec<StopStage> {
    let mut stages = vec![protocol.first()];
    loop {
        let stage = *stages.last().unwrap();
        if stage == StopStage::Succeeded || stage == StopStage::Failed {
            return stages;
        }
        stages.push(protocol.next(stage, Some(stage) != fails));
    }
}

#[test]
fn an_execution_is_stopped_in_order() {
    let protocol = execution_stop_protocol(&execution_plan(true, 1), 2);
    let stages = effects(&protocol, None);
    assert_eq!(stages[0], StopStage::Terminate(0));
    assert_eq!(stages[1], StopStage::Terminate(1));
    let settled = stages.iter().position(|stage| *stage == StopStage::SettleGoal).unwrap();
    assert!(settled > 1);
    assert_eq!(stages.last(), Some(&StopStage::Succeeded));
    let failed = effects(&protocol, Some(StopStage::SettleGoal));
    assert!(failed.contains(&StopStage::Retain(0)));
    assert_eq!(failed.last(), Some(&StopStage::Failed));
    let unbound = execution_stop_protocol(&execution_plan(false, 0), 1);
    assert!(!effects(&unbound, None).contains(&StopStage::SettleGoal));
    assert!(effects(&unbound, None).contains(&StopStage::SettleClaim));
}

fn goal(id: &str, status: GoalStatus) -> GoalSummaryProjection {
    GoalSummaryProjection {
        goal: GoalIndexProjection {
            id: text(id),
            name: text(id),
            status,
            priority: GoalPriority::Low,
            reporter: None,
            assignee: None,
            round_count: 1,
            created: String::new(),
            updated: text("2026-07-23T00:00:00Z"),
            branch_name: None,
            node_id: None,
            feature_id: None,
            feature_order: None,
            json_path: String::new(),
        },
        node_display_name: None,
        latest_round_prompt: None,
        searchable_text: String::new(),
        activity_ids: Vec::new(),
    }
}

fn goals(status: GoalStatus) -> TextMap<GoalSummaryProjection> {
    let mut map = TextMap::new();
    map.insert(text("GOAL1"), goal("GOAL1", status));
    map
}

fn claims(state: WorkflowClaimState) -> WorkflowAutomationState {
    WorkflowAutomationState {
        claims: vec![WorkflowClaim {
            claim_id: text("claim-current"),
            goal_id: text("GOAL1"),
            execution_id: Some(text("exec-current")),
            state,
        }],
    }
}

fn agent(claim_id: &str) -> ManagedProcess {
    let mut api = Json::object();
    api.set("goal_id", Json::text("GOAL1"));
    ManagedProcess {
        id: text("process-1"),
        agent_owned: true,
        details: Some(format!(
            "{{\"goal_id\":\"GOAL1\",\"claim_id\":\"{claim_id}\",\"execution_id\":\"exec-current\",\
             \"round_idx\":0}}"
        )),
        api,
        worktree: WorktreeRead::At(text("worktrees/GOAL1")),
    }
}

#[test]
fn a_process_is_fenced_by_its_own_claim() {
    let fence = |state: &WorkflowAutomationState, process: &ManagedProcess| {
        preflight_goal_for_process(
            &goals(GoalStatus::InProgress),
            state,
            "GOAL1",
            process,
            WorkflowOwnershipPhase::BeforeTermination,
        )
    };
    let held = fence(&claims(WorkflowClaimState::Running), &agent("claim-current")).ok().unwrap();
    assert_eq!(held.workflow.unwrap().claim_id, "claim-current");
    assert_eq!(held.goal.status, GoalStatus::InProgress);
    assert_eq!(held.goal.node_id, "default");
    assert!(fence(&claims(WorkflowClaimState::Running), &agent("claim-old")).is_err());
    assert!(fence(&claims(WorkflowClaimState::Cancelled), &agent("claim-current")).is_err());
    let stale = stale_workflow_ownership(
        "GOAL1",
        &ownership(),
        "the claim ended",
        WorkflowOwnershipPhase::BeforeCancellation,
    );
    assert!(matches!(stale, RefineError::Conflict(_)));
    assert!(stale.describe().contains("the claim ended"));
}

#[test]
fn an_agent_stop_is_planned_from_its_links() {
    let process = agent("claim-current");
    let links = agent_stop_links(&process).ok().unwrap();
    assert_eq!(links.goal_id.as_deref(), Some("GOAL1"));
    assert_eq!(links.worktree.as_deref(), Some("worktrees/GOAL1"));
    assert!(links.session_id.is_none());
    let fence = agent_stop_fence(
        &links,
        &goals(GoalStatus::InProgress),
        &claims(WorkflowClaimState::Running),
        &Vec::new(),
        &process,
    )
    .ok()
    .unwrap();
    assert!(fence.is_some());
    let stages = effects(&agent_stop_protocol(&links), None);
    assert!(stages.contains(&StopStage::SettleGoal));
    assert_eq!(stages[0], StopStage::Terminate(0));
}

#[test]
fn executions_are_cancelled_once() {
    let service = FileProcessControlService::with_refine_dir("run/8080", "app/.refine");
    let cancel = |id: &str, state: WorkflowClaimState| {
        match service.cancel_workflow_execution(id, &Ok(()), Ok(None), &Ok(claims(state)))? {
            CancellationStart::Claim(claim) => Ok::<_, RefineError>(claim),
            CancellationStart::Replayed(_) => panic!("nothing was to be replayed"),
        }
    };
    assert!(matches!(
        cancel("exec-current", WorkflowClaimState::Running).ok().unwrap(),
        CancellableClaim::Running(_)
    ));
    assert!(matches!(
        cancel("exec-current", WorkflowClaimState::Cancelled).ok().unwrap(),
        CancellableClaim::AlreadyCancelled(_)
    ));
    assert_eq!(
        cancel("exec-other", WorkflowClaimState::Running).err().unwrap().describe(),
        "claim for execution exec-other was not found"
    );
    assert!(cancel("exec-current", WorkflowClaimState::Completed).is_err());
    let state = claims(WorkflowClaimState::Running);
    let plan = plan_execution_cancellation(
        Some(&goals(GoalStatus::InProgress)),
        &state,
        &state.claims[0],
        "exec-current",
        &vec![agent("claim-current")],
        &Vec::new(),
    )
    .ok()
    .unwrap();
    assert_eq!(plan.ownership.len(), 1);
    assert_eq!(plan.expectation.unwrap().status, GoalStatus::InProgress);
}

fn replayed_settlement() -> Json {
    let mut goal = Json::object();
    goal.set("status", Json::text("cancelled"));
    let mut result = Json::object();
    result.set("cancelled", Json::boolean(true));
    result.set("settled_after_claim_cancellation", Json::boolean(true));
    result.set("goal", goal);
    result
}

#[test]
fn an_interrupted_settlement_is_replayed_before_any_claim() {
    let bound = FileProcessControlService::with_refine_dir("run/8080", "app/.refine");
    for state in [
        Ok(claims(WorkflowClaimState::Cancelled)),
        Ok(claims(WorkflowClaimState::Running)),
        Ok(claims(WorkflowClaimState::Completed)),
        Err(RefineError::Io(text("unreadable"))),
    ] {
        let begun = bound
            .cancel_workflow_execution(
                " exec-current ",
                &Ok(()),
                Ok(Some(replayed_settlement())),
                &state,
            )
            .ok()
            .unwrap();
        match begun {
            CancellationStart::Replayed(result) => {
                assert_eq!(result.get("cancelled").unwrap().as_bool(), Some(true));
                assert_eq!(result.get("goal").unwrap().get_text("status"), Some("cancelled"));
            }
            CancellationStart::Claim(_) => panic!("the claim was looked at"),
        }
    }

    let state = Ok(claims(WorkflowClaimState::Cancelled));
    let failed = Err(RefineError::Io(text("journal unreadable")));
    assert_eq!(
        bound
            .cancel_workflow_execution("exec-current", &Ok(()), failed, &state)
            .err()
            .unwrap()
            .describe(),
        "journal unreadable"
    );
    assert!(matches!(
        bound.cancel_workflow_execution("exec-current", &Ok(()), Ok(None), &state).ok().unwrap(),
        CancellationStart::Claim(CancellableClaim::AlreadyCancelled(_))
    ));
    let unreadable = Err(RefineError::Io(text("state unreadable")));
    assert_eq!(
        bound
            .cancel_workflow_execution("exec-current", &Ok(()), Ok(None), &unreadable)
            .err()
            .unwrap()
            .describe(),
        "state unreadable"
    );
    let locked = Err(RefineError::Conflict(text("locked")));
    assert_eq!(
        bound
            .cancel_workflow_execution(
                "exec-current",
                &locked,
                Ok(Some(replayed_settlement())),
                &state,
            )
            .err()
            .unwrap()
            .describe(),
        "locked"
    );
    assert_eq!(
        bound
            .cancel_workflow_execution("  ", &locked, Ok(Some(replayed_settlement())), &state)
            .err()
            .unwrap()
            .describe(),
        "workflow execution id is required"
    );
}

#[test]
fn a_service_without_a_target_replays_nothing() {
    let unbound = FileProcessControlService::new("run/8080");
    let state = Ok(claims(WorkflowClaimState::Running));
    for replayed in [
        Ok(Some(replayed_settlement())),
        Ok(None),
        Err(RefineError::Io(text("journal unreadable"))),
    ] {
        assert!(matches!(
            unbound
                .cancel_workflow_execution("exec-current", &Ok(()), replayed, &state)
                .ok()
                .unwrap(),
            CancellationStart::Claim(CancellableClaim::Running(_))
        ));
    }
    assert_eq!(execution_to_cancel(" exec ").ok().unwrap(), "exec");
    assert!(execution_to_cancel("\t").is_err());
}

#[test]
fn signalled_and_recovered_stops_are_reported() {
    let mut shown = Json::object();
    shown.set("id", Json::text("process-1"));
    let report = signalled_stop_result(shown);
    assert_eq!(report.get("stopped").unwrap().as_bool(), Some(true));
    assert_eq!(report.get("process").unwrap().get_text("id"), Some("process-1"));
    assert!(report.get("termination").is_none());

    let kept = recovered_stop("process-1", Ok(Some(replayed_settlement()))).ok().unwrap();
    assert_eq!(kept.get("cancelled").unwrap().as_bool(), Some(true));
    assert_eq!(
        recovered_stop("process-1", Ok(None)).err().unwrap().describe(),
        "Process process-1 was not found"
    );
    assert_eq!(
        recovered_stop("process-1", Err(RefineError::Io(text("unreadable"))))
            .err()
            .unwrap()
            .describe(),
        "unreadable"
    );
}

#[test]
fn stops_are_routed_by_what_is_found() {
    let service = FileProcessControlService::new("run/8080");
    let route = |id: &str, signal: &str, found: Option<ManagedProcess>| {
        service.stop(id, signal, &Ok(found))
    };
    assert_eq!(
        service
            .stop("process-1", "stop", &Err(RefineError::Io(text("registry unreadable"))))
            .err()
            .unwrap()
            .describe(),
        "registry unreadable"
    );
    assert!(check_stop_request("process-1", "stop").is_ok());
    assert!(check_stop_request("a/b", "stop").is_err());
    assert!(matches!(
        route("process-1", "terminate", Some(agent("claim-current"))).ok().unwrap(),
        StopRoute::Agent(_)
    ));
    assert!(matches!(
        route("chat-session-S1", "terminate", None).ok().unwrap(),
        StopRoute::Chat(session) if session == "S1"
    ));
    assert!(matches!(route("gone", "kill", None).ok().unwrap(), StopRoute::Recover));
    assert!(route("", "terminate", None).is_err());
    assert_eq!(
        route("process-1", "hangup", None).err().unwrap().describe(),
        "unsupported termination signal hangup"
    );
    let (agents, processes) = managed_process_roots("run/8080");
    assert_ne!(agents, processes);
    assert!(agents.starts_with("run/8080"));
}

#[test]
fn a_chat_is_stopped_with_the_agents_of_its_goal() {
    let sessions = vec![ChatSession {
        id: text("S1"),
        closed: false,
        goal_id: Some(text("GOAL1")),
        in_flight: true,
        queue_dispatching: false,
    }];
    let plan = plan_chat_stop(
        "chat-session-S1",
        "S1",
        &sessions,
        &goals(GoalStatus::InProgress),
        &claims(WorkflowClaimState::Running),
        &vec![agent("claim-current")],
    )
    .ok()
    .unwrap();
    assert_eq!(plan.goal_id.as_deref(), Some("GOAL1"));
    assert_eq!(plan.worktrees, vec!["worktrees/GOAL1"]);
    let stages = effects(&chat_stop_protocol(&plan, 1), None);
    assert_eq!(stages[0], StopStage::Terminate(0));
    assert_eq!(stages.last(), Some(&StopStage::Succeeded));
    assert!(plan_chat_stop(
        "chat-session-S9",
        "S9",
        &sessions,
        &goals(GoalStatus::InProgress),
        &claims(WorkflowClaimState::Running),
        &Vec::new(),
    )
    .is_err());
    let kept = retained_worktrees(vec![text("worktrees/OLD")], &vec![agent("claim-current")]);
    assert_eq!(kept.unwrap(), vec!["worktrees/OLD", "worktrees/GOAL1"]);
}

#[test]
fn an_unreadable_worktree_stops_a_cancellation() {
    let mut broken = agent("claim-current");
    broken.worktree = WorktreeRead::Failed(RefineError::Io(text("unreadable worktree")));
    let mut none = agent("claim-current");
    none.worktree = WorktreeRead::Absent;
    let managed = vec![agent("claim-current"), broken, agent("claim-current")];
    assert_eq!(
        retained_worktrees(Vec::new(), &managed).unwrap_err().describe(),
        "unreadable worktree"
    );
    assert_eq!(process_worktree(&managed[0]).unwrap().as_deref(), Some("worktrees/GOAL1"));
    assert!(process_worktree(&managed[1]).is_err());
    assert_eq!(process_worktree(&none).unwrap(), None);
    let readable = vec![agent("claim-current"), none, agent("claim-current")];
    assert_eq!(retained_worktrees(Vec::new(), &readable).unwrap(), vec!["worktrees/GOAL1"]);
}

#[test]
fn recovered_exits_count_only_where_no_process_is_left() {
    let recovered = || {
        vec![RecoveredTermination {
            ownership: WorkflowGoalOwnership {
                process_id: text("process-0"),
                claim_id: text("claim-current"),
                execution_id: Some(text("exec-current")),
                round_idx: None,
            },
            termination: Json::object(),
            worktree: Some(text("worktrees/OLD")),
        }]
    };
    let known = goals(GoalStatus::InProgress);
    let state = claims(WorkflowClaimState::Running);
    let plan = |bound: bool, managed: &Vec<ManagedProcess>| {
        plan_execution_cancellation(
            if bound { Some(&known) } else { None },
            &state,
            &state.claims[0],
            "exec-current",
            managed,
            &recovered(),
        )
        .ok()
        .unwrap()
    };
    let gone = plan(true, &Vec::new());
    assert_eq!(gone.ownership[0].process_id, "process-0");
    assert_eq!(gone.terminations.len(), 1);
    assert_eq!(gone.worktrees, vec!["worktrees/OLD"]);
    assert_eq!(execution_stop_protocol(&gone, 0).receipts, 1);
    let running = plan(true, &vec![agent("claim-current")]);
    assert_eq!(running.ownership.len(), 1);
    assert!(running.terminations.is_empty());
    assert!(running.worktrees.is_empty());
    let unbound = plan(false, &Vec::new());
    assert_eq!(unbound.ownership.len(), 1);
    assert_eq!(unbound.ownership[0].process_id, "workflow execution exec-current");
    assert!(unbound.terminations.is_empty());
}

#[test]
fn the_journal_says_how_a_cancellation_continues() {
    assert!(cancellation_settlement_recovery("rolled_back")
        .contains("same explicit termination intent"));
    assert!(cancellation_settlement_recovery("committed").contains("are settled"));
    assert!(cancellation_settlement_recovery("prepared").contains("replay this journal"));
}

fn intent(name: &str) -> TerminationIntent {
    TerminationIntent { name: text(name), disposition: text("cancel") }
}

fn settlement(name: &str) -> GoalSettlement {
    let mut goal = Json::object();
    goal.set("id", Json::text("GOAL1"));
    GoalSettlement { goal, worktree_retention: Json::object(), termination_intent: intent(name) }
}

#[test]
fn stops_report_the_intent_that_held() {
    let plain = build_stop_result(&intent("pause"), &None, Json::object(), Json::null());
    assert_eq!(plain.get_text("termination_intent"), Some("pause"));
    assert_eq!(plain.get("intent_superseded").unwrap().as_bool(), Some(false));
    assert!(plain.get("goal").is_none());
    let superseded = build_stop_result(
        &intent("pause"),
        &Some(settlement("cancel")),
        Json::object(),
        Json::null(),
    );
    assert_eq!(superseded.get_text("requested_termination_intent"), Some("pause"));
    assert_eq!(superseded.get_text("termination_intent"), Some("cancel"));
    assert_eq!(superseded.get("intent_superseded").unwrap().as_bool(), Some(true));
    assert_eq!(superseded.get("goal").unwrap().get_text("id"), Some("GOAL1"));
}

#[test]
fn a_stopped_chat_is_reported_as_a_process() {
    let session = ChatSession {
        id: text("S1"),
        closed: false,
        goal_id: None,
        in_flight: false,
        queue_dispatching: false,
    };
    let report =
        chat_stop_result("chat-session-S1", &session, &intent("pause"), &None, Vec::new());
    let process = report.get("process").unwrap();
    assert_eq!(process.get_text("session_id"), Some("S1"));
    assert_eq!(process.get_text("status"), Some("stopped"));
    assert!(process.get("pid").unwrap().is_null());
    let idle = report.get("termination").unwrap().get("already_idle").unwrap();
    assert_eq!(idle.as_bool(), Some(true));
    let summary = chat_termination_summary(&vec![exited()]);
    assert_eq!(summary.get("already_idle").unwrap().as_bool(), Some(false));
    assert!(termination_outcome_flag(&summary, "confirmed_exit"));
}

#[test]
fn cancelled_executions_report_their_processes() {
    let state = claims(WorkflowClaimState::Running);
    let report = execution_cancellation_result(
        "exec-current",
        &state.claims[0],
        vec![exited()],
        &Some(settlement("cancel")),
    );
    assert_eq!(report.get_text("claim_id"), Some("claim-current"));
    assert_eq!(report.get_array("processes").unwrap().len(), 1);
    let unbound = execution_cancellation_result("exec-current", &state.claims[0], Vec::new(), &None);
    assert!(unbound.get("goal").unwrap().is_null());
    let twice = owned_executions(&vec![ownership(), ownership()]);
    assert_eq!(twice, vec!["exec-current"]);
}

#[test]
fn grouped_terminations_need_the_flag_everywhere() {
    let mut group = Json::object();
    group.set("managed_processes", Json::array(vec![exited(), exited()]));
    assert!(termination_outcome_flag(&group, "confirmed_exit"));
    group.set("managed_processes", Json::array(vec![exited(), Json::object()]));
    assert!(!termination_outcome_flag(&group, "confirmed_exit"));
    assert!(!termination_outcome_flag(&Json::object(), "confirmed_exit"));
}

#[test]
fn managed_cancellations_bracket_the_execution() {
    let service = FileProcessControlService::new("run/8080");
    let next = |stage, ok| service.cancel_workflow_execution_managed(stage, ok);
    assert_eq!(
        next(ManagedCancellation::CancelOperations, true),
        ManagedCancellation::CancelExecution
    );
    assert_eq!(
        next(ManagedCancellation::CancelExecution, true),
        ManagedCancellation::ConfirmOperations
    );
    assert_eq!(
        next(ManagedCancellation::ConfirmOperations, true),
        ManagedCancellation::Cancelled
    );
    assert_eq!(next(ManagedCancellation::CancelExecution, false), ManagedCancellation::Failed);
}

#[test]
fn the_first_ownership_of_a_process_counts() {
    let mut second = ownership();
    second.claim_id = text("claim-later");
    let mut other = ownership();
    other.process_id = text("process-2");
    let held = vec![other, ownership(), second];
    assert_eq!(owner_of_process(&held, "process-1").unwrap().claim_id, "claim-current");
    assert_eq!(owner_of_process(&held, "process-2").unwrap().process_id, "process-2");
    assert!(owner_of_process(&held, "process-3").is_none());
}

use refine::errors::RefineError;
use refine::json::{clone_json, Json};
use refine::merging::approval::{ApprovalEvent, ApprovalStage};
use refine::merging::integration::{
    GitAction, GoalRead, IntegrationEvent, IntegrationRun, IntegrationStage,
};
use refine::merging::reconciliation::{
    same_integration, NodeClaim, RevertAction, RevertEvent, RevertRun, RevertStage, WorktreeStatus,
};
use refine::merging::{
    branch_name_for_goal, integration_operation_name,
    integration_operation_request, recorded_evidence, target_root, verify_integration_fence,
    EvidenceRead, ExpectedRefs, FileMergerService, MergeResult, ReconciliationRequest,
    RoundIntegration, WorkflowExecutionFence,
};
use refine::merging::settlement::{
    integration_failure, SettlementEvent, SettlementRun, SettlementStage,
};
use refine::model::GoalStatus;
use refine::process_control::ownership::{WorkflowClaim, WorkflowClaimState};

const NOW: &str = "2026-07-25T12:00:00Z";

fn text(value: &str) -> String {
    value.to_string()
}

fn service() -> FileMergerService {
    FileMergerService::new("run/8080", "app/.refine")
}

fn merge(ok: bool, message: &str) -> MergeResult {
    MergeResult { ok, conflicts: Vec::new(), message: Some(text(message)) }
}

fn evidence(pushed: bool) -> RoundIntegration {
    RoundIntegration {
        candidate_commit: text("cand"),
        target_branch: text("main"),
        target_commit: text("merged"),
        remote: text("origin"),
        pushed,
        integrated_at: text(NOW),
        merge: merge(true, "merged"),
    }
}

fn detail() -> Json {
    let mut round = Json::object();
    round.set("workflow_git_remote", Json::text("origin"));
    let mut detail = Json::object();
    detail.set("status", Json::text("ready-merge"));
    detail.set("branch_name", Json::text("refine/GOAL1/round-1"));
    detail.set("target_branch", Json::text("main"));
    detail.set("base_commit", Json::text("base"));
    detail.set("candidate_commit", Json::text("cand"));
    detail.set("workflow_revision", Json::unsigned(3));
    detail.set("rounds", Json::array(vec![round]));
    detail
}

fn read(detail: Json, evidence: EvidenceRead) -> IntegrationEvent {
    IntegrationEvent::Goal(GoalRead {
        node_id: None,
        status: GoalStatus::ReadyMerge,
        detail,
        evidence,
    })
}

fn started() -> IntegrationRun {
    service().integrate_workflow_candidate(
        "GOAL1",
        0,
        "default",
        "refine/GOAL1/round-1",
        "cand",
        "origin",
    )
}

/// A repository whose answers are fixed.
struct Repository {
    remote: bool,
    published: bool,
    based: bool,
    merged: bool,
    merge_ok: bool,
}

impl Repository {
    fn answer(&self, run: &IntegrationRun, action: &GitAction) -> IntegrationEvent {
        match action {
            GitAction::ReadGoal => read(detail(), EvidenceRead::Absent),
            GitAction::FindRemote(_) => IntegrationEvent::Answer(self.remote),
            GitAction::Resolve(name) => IntegrationEvent::Commit(match name.as_str() {
                "cand" | "origin/refine/GOAL1/round-1" => text("cand"),
                "origin/main" => text("remote-main"),
                _ => text("local-main"),
            }),
            GitAction::IsAncestor(_, _) => IntegrationEvent::Answer(match run.stage {
                IntegrationStage::ProvePublished => self.published,
                IntegrationStage::ProveBase => self.based,
                IntegrationStage::ProveMerged => self.merged,
                IntegrationStage::ProveStaleTarget => self.merged,
                _ => true,
            }),
            GitAction::Merge(_) => IntegrationEvent::Merged(merge(self.merge_ok, "by git")),
            GitAction::PersistEvidence => IntegrationEvent::Persisted(4),
            _ => IntegrationEvent::Done,
        }
    }

    fn run(&self) -> (IntegrationRun, Vec<String>) {
        let mut run = started();
        let mut effects = Vec::new();
        for _ in 0..100 {
            let action = run.action();
            match &action {
                GitAction::Finished => return (run, effects),
                GitAction::Switch(branch) => effects.push(format!("switch {branch}")),
                GitAction::Merge(commit) => effects.push(format!("merge {commit}")),
                GitAction::Push(remote, branch) => effects.push(format!("push {remote} {branch}")),
                GitAction::FastForward(_, branch) => effects.push(format!("forward {branch}")),
                GitAction::PersistEvidence => effects.push(text("persist")),
                GitAction::AdvanceFence(revision) => effects.push(format!("advance {revision}")),
                GitAction::Recover => effects.push(text("recover")),
                _ => {}
            }
            let event = self.answer(&run, &action);
            run.advance_at(event, NOW);
        }
        panic!("the merge does not end");
    }
}

fn repository() -> Repository {
    Repository { remote: true, published: false, based: true, merged: false, merge_ok: true }
}

#[test]
fn a_candidate_is_merged_pushed_and_recorded() {
    let (run, effects) = repository().run();
    assert_eq!(run.stage, IntegrationStage::Integrated);
    assert_eq!(
        effects,
        vec!["switch main", "merge cand", "push origin main", "persist", "advance 4"]
    );
    let recorded = run.evidence.unwrap();
    assert_eq!(recorded.candidate_commit, "cand");
    assert_eq!(recorded.target_commit, "local-main");
    assert!(recorded.pushed);
    assert_eq!(recorded.integrated_at, NOW);
}

#[test]
fn without_a_remote_nothing_is_pushed() {
    let (run, effects) = Repository { remote: false, ..repository() }.run();
    assert_eq!(run.stage, IntegrationStage::Integrated);
    assert_eq!(effects, vec!["switch main", "merge cand", "persist", "advance 4"]);
    assert!(!run.evidence.unwrap().pushed);
}

#[test]
fn a_published_merge_is_recovered_without_another() {
    let (run, effects) = Repository { published: true, ..repository() }.run();
    assert_eq!(run.stage, IntegrationStage::Integrated);
    assert_eq!(effects, vec!["switch main", "forward main", "persist", "advance 4"]);
    let recorded = run.evidence.unwrap();
    assert_eq!(recorded.target_commit, "remote-main");
    assert_eq!(
        recorded.merge.message.as_deref(),
        Some("Recovered successful Ready Merge integration from the published target branch")
    );
}

#[test]
fn conflicts_are_recovered_from_and_never_pushed() {
    let (run, effects) = Repository { merge_ok: false, ..repository() }.run();
    assert_eq!(run.stage, IntegrationStage::Failed);
    assert_eq!(effects, vec!["switch main", "merge cand", "recover"]);
    assert_eq!(run.error.unwrap().describe(), "candidate integration failed: by git");
    assert!(run.evidence.is_none());
}

#[test]
fn a_stale_candidate_is_told_apart() {
    let (run, effects) = Repository { based: false, ..repository() }.run();
    assert!(effects.is_empty());
    assert!(matches!(run.error, Some(RefineError::StaleCandidate { .. })));
    let (run, _) = Repository { based: false, merged: true, ..repository() }.run();
    assert_eq!(run.stage, IntegrationStage::Integrated);
}

#[test]
fn a_goal_that_changed_is_not_merged() {
    let refusal = |edit: &dyn Fn(&mut Json)| {
        let mut changed = detail();
        edit(&mut changed);
        let mut run = started();
        run.advance_at(IntegrationEvent::Done, NOW);
        run.advance_at(read(changed, EvidenceRead::Absent), NOW);
        run.error.unwrap().describe()
    };
    assert_eq!(
        refusal(&|goal| goal.set("branch_name", Json::text("other"))),
        "Goal GOAL1 branch changed before Ready Merge integration: recorded other, worker \
         expected refine/GOAL1/round-1"
    );
    assert_eq!(
        refusal(&|goal| goal.set("rounds", Json::array(Vec::new()))),
        "Goal GOAL1 candidate round changed from 1 to 0 before integration"
    );
    assert_eq!(refusal(&|goal| goal.set("rounds", Json::null())), "Goal GOAL1 has no rounds");
    let mut run = started();
    run.advance_at(IntegrationEvent::Failed(RefineError::Conflict(text("fence moved"))), NOW);
    assert_eq!(run.error.unwrap().describe(), "fence moved");
}

#[test]
fn recorded_evidence_is_proven_again() {
    let prove = |yes: bool| {
        let mut run = started();
        run.advance(IntegrationEvent::Done);
        run.advance(read(detail(), EvidenceRead::Recorded(evidence(true))));
        run.advance(IntegrationEvent::Done);
        assert!(matches!(run.action(), GitAction::Fetch(_, _)));
        run.advance(IntegrationEvent::Done);
        run.advance(IntegrationEvent::Commit(text("tip")));
        run.advance(IntegrationEvent::Answer(yes));
        run.advance(IntegrationEvent::Done);
        run
    };
    assert_eq!(prove(true).stage, IntegrationStage::Integrated);
    assert_eq!(
        prove(false).error.unwrap().describe(),
        "Ready Merge evidence says candidate cand was integrated, but it is absent from main"
    );
}

#[test]
fn the_fence_names_what_moved() {
    let fence = WorkflowExecutionFence {
        goal_id: text("GOAL1"),
        node_id: text("default"),
        execution_id: text("exec"),
        round_idx: 0,
        goal_revision: 3,
    };
    let expected = ExpectedRefs {
        branch: text("refine/GOAL1/round-1"),
        candidate: text("cand"),
        remote: text("origin"),
    };
    let verify = |active: bool, detail: &Json| {
        verify_integration_fence(&fence, "op", active, "cancelled", detail, &expected)
    };
    assert!(verify(true, &detail()).is_ok());
    assert_eq!(
        verify(false, &detail()).unwrap_err().describe(),
        "Ready Merge operation op is cancelled; execution exec can no longer integrate or settle"
    );
    let moved = |key: &str, value: Json| {
        let mut changed = detail();
        changed.set(key, value);
        verify(true, &changed).unwrap_err().describe()
    };
    assert_eq!(
        moved("workflow_revision", Json::unsigned(4)),
        "Goal GOAL1 changed from Ready Merge revision 3 to 4"
    );
    assert_eq!(moved("status", Json::text("qa")), "Goal GOAL1 is no longer ready-merge");
    assert_eq!(
        moved("candidate_commit", Json::text("x")),
        "Goal GOAL1 candidate changed before Ready Merge integration"
    );
    let request = integration_operation_request(&fence, "claim", &expected);
    assert!(request.is_object());
    assert!(integration_operation_name("GOAL1", 0).contains("GOAL1"));
}

#[test]
fn failures_of_registered_merges_are_recorded_unless_cancelled() {
    let stale = RefineError::StaleCandidate {
        candidate_commit: text("cand"),
        recorded_base: text("base"),
        target_branch: text("main"),
        target_commit: text("tip"),
    };
    let failure = integration_failure("exec", false, None, stale);
    assert_eq!(
        failure.record.unwrap().get_text("code"),
        Some("ready_merge_candidate_stale")
    );
    let failure = integration_failure(
        "exec",
        false,
        Some(WorkflowClaimState::Running),
        RefineError::Io(text("boom")),
    );
    assert_eq!(
        failure.record.unwrap().get_text("code"),
        Some("ready_merge_integration_failed")
    );
    let failure = integration_failure(
        "exec",
        false,
        Some(WorkflowClaimState::Cancelled),
        RefineError::Io(text("boom")),
    );
    assert!(failure.record.is_none());
    assert_eq!(failure.error.describe(), "Ready Merge execution exec was cancelled: boom");
}

fn settling() -> SettlementRun {
    service().integrate_workflow_candidate_and_settle(
        "GOAL1",
        0,
        "exec",
        "default",
        "refine/GOAL1/round-1",
        "cand",
        "origin",
    )
}

fn merge_through(run: &mut SettlementRun, repository: &Repository) {
    for _ in 0..100 {
        if run.stage != SettlementStage::Integrate {
            return;
        }
        let action = run.merge.action();
        let event = repository.answer(&run.merge, &action);
        run.advance_at(SettlementEvent::Merge(event), NOW);
    }
    panic!("the merge does not end");
}

fn local(merge_ok: bool) -> Repository {
    Repository { remote: false, published: false, based: true, merged: false, merge_ok }
}

#[test]
fn the_settlement_gets_the_evidence_of_its_merge() {
    let mut run = settling();
    assert_eq!(run.stage, SettlementStage::CommitFence);
    run.advance(SettlementEvent::Done);
    assert_eq!(run.stage, SettlementStage::RegisterOperation);
    run.advance(SettlementEvent::Done);
    assert_eq!(run.stage, SettlementStage::Integrate);
    assert!(run.evidence().is_none());
    run.advance(SettlementEvent::Done);
    assert_eq!(run.stage, SettlementStage::Integrate);
    merge_through(&mut run, &local(true));
    assert_eq!(run.stage, SettlementStage::VerifyFence);
    run.advance(SettlementEvent::Done);
    assert_eq!(run.stage, SettlementStage::Settle);
    let given = run.evidence().unwrap();
    assert_eq!(given.candidate_commit, "cand");
    assert_eq!(given.target_branch, "main");
    assert_eq!(given.target_commit, "local-main");
    assert!(!given.pushed);
    run.advance(SettlementEvent::Done);
    assert_eq!(run.stage, SettlementStage::Settled);
    assert_eq!(run.evidence().unwrap().integrated_at, NOW);
}

#[test]
fn failures_after_registration_are_reported() {
    let mut early = settling();
    early.advance(SettlementEvent::Failed(RefineError::Io(text("no fence"))));
    assert_eq!(early.stage, SettlementStage::Failed);
    assert_eq!(early.error.unwrap().describe(), "no fence");

    let registered = || {
        let mut run = settling();
        run.advance(SettlementEvent::Done);
        run.advance(SettlementEvent::Done);
        run
    };
    let mut conflicting = registered();
    merge_through(&mut conflicting, &local(false));
    assert_eq!(conflicting.stage, SettlementStage::ReportFailure);
    assert!(conflicting.evidence().is_none());
    let expected = conflicting.merge.error.as_ref().unwrap().describe();
    let record = conflicting.report(false, Some(WorkflowClaimState::Running)).unwrap();
    assert_eq!(record.get_text("code"), Some("ready_merge_integration_failed"));
    assert_eq!(record.get_text("message"), Some(expected.as_str()));
    assert_eq!(record.get_text("execution_id"), Some("exec"));
    assert_eq!(conflicting.stage, SettlementStage::Failed);
    assert_eq!(conflicting.error.unwrap().describe(), expected);

    let mut unsettled = registered();
    merge_through(&mut unsettled, &local(true));
    unsettled.advance(SettlementEvent::Done);
    unsettled.advance(SettlementEvent::Failed(RefineError::Io(text("boom"))));
    assert_eq!(unsettled.stage, SettlementStage::ReportFailure);
    assert!(unsettled.report(true, None).is_none());
    assert_eq!(
        unsettled.error.unwrap().describe(),
        "Ready Merge execution exec was cancelled: boom"
    );
}

#[test]
fn a_given_root_is_preferred_to_the_one_that_is_found() {
    assert_eq!(target_root(&Some(text("given")), Ok(text("found"))).unwrap(), "given");
    assert_eq!(target_root(&None, Ok(text("found"))).unwrap(), "found");
    let lost = target_root(&None, Err(RefineError::NotFound(text("no target"))));
    assert_eq!(lost.unwrap_err().describe(), "no target");
}

#[test]
fn branches_follow_the_configured_pattern() {
    let mut settings = Json::object();
    assert_eq!(branch_name_for_goal(&settings, "GOAL1"), "refine/GOAL1");
    settings.set("branch_name_pattern", Json::text(" work/{goal_id}/{goal_id} "));
    assert_eq!(branch_name_for_goal(&settings, "GOAL1"), "work/GOAL1/GOAL1");
}

#[test]
fn acceptance_needs_the_candidate_in_the_target_and_its_publication() {
    let begin = |status: GoalStatus, detail: &Json, evidence: EvidenceRead| {
        service().approve_reviewed_goal("GOAL1", status, detail, evidence)
    };
    let refusal = |status: GoalStatus, detail: &Json, evidence: EvidenceRead| {
        begin(status, detail, evidence).err().unwrap().describe()
    };
    assert_eq!(
        refusal(GoalStatus::Qa, &detail(), EvidenceRead::Recorded(evidence(true))),
        "Goal GOAL1 can only be approved from review"
    );
    assert_eq!(
        refusal(GoalStatus::Review, &Json::object(), EvidenceRead::Absent),
        "Goal GOAL1 has no exact candidate commit to accept"
    );
    assert_eq!(
        refusal(GoalStatus::Review, &detail(), EvidenceRead::Absent),
        "Goal GOAL1 reached review without successful Ready Merge evidence"
    );
    let mut other = clone_json(&detail());
    other.set("candidate_commit", Json::text("later"));
    assert_eq!(
        refusal(GoalStatus::Review, &other, EvidenceRead::Recorded(evidence(true))),
        "Goal GOAL1 review candidate changed from integrated commit cand to later"
    );

    let prove = |pushed: bool, integrated: bool, published: bool| {
        let mut run = begin(GoalStatus::Review, &detail(), EvidenceRead::Recorded(evidence(pushed)))
            .ok()
            .unwrap();
        run.advance(ApprovalEvent::Commit(text("tip")));
        run.advance(ApprovalEvent::Answer(integrated));
        run.advance(ApprovalEvent::Done);
        run.advance(ApprovalEvent::Commit(text("remote-tip")));
        run.advance(ApprovalEvent::Answer(published));
        (run.stage, run.error.map(|error| error.describe()))
    };
    assert_eq!(prove(true, true, true), (ApprovalStage::AcceptGoal, None));
    assert_eq!(prove(false, true, false), (ApprovalStage::AcceptGoal, None));
    assert_eq!(
        prove(true, true, false).1.as_deref(),
        Some("Reviewed candidate cand is not published to origin/main")
    );
    assert_eq!(
        prove(true, false, true).1.as_deref(),
        Some("Reviewed candidate cand is not integrated in main")
    );
}

#[test]
fn runs_begin_with_nothing_known() {
    let run = service()
        .approve_reviewed_goal(
            "GOAL1",
            GoalStatus::Review,
            &detail(),
            EvidenceRead::Recorded(evidence(true)),
        )
        .ok()
        .unwrap();
    assert_eq!(run.commit, "");
    assert_eq!(run.integration.candidate_commit, "cand");
    assert!(run.stage == ApprovalStage::ResolveTarget && run.error.is_none());

    let run = reverting(true);
    assert_eq!((run.target_root.as_str(), run.expected.as_str()), ("app", "tip"));
    assert_eq!(run.commit, "");
    assert_eq!((run.first_parent.as_str(), run.second_parent.as_str()), ("", ""));
    assert!(!run.result.ok && run.result.conflicts.is_empty() && run.result.message.is_none());
    assert!(run.push_error.is_none() && run.error.is_none());
}

fn reverting(pushed: bool) -> RevertRun {
    let integration = evidence(pushed);
    service()
        .revert_reconciled_candidate_and_settle(
            &ReconciliationRequest {
                goal_id: "GOAL1",
                round_idx: 0,
                claim_id: "claim",
                execution_id: "exec",
                node_id: "default",
                integration: &integration,
                expected_target_commit: "tip",
            },
            "app",
            &Some(NodeClaim {
                claim: WorkflowClaim {
                    claim_id: text("claim"),
                    goal_id: text("GOAL1"),
                    execution_id: Some(text("exec")),
                    state: WorkflowClaimState::Running,
                },
                node_id: text("default"),
            }),
            GoalStatus::Qa,
            &detail(),
            EvidenceRead::Recorded(evidence(pushed)),
        )
        .ok()
        .unwrap()
}

fn clean() -> RevertEvent {
    RevertEvent::Inspected(WorktreeStatus {
        branch: Some(text("main")),
        dirty_user_changes: false,
        refine_owned_artifacts: false,
    })
}

#[test]
fn an_exact_merge_is_reverted_and_settled() {
    let mut run = reverting(false);
    run.advance(clean());
    run.advance(RevertEvent::Commit(text("tip")));
    run.advance(RevertEvent::Answer(true));
    run.advance(RevertEvent::Parents(vec![text("first"), text("second")]));
    assert!(matches!(run.action(), RevertAction::IsAncestor(_, parent) if parent == "first"));
    run.advance(RevertEvent::Answer(false));
    run.advance(RevertEvent::Answer(true));
    assert!(matches!(run.action(), RevertAction::Revert(commit, 1) if commit == "merged"));
    run.advance(RevertEvent::Reverted(merge(true, "reverted")));
    run.advance(RevertEvent::Commit(text("undo")));
    assert_eq!(run.stage, RevertStage::Settle);
    let outcome = run.outcome();
    assert_eq!(outcome.merge_commit, "merged");
    assert_eq!(outcome.revert_commit, "undo");
}

#[test]
fn a_revert_that_cannot_be_pushed_is_undone() {
    let mut run = reverting(true);
    run.advance(clean());
    run.advance(RevertEvent::Commit(text("tip")));
    run.advance(RevertEvent::Done);
    run.advance(RevertEvent::Commit(text("tip")));
    run.advance(RevertEvent::Answer(true));
    run.advance(RevertEvent::Parents(vec![text("first"), text("second")]));
    run.advance(RevertEvent::Answer(false));
    run.advance(RevertEvent::Answer(true));
    run.advance(RevertEvent::Reverted(merge(true, "reverted")));
    run.advance(RevertEvent::Commit(text("undo")));
    assert_eq!(run.stage, RevertStage::Push);
    run.advance(RevertEvent::Failed(RefineError::Io(text("offline"))));
    assert!(matches!(run.action(), RevertAction::Reset(commit) if commit == "tip"));
    run.advance(RevertEvent::Done);
    assert_eq!(
        run.error.unwrap().describe(),
        "reconciliation revert undo could not be pushed to origin/main; the clean local target \
         was restored to tip: offline"
    );
}

#[test]
fn an_ambiguous_merge_or_a_dirty_target_is_left_alone() {
    let mut run = reverting(false);
    run.advance(clean());
    run.advance(RevertEvent::Commit(text("tip")));
    run.advance(RevertEvent::Answer(true));
    run.advance(RevertEvent::Parents(vec![text("only")]));
    assert_eq!(
        run.error.unwrap().describe(),
        "recorded integration commit merged does not uniquely identify a two-parent merge for \
         candidate cand; no revert was attempted"
    );
    let mut run = reverting(false);
    run.advance(RevertEvent::Inspected(WorktreeStatus {
        branch: Some(text("main")),
        dirty_user_changes: true,
        refine_owned_artifacts: false,
    }));
    assert_eq!(
        run.error.unwrap().describe(),
        "already-merged reconciliation found a dirty target index or worktree at app; user work \
         was preserved"
    );
    let mut run = reverting(false);
    run.advance(clean());
    run.advance(RevertEvent::Commit(text("moved")));
    assert_eq!(
        run.error.unwrap().describe(),
        "already-merged reconciliation target changed from tip to moved; no revert was attempted"
    );
    assert!(same_integration(&evidence(true), &evidence(true)));
    assert!(!same_integration(&evidence(true), &evidence(false)));
}

#[test]
fn null_evidence_is_no_evidence() {
    let mut round = Json::object();
    assert!(recorded_evidence(&round).is_none());
    round.set("workflow_integration", Json::null());
    assert!(recorded_evidence(&round).is_none());
    round.set("workflow_integration", Json::object());
    assert!(recorded_evidence(&round).is_some());
}

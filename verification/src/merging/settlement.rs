//! Ordering a merge with the settlement that follows it.
use vstd::prelude::*;

use crate::clock::current_time;
use crate::errors::RefineError;
use crate::json::Json;
use crate::merging::integration::{IntegrationEvent, IntegrationRun, IntegrationStage};
use crate::merging::{FileMergerService, RoundIntegration};
use crate::process_control::ownership::WorkflowClaimState;
use crate::text::cat3;

verus! {

/// Where a merge and its settlement stand: the step that comes next.
#[derive(Clone, Copy, Debug, PartialEq, Eq, Structural)]
pub enum SettlementStage {
    CommitFence,
    RegisterOperation,
    Integrate,
    VerifyFence,
    Settle,
    Settled,
    ReportFailure,
    Failed,
}

/// What came of the current step.
pub enum SettlementEvent {
    Done,
    /// What came of the merge's current effect.
    Merge(IntegrationEvent),
    Failed(RefineError),
}

/// A merge and its settlement.
pub struct SettlementRun {
    pub execution_id: String,
    pub merge: IntegrationRun,
    pub stage: SettlementStage,
    pub error: Option<RefineError>,
}

/// A merge and its settlement by their contents.
pub ghost struct SettlementView {
    pub execution_id: Seq<char>,
    pub merge: crate::merging::integration::RunView,
    pub stage: SettlementStage,
    pub error: Option<crate::errors::ErrorView>,
}

impl View for SettlementRun {
    type V = SettlementView;

    open spec fn view(&self) -> SettlementView {
        SettlementView {
            execution_id: self.execution_id@,
            merge: self.merge@,
            stage: self.stage,
            error: crate::errors::error_view(self.error),
        }
    }
}

/// The step after one that succeeded. The merge is no single step.
pub open spec fn following_step(stage: SettlementStage) -> SettlementStage {
    match stage {
        SettlementStage::CommitFence => SettlementStage::RegisterOperation,
        SettlementStage::RegisterOperation => SettlementStage::Integrate,
        SettlementStage::VerifyFence => SettlementStage::Settle,
        SettlementStage::Settle => SettlementStage::Settled,
        other => other,
    }
}

/// The run after a step failed. Once the operation is registered, a failure is
/// reported to it.
pub open spec fn step_failed(run: SettlementView, error: Option<crate::errors::ErrorView>) -> SettlementView {
    SettlementView {
        stage: if run.stage == SettlementStage::CommitFence || run.stage
            == SettlementStage::RegisterOperation {
            SettlementStage::Failed
        } else {
            SettlementStage::ReportFailure
        },
        error,
        ..run
    }
}

/// The run after an event of its merge.
pub open spec fn merge_advanced(
    run: SettlementView,
    merge: crate::merging::integration::RunView,
) -> SettlementView {
    let run = SettlementView { merge, ..run };
    if merge.stage == IntegrationStage::Integrated {
        SettlementView { stage: SettlementStage::VerifyFence, ..run }
    } else if merge.stage == IntegrationStage::Failed {
        step_failed(run, merge.error)
    } else {
        run
    }
}

/// The run has nothing more to take note of.
pub open spec fn over(stage: SettlementStage) -> bool {
    stage == SettlementStage::Settled || stage == SettlementStage::ReportFailure || stage
        == SettlementStage::Failed
}

/// The run after an event.
pub open spec fn next_settlement(
    run: SettlementView,
    event: SettlementEvent,
    now: Seq<char>,
) -> SettlementView {
    if over(run.stage) {
        run
    } else {
        match event {
            SettlementEvent::Failed(e) => step_failed(run, Some(e@)),
            SettlementEvent::Merge(e) => if run.stage == SettlementStage::Integrate {
                merge_advanced(
                    run,
                    crate::merging::integration::next_run(run.merge, e, now),
                )
            } else {
                run
            },
            SettlementEvent::Done => SettlementView { stage: following_step(run.stage), ..run },
        }
    }
}

/// The evidence that a settlement is given and the merge returns: that of a
/// merge that is complete.
pub open spec fn settled_evidence(run: SettlementView) -> Option<crate::merging::IntegrationView> {
    if run.stage == SettlementStage::VerifyFence || run.stage == SettlementStage::Settle
        || run.stage == SettlementStage::Settled {
        run.merge.evidence
    } else {
        None
    }
}

/// What is true of a merge and its settlement at every moment: the merge is
/// sound, it is complete and has its evidence from the last fence on, and a
/// failure has its error.
pub open spec fn well_ordered(run: SettlementView) -> bool {
    &&& crate::merging::integration::sound(run.merge)
    &&& run.stage == SettlementStage::VerifyFence || run.stage == SettlementStage::Settle
        || run.stage == SettlementStage::Settled ==> run.merge.stage
        == IntegrationStage::Integrated && settled_evidence(run) is Some
    &&& run.stage == SettlementStage::ReportFailure || run.stage == SettlementStage::Failed
        ==> run.error is Some
}

/// How the failure of a registered merge is reported: the error, and the
/// record of the failed operation unless it was cancelled.
pub struct IntegrationFailure {
    pub error: RefineError,
    pub record: Option<Json>,
}

/// The failure after a cancellation.
pub open spec fn cancelled_merge(execution_id: Seq<char>, error: crate::errors::ErrorView) -> crate::errors::ErrorView {
    crate::errors::ErrorView::Conflict(
        "Ready Merge execution "@ + execution_id + " was cancelled: "@ + crate::errors::described(
            error,
        ),
    )
}

/// The record of a failed merge.
pub open spec fn failed_merge_record(execution_id: Seq<char>, error: crate::errors::ErrorView) -> crate::json::JsonView {
    crate::json::JsonView::Object(
        Map::<Seq<char>, crate::json::JsonView>::empty().insert(
            "code"@,
            crate::json::JsonView::Text(
                if error is StaleCandidate {
                    "ready_merge_candidate_stale"@
                } else {
                    "ready_merge_integration_failed"@
                },
            ),
        ).insert("message"@, crate::json::JsonView::Text(crate::errors::described(error))).insert(
            "execution_id"@,
            crate::json::JsonView::Text(execution_id),
        ),
    )
}

/// A run whose failure was reported, and the record of it.
pub open spec fn failure_reported(run: SettlementView, cancelled: bool) -> (
    SettlementView,
    Option<crate::json::JsonView>,
) {
    match run.error {
        Some(error) => if cancelled {
            (
                SettlementView {
                    stage: SettlementStage::Failed,
                    error: Some(cancelled_merge(run.execution_id, error)),
                    ..run
                },
                None,
            )
        } else {
            (
                SettlementView { stage: SettlementStage::Failed, ..run },
                Some(failed_merge_record(run.execution_id, error)),
            )
        },
        None => (SettlementView { stage: SettlementStage::Failed, ..run }, None),
    }
}

/// Reports the failure of a registered merge. A cancellation, of the operation
/// or of the claim, is already on record and stands.
pub fn integration_failure(
    execution_id: &str,
    operation_cancelled: bool,
    claim_state: Option<WorkflowClaimState>,
    error: RefineError,
) -> (r: IntegrationFailure)
    ensures
        if operation_cancelled || claim_state == Some(WorkflowClaimState::Cancelled) {
            r.error@ == cancelled_merge(execution_id@, error@) && r.record is None
        } else {
            r.error == error && (r.record matches Some(v) && v@ == failed_merge_record(
                execution_id@,
                error@,
            ))
        },
{
    let claim_cancelled = match claim_state {
        Some(state) => state == WorkflowClaimState::Cancelled,
        None => false,
    };
    let described = error.describe();
    if operation_cancelled || claim_cancelled {
        let mut m = cat3("Ready Merge execution ", execution_id, " was cancelled: ");
        m.append(described.as_str());
        return IntegrationFailure { error: RefineError::Conflict(m), record: None };
    }
    let code = match &error {
        RefineError::StaleCandidate { .. } => "ready_merge_candidate_stale",
        _ => "ready_merge_integration_failed",
    };
    let mut o = Json::object();
    o.set("code", Json::text(code));
    o.set("message", Json::text(described.as_str()));
    o.set("execution_id", Json::text(execution_id));
    IntegrationFailure { error, record: Some(o) }
}

impl SettlementRun {
    fn fail(&mut self, error: Option<RefineError>)
        ensures
            final(self)@ == step_failed(old(self)@, crate::errors::error_view(error)),
    {
        self.stage = if self.stage == SettlementStage::CommitFence || self.stage
            == SettlementStage::RegisterOperation {
            SettlementStage::Failed
        } else {
            SettlementStage::ReportFailure
        };
        self.error = error;
    }

    /// Takes note of what came of the current step, at a given time.
    pub fn advance_at(&mut self, event: SettlementEvent, now: &str)
        ensures
            final(self)@ == next_settlement(old(self)@, event, now@),
    {
        match self.stage {
            SettlementStage::Settled | SettlementStage::ReportFailure | SettlementStage::Failed => {
                return;
            },
            _ => {},
        }
        match event {
            SettlementEvent::Failed(e) => {
                self.fail(Some(e));
            },
            SettlementEvent::Merge(e) => {
                if self.stage == SettlementStage::Integrate {
                    self.merge.advance_at(e, now);
                    if self.merge.stage == IntegrationStage::Integrated {
                        self.stage = SettlementStage::VerifyFence;
                    } else if self.merge.stage == IntegrationStage::Failed {
                        let error = match &self.merge.error {
                            Some(e) => Some(e.clone()),
                            None => None,
                        };
                        self.fail(error);
                    }
                }
            },
            SettlementEvent::Done => {
                self.stage = match self.stage {
                    SettlementStage::CommitFence => SettlementStage::RegisterOperation,
                    SettlementStage::RegisterOperation => SettlementStage::Integrate,
                    SettlementStage::VerifyFence => SettlementStage::Settle,
                    SettlementStage::Settle => SettlementStage::Settled,
                    other => other,
                };
            },
        }
    }

    /// Takes note of what came of the current step.
    pub fn advance(&mut self, event: SettlementEvent)
        ensures
            exists|now: Seq<char>| final(self)@ == #[trigger] next_settlement(
                old(self)@,
                event,
                now,
            ),
    {
        let now = current_time();
        self.advance_at(event, now.as_str());
    }

    /// The evidence that the settlement is given and the merge returns.
    pub fn evidence(&self) -> (r: Option<&RoundIntegration>)
        ensures
            match r {
                Some(e) => settled_evidence(self@) == Some(e@),
                None => settled_evidence(self@) is None,
            },
    {
        match self.stage {
            SettlementStage::VerifyFence | SettlementStage::Settle | SettlementStage::Settled => {
                match &self.merge.evidence {
                    Some(e) => Some(e),
                    None => None,
                }
            },
            _ => None,
        }
    }

    /// Reports the failure of a run whose operation was registered: the run
    /// fails with the error that the caller gets, and the record of the failed
    /// operation is returned unless the merge was cancelled.
    pub fn report(
        &mut self,
        operation_cancelled: bool,
        claim_state: Option<WorkflowClaimState>,
    ) -> (r: Option<Json>)
        requires
            old(self).stage == SettlementStage::ReportFailure,
        ensures
            ({
                let (after, record) = failure_reported(
                    old(self)@,
                    operation_cancelled || claim_state == Some(WorkflowClaimState::Cancelled),
                );
                &&& final(self)@ == after
                &&& match r {
                    Some(v) => record == Some(v@),
                    None => record is None,
                }
            }),
    {
        self.stage = SettlementStage::Failed;
        let error = match &self.error {
            Some(e) => e.clone(),
            None => {
                return None;
            },
        };
        let failure = integration_failure(
            self.execution_id.as_str(),
            operation_cancelled,
            claim_state,
            error,
        );
        self.error = Some(failure.error);
        failure.record
    }
}

/// A settlement that has not begun.
pub open spec fn fresh_settlement(
    execution_id: Seq<char>,
    merge: crate::merging::integration::RunView,
) -> SettlementView {
    SettlementView { execution_id, merge, stage: SettlementStage::CommitFence, error: None }
}

impl FileMergerService {
    /// Begins the merge of the candidate that a workflow recorded, and its
    /// settlement.
    pub fn integrate_workflow_candidate_and_settle(
        &self,
        goal_id: &str,
        round_idx: usize,
        execution_id: &str,
        node_id: &str,
        expected_branch: &str,
        expected_candidate: &str,
        expected_remote: &str,
    ) -> (r: SettlementRun)
        ensures
            r@ == fresh_settlement(
                execution_id@,
                crate::merging::integration::fresh_run(
                    goal_id@,
                    round_idx,
                    node_id@,
                    expected_branch@,
                    expected_candidate@,
                    expected_remote@,
                ),
            ),
    {
        SettlementRun {
            execution_id: execution_id.to_owned(),
            merge: self.integrate_workflow_candidate(
                goal_id,
                round_idx,
                node_id,
                expected_branch,
                expected_candidate,
                expected_remote,
            ),
            stage: SettlementStage::CommitFence,
            error: None,
        }
    }
}

/// A merge and its settlement start out well ordered.
pub proof fn settlements_begin_well_ordered(
    execution_id: Seq<char>,
    goal_id: Seq<char>,
    round_idx: usize,
    node_id: Seq<char>,
    branch: Seq<char>,
    candidate: Seq<char>,
    remote: Seq<char>,
)
    ensures
        well_ordered(
            fresh_settlement(
                execution_id,
                crate::merging::integration::fresh_run(
                    goal_id,
                    round_idx,
                    node_id,
                    branch,
                    candidate,
                    remote,
                ),
            ),
        ),
{
    crate::merging::integration::merges_begin_sound(
        goal_id,
        round_idx,
        node_id,
        branch,
        candidate,
        remote,
    );
}

/// Every event keeps a merge and its settlement well ordered.
pub proof fn settlements_stay_well_ordered(
    run: SettlementView,
    event: SettlementEvent,
    now: Seq<char>,
)
    requires
        well_ordered(run),
    ensures
        well_ordered(next_settlement(run, event, now)),
{
    if let SettlementEvent::Merge(e) = event {
        crate::merging::integration::merges_stay_sound(run.merge, e, now);
    }
}

/// A merge is settled only after the merge itself succeeded and its fence was
/// verified once more.
pub proof fn settlement_follows_a_verified_merge(
    run: SettlementView,
    event: SettlementEvent,
    now: Seq<char>,
)
    requires
        next_settlement(run, event, now).stage != run.stage,
    ensures
        next_settlement(run, event, now).stage == SettlementStage::Settled ==> event is Done
            && run.stage == SettlementStage::Settle,
        next_settlement(run, event, now).stage == SettlementStage::Settle ==> event is Done
            && run.stage == SettlementStage::VerifyFence,
        next_settlement(run, event, now).stage == SettlementStage::VerifyFence ==> event is Merge
            && run.stage == SettlementStage::Integrate && next_settlement(
            run,
            event,
            now,
        ).merge.stage == IntegrationStage::Integrated,
        next_settlement(run, event, now).stage == SettlementStage::Integrate ==> event is Done
            && run.stage == SettlementStage::RegisterOperation,
{
}

/// The settlement is given, and the merge returns, the evidence with which the
/// merge completed: nothing that happens afterwards changes it.
pub proof fn the_settlement_gets_the_evidence_of_its_merge(
    run: SettlementView,
    event: SettlementEvent,
    now: Seq<char>,
)
    ensures
        settled_evidence(next_settlement(run, event, now)) is Some ==> settled_evidence(
            next_settlement(run, event, now),
        ) == next_settlement(run, event, now).merge.evidence,
        run.stage != SettlementStage::Integrate ==> next_settlement(run, event, now).merge
            == run.merge,
        settled_evidence(run) is Some && settled_evidence(next_settlement(run, event, now)) is Some
            ==> settled_evidence(next_settlement(run, event, now)) == settled_evidence(run),
{
}

} // verus!

//! Accepting a reviewed merge without merging again.
use vstd::prelude::*;

use crate::errors::{RefineError, RefineResult};
use crate::json::Json;
use crate::merging::integration::GitAction;
use crate::merging::{
    recorded_text, unreadable_evidence_error, EvidenceRead, FileMergerService, RoundIntegration,
};
use crate::model::GoalStatus;
use crate::text::{cat3, cat5, text_eq, trim};

verus! {

/// The candidate and evidence of a goal that may be accepted, or why it may
/// not.
pub open spec fn review_outcome(
    goal_id: Seq<char>,
    status: GoalStatus,
    detail: crate::json::JsonView,
    evidence: EvidenceRead,
) -> Result<(Seq<char>, crate::merging::IntegrationView), crate::errors::ErrorView> {
    if status != GoalStatus::Review {
        Err(
            crate::errors::ErrorView::InvalidInput(
                "Goal "@ + goal_id + " can only be approved from review"@,
            ),
        )
    } else {
        match recorded_text(detail, "candidate_commit"@) {
            None => Err(
                crate::errors::ErrorView::Conflict(
                    "Goal "@ + goal_id + " has no exact candidate commit to accept"@,
                ),
            ),
            Some(candidate) => match crate::json::elements(crate::json::field(detail, "rounds"@)) {
                None => Err(
                    crate::errors::ErrorView::Conflict("Goal "@ + goal_id + " has no review round"@),
                ),
                Some(rounds) => if rounds.len() == 0 {
                    Err(
                        crate::errors::ErrorView::Conflict(
                            "Goal "@ + goal_id + " has no review round"@,
                        ),
                    )
                } else {
                    match evidence {
                        EvidenceRead::Unreadable(text) => Err(
                            crate::merging::unreadable_evidence(text@),
                        ),
                        EvidenceRead::Absent => Err(
                            crate::errors::ErrorView::Conflict(
                                "Goal "@ + goal_id
                                    + " reached review without successful Ready Merge evidence"@,
                            ),
                        ),
                        EvidenceRead::Recorded(e) => if e.candidate_commit@ != candidate {
                            Err(
                                crate::errors::ErrorView::Conflict(
                                    "Goal "@ + goal_id
                                        + " review candidate changed from integrated commit "@
                                        + e.candidate_commit@ + " to "@ + candidate,
                                ),
                            )
                        } else {
                            Ok((candidate, e@))
                        },
                    }
                },
            },
        }
    }
}

/// Where an acceptance stands: the effect that comes next.
#[derive(Clone, Copy, Debug, PartialEq, Eq, Structural)]
pub enum ApprovalStage {
    ResolveTarget,
    ProveIntegrated,
    FetchPublished,
    ResolvePublished,
    ProvePublished,
    AcceptGoal,
    Failed,
}

/// What came of the effect of a stage.
pub enum ApprovalEvent {
    Done,
    Commit(String),
    Answer(bool),
    Failed(RefineError),
}

/// The acceptance of one reviewed goal.
pub struct ApprovalRun {
    pub integration: RoundIntegration,
    pub commit: String,
    pub stage: ApprovalStage,
    pub error: Option<RefineError>,
}

/// An acceptance by its contents.
pub ghost struct ApprovalView {
    pub integration: crate::merging::IntegrationView,
    /// The commit that was resolved last.
    pub commit: Seq<char>,
    pub stage: ApprovalStage,
    pub error: Option<crate::errors::ErrorView>,
}

impl View for ApprovalRun {
    type V = ApprovalView;

    open spec fn view(&self) -> ApprovalView {
        ApprovalView {
            integration: self.integration@,
            commit: self.commit@,
            stage: self.stage,
            error: crate::errors::error_view(self.error),
        }
    }
}

/// The stage after an event; an event that does not belong to the stage
/// changes nothing.
pub open spec fn next_approval_stage(
    stage: ApprovalStage,
    pushed: bool,
    event: ApprovalEvent,
) -> ApprovalStage {
    match (stage, event) {
        (ApprovalStage::AcceptGoal, _) => stage,
        (ApprovalStage::Failed, _) => stage,
        (_, ApprovalEvent::Failed(_)) => ApprovalStage::Failed,
        (ApprovalStage::ResolveTarget, ApprovalEvent::Commit(_)) => ApprovalStage::ProveIntegrated,
        (ApprovalStage::ProveIntegrated, ApprovalEvent::Answer(yes)) => if !yes {
            ApprovalStage::Failed
        } else if pushed {
            ApprovalStage::FetchPublished
        } else {
            ApprovalStage::AcceptGoal
        },
        (ApprovalStage::FetchPublished, ApprovalEvent::Done) => ApprovalStage::ResolvePublished,
        (ApprovalStage::ResolvePublished, ApprovalEvent::Commit(_)) => ApprovalStage::ProvePublished,
        (ApprovalStage::ProvePublished, ApprovalEvent::Answer(yes)) => if yes {
            ApprovalStage::AcceptGoal
        } else {
            ApprovalStage::Failed
        },
        _ => stage,
    }
}

/// The error known after an event.
pub open spec fn next_approval_error(run: ApprovalRun, event: ApprovalEvent) -> Option<
    crate::errors::ErrorView,
> {
    let e = run.integration@;
    match (run.stage, event) {
        (ApprovalStage::AcceptGoal, _) => crate::errors::error_view(run.error),
        (ApprovalStage::Failed, _) => crate::errors::error_view(run.error),
        (_, ApprovalEvent::Failed(f)) => Some(f@),
        (ApprovalStage::ProveIntegrated, ApprovalEvent::Answer(false)) => Some(
            crate::errors::ErrorView::Conflict(
                "Reviewed candidate "@ + e.candidate_commit + " is not integrated in "@
                    + e.target_branch,
            ),
        ),
        (ApprovalStage::ProvePublished, ApprovalEvent::Answer(false)) => Some(
            crate::errors::ErrorView::Conflict(
                "Reviewed candidate "@ + e.candidate_commit + " is not published to "@ + e.remote
                    + "/"@ + e.target_branch,
            ),
        ),
        _ => crate::errors::error_view(run.error),
    }
}

/// The commit known after an event.
pub open spec fn next_approval_commit(run: ApprovalRun, event: ApprovalEvent) -> Seq<char> {
    match (run.stage, event) {
        (ApprovalStage::ResolveTarget, ApprovalEvent::Commit(c)) => c@,
        (ApprovalStage::ResolvePublished, ApprovalEvent::Commit(c)) => c@,
        _ => run.commit@,
    }
}

/// The action of each stage.
pub open spec fn approval_action(run: ApprovalRun) -> crate::merging::integration::ActionView {
    let e = run.integration@;
    match run.stage {
        ApprovalStage::ResolveTarget => crate::merging::integration::ActionView::Resolve(
            e.target_branch,
        ),
        ApprovalStage::ProveIntegrated => crate::merging::integration::ActionView::IsAncestor(
            e.candidate_commit,
            run.commit@,
        ),
        ApprovalStage::FetchPublished => crate::merging::integration::ActionView::Fetch(
            e.remote,
            e.target_branch,
        ),
        ApprovalStage::ResolvePublished => crate::merging::integration::ActionView::Resolve(
            crate::merging::integration::tracking(e.remote, e.target_branch),
        ),
        ApprovalStage::ProvePublished => crate::merging::integration::ActionView::IsAncestor(
            e.candidate_commit,
            run.commit@,
        ),
        ApprovalStage::AcceptGoal => crate::merging::integration::ActionView::Finished,
        ApprovalStage::Failed => crate::merging::integration::ActionView::Finished,
    }
}

/// An acceptance of which nothing was proven yet.
pub open spec fn fresh_approval(integration: crate::merging::IntegrationView) -> ApprovalView {
    ApprovalView {
        integration,
        commit: Seq::empty(),
        stage: ApprovalStage::ResolveTarget,
        error: None,
    }
}

impl FileMergerService {
    /// Begins the acceptance of a reviewed goal.
    pub fn approve_reviewed_goal(
        &self,
        goal_id: &str,
        status: GoalStatus,
        detail: &Json,
        evidence: EvidenceRead,
    ) -> (r: RefineResult<ApprovalRun>)
        ensures
            match r {
                Ok(run) => review_outcome(goal_id@, status, detail@, evidence) == Ok::<
                    (Seq<char>, crate::merging::IntegrationView),
                    crate::errors::ErrorView,
                >((run.integration.candidate_commit@, run.integration@)) && run@
                    == fresh_approval(run.integration@),
                Err(e) => review_outcome(goal_id@, status, detail@, evidence) == Err::<
                    (Seq<char>, crate::merging::IntegrationView),
                    crate::errors::ErrorView,
                >(e@),
            },
    {
        if status != GoalStatus::Review {
            return Err(
                RefineError::InvalidInput(
                    cat3("Goal ", goal_id, " can only be approved from review"),
                ),
            );
        }
        let candidate = match detail.get_text("candidate_commit") {
            Some(t) => trim(t),
            None => "",
        };
        proof {
            reveal_strlit("");
        }
        if candidate.is_empty() {
            return Err(
                RefineError::Conflict(
                    cat3("Goal ", goal_id, " has no exact candidate commit to accept"),
                ),
            );
        }
        let has_round = match detail.get_array("rounds") {
            Some(rounds) => rounds.len() > 0,
            None => false,
        };
        if !has_round {
            return Err(
                RefineError::Conflict(cat3("Goal ", goal_id, " has no review round")),
            );
        }
        match evidence {
            EvidenceRead::Unreadable(text) => Err(unreadable_evidence_error(text.as_str())),
            EvidenceRead::Absent => Err(
                RefineError::Conflict(
                    cat3(
                        "Goal ",
                        goal_id,
                        " reached review without successful Ready Merge evidence",
                    ),
                ),
            ),
            EvidenceRead::Recorded(e) => {
                if !text_eq(e.candidate_commit.as_str(), candidate) {
                    let mut m = cat5(
                        "Goal ",
                        goal_id,
                        " review candidate changed from integrated commit ",
                        e.candidate_commit.as_str(),
                        " to ",
                    );
                    m.append(candidate);
                    return Err(RefineError::Conflict(m));
                }
                let run = ApprovalRun {
                    integration: e,
                    commit: String::new(),
                    stage: ApprovalStage::ResolveTarget,
                    error: None,
                };
                assert(run@.commit =~= Seq::<char>::empty());
                Ok(run)
            },
        }
    }
}

impl ApprovalRun {
    /// Takes note of what came of the current effect.
    pub fn advance(&mut self, event: ApprovalEvent)
        ensures
            final(self).integration == old(self).integration,
            final(self).commit@ == next_approval_commit(*old(self), event),
            final(self).stage == next_approval_stage(
                old(self).stage,
                old(self).integration.pushed,
                event,
            ),
            crate::errors::error_view(final(self).error) == next_approval_error(
                *old(self),
                event,
            ),
    {
        match (self.stage, event) {
            (ApprovalStage::AcceptGoal, _) => {},
            (ApprovalStage::Failed, _) => {},
            (_, ApprovalEvent::Failed(e)) => {
                self.error = Some(e);
                self.stage = ApprovalStage::Failed;
            },
            (ApprovalStage::ResolveTarget, ApprovalEvent::Commit(c)) => {
                self.commit = c;
                self.stage = ApprovalStage::ProveIntegrated;
            },
            (ApprovalStage::ProveIntegrated, ApprovalEvent::Answer(yes)) => {
                if !yes {
                    let mut m = cat3(
                        "Reviewed candidate ",
                        self.integration.candidate_commit.as_str(),
                        " is not integrated in ",
                    );
                    m.append(self.integration.target_branch.as_str());
                    self.error = Some(RefineError::Conflict(m));
                    self.stage = ApprovalStage::Failed;
                } else if self.integration.pushed {
                    self.stage = ApprovalStage::FetchPublished;
                } else {
                    self.stage = ApprovalStage::AcceptGoal;
                }
            },
            (ApprovalStage::FetchPublished, ApprovalEvent::Done) => {
                self.stage = ApprovalStage::ResolvePublished;
            },
            (ApprovalStage::ResolvePublished, ApprovalEvent::Commit(c)) => {
                self.commit = c;
                self.stage = ApprovalStage::ProvePublished;
            },
            (ApprovalStage::ProvePublished, ApprovalEvent::Answer(yes)) => {
                if yes {
                    self.stage = ApprovalStage::AcceptGoal;
                } else {
                    let mut m = cat5(
                        "Reviewed candidate ",
                        self.integration.candidate_commit.as_str(),
                        " is not published to ",
                        self.integration.remote.as_str(),
                        "/",
                    );
                    m.append(self.integration.target_branch.as_str());
                    self.error = Some(RefineError::Conflict(m));
                    self.stage = ApprovalStage::Failed;
                }
            },
            _ => {},
        }
    }

    /// What to do next; the goal is accepted once nothing is left to prove.
    pub fn action(&self) -> (r: GitAction)
        ensures
            r@ == approval_action(*self),
    {
        let e = &self.integration;
        match self.stage {
            ApprovalStage::ResolveTarget => GitAction::Resolve(e.target_branch.clone()),
            ApprovalStage::ProveIntegrated => GitAction::IsAncestor(
                e.candidate_commit.clone(),
                self.commit.clone(),
            ),
            ApprovalStage::FetchPublished => GitAction::Fetch(
                e.remote.clone(),
                e.target_branch.clone(),
            ),
            ApprovalStage::ResolvePublished => GitAction::Resolve(
                cat3(e.remote.as_str(), "/", e.target_branch.as_str()),
            ),
            ApprovalStage::ProvePublished => GitAction::IsAncestor(
                e.candidate_commit.clone(),
                self.commit.clone(),
            ),
            ApprovalStage::AcceptGoal => GitAction::Finished,
            ApprovalStage::Failed => GitAction::Finished,
        }
    }
}

/// A goal is accepted only after its candidate was proven to be in the target
/// branch and, where it was pushed, in the published one.
pub proof fn acceptance_needs_proof(stage: ApprovalStage, pushed: bool, event: ApprovalEvent)
    requires
        stage != ApprovalStage::AcceptGoal,
        next_approval_stage(stage, pushed, event) == ApprovalStage::AcceptGoal,
    ensures
        event == ApprovalEvent::Answer(true),
        pushed ==> stage == ApprovalStage::ProvePublished,
        stage == ApprovalStage::ProvePublished || stage == ApprovalStage::ProveIntegrated,
{
}

/// An acceptance never merges, switches, pushes or records anything.
pub proof fn acceptance_merges_nothing(run: ApprovalRun)
    ensures
        match approval_action(run) {
            crate::merging::integration::ActionView::Merge(_) => false,
            crate::merging::integration::ActionView::Push(_, _) => false,
            crate::merging::integration::ActionView::Switch(_) => false,
            crate::merging::integration::ActionView::FastForward(_, _) => false,
            crate::merging::integration::ActionView::EnsureBranch(_, _) => false,
            crate::merging::integration::ActionView::PersistEvidence => false,
            _ => true,
        },
{
}

} // verus!

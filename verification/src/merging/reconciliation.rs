//! Reverting a merged candidate without rewriting shared history.
use vstd::prelude::*;

use crate::errors::{RefineError, RefineResult};
use crate::json::Json;
use crate::merging::{
    merge_failure, unreadable_evidence_error, EvidenceRead, FileMergerService, MergeResult,
    ReconciliationRequest, ReconciliationRevert, RoundIntegration,
};
use crate::model::GoalStatus;
use crate::process_control::ownership::{WorkflowClaim, WorkflowClaimState};
use crate::text::{cat3, cat5, decimal_text, is_text, maybe_text_eq, text_eq};

verus! {

/// The claim of a reconciliation, with the node it runs on.
#[derive(Debug)]
pub struct NodeClaim {
    pub claim: WorkflowClaim,
    pub node_id: String,
}

/// Whether a claim still owns a reconciliation.
pub open spec fn owns(
    claim: Option<NodeClaim>,
    goal_id: Seq<char>,
    claim_id: Seq<char>,
    execution_id: Seq<char>,
    node_id: Seq<char>,
) -> bool {
    claim matches Some(c) && c.claim.claim_id@ == claim_id && crate::text::maybe_view(
        c.claim.execution_id,
    ) == Some(execution_id) && c.claim.goal_id@ == goal_id && c.node_id@ == node_id && c.claim.state
        == WorkflowClaimState::Running
}

/// Whether a goal may be reconciled by a request.
pub open spec fn reconciliation_outcome(
    goal_id: Seq<char>,
    round_idx: usize,
    claim_id: Seq<char>,
    execution_id: Seq<char>,
    node_id: Seq<char>,
    integration: crate::merging::IntegrationView,
    claim: Option<NodeClaim>,
    status: GoalStatus,
    detail: crate::json::JsonView,
    evidence: EvidenceRead,
) -> Result<(), crate::errors::ErrorView> {
    let rounds = crate::json::elements(crate::json::field(detail, "rounds"@));
    if !owns(claim, goal_id, claim_id, execution_id, node_id) {
        Err(
            crate::errors::ErrorView::Conflict(
                "execution "@ + execution_id
                    + " no longer owns already-merged reconciliation for Goal "@ + goal_id,
            ),
        )
    } else if status != GoalStatus::Qa {
        Err(
            crate::errors::ErrorView::Conflict(
                "Goal "@ + goal_id + " changed from qa to "@ + crate::model::status_name(status)
                    + " before its reconciliation revert"@,
            ),
        )
    } else if rounds is None || rounds->0.len() <= round_idx {
        Err(
            crate::errors::ErrorView::Conflict(
                "Goal "@ + goal_id + " has no round "@ + crate::text::decimal(
                    (round_idx + 1) as nat,
                ) + " for reconciliation"@,
            ),
        )
    } else {
        match evidence {
            EvidenceRead::Unreadable(text) => Err(crate::merging::unreadable_evidence(text@)),
            EvidenceRead::Absent => Err(
                crate::errors::ErrorView::Conflict(
                    "Goal "@ + goal_id + " has no Ready Merge evidence for reconciliation"@,
                ),
            ),
            EvidenceRead::Recorded(e) => if e@ != integration {
                Err(
                    crate::errors::ErrorView::Conflict(
                        "Goal "@ + goal_id
                            + " integration evidence changed before its reconciliation revert"@,
                    ),
                )
            } else {
                Ok(())
            },
        }
    }
}

/// Compares two lists of texts.
fn same_texts(a: &Vec<String>, b: &Vec<String>) -> (r: bool)
    ensures
        r == (crate::text::views(a@) == crate::text::views(b@)),
{
    if a.len() != b.len() {
        assert(crate::text::views(a@).len() != crate::text::views(b@).len());
        return false;
    }
    let mut i: usize = 0;
    while i < a.len()
        invariant
            i <= a.len() == b.len(),
            forall|j: int| 0 <= j < i ==> (#[trigger] a@[j])@ == b@[j]@,
        decreases a.len() - i,
    {
        if !text_eq(a[i].as_str(), b[i].as_str()) {
            assert(crate::text::views(a@)[i as int] != crate::text::views(b@)[i as int]);
            return false;
        }
        i = i + 1;
    }
    assert(crate::text::views(a@) =~= crate::text::views(b@));
    true
}

/// Compares two pieces of evidence.
pub fn same_integration(a: &RoundIntegration, b: &RoundIntegration) -> (r: bool)
    ensures
        r == (a@ == b@),
{
    let merges = a.merge.ok == b.merge.ok && same_texts(&a.merge.conflicts, &b.merge.conflicts)
        && maybe_text_eq(&a.merge.message, &b.merge.message);
    assert(merges == (a.merge@ == b.merge@));
    merges && text_eq(a.candidate_commit.as_str(), b.candidate_commit.as_str()) && text_eq(
        a.target_branch.as_str(),
        b.target_branch.as_str(),
    ) && text_eq(a.target_commit.as_str(), b.target_commit.as_str()) && text_eq(
        a.remote.as_str(),
        b.remote.as_str(),
    ) && a.pushed == b.pushed && text_eq(a.integrated_at.as_str(), b.integrated_at.as_str())
}

/// Where a revert stands: the effect that comes next.
#[derive(Clone, Copy, Debug, PartialEq, Eq, Structural)]
pub enum RevertStage {
    Inspect,
    ResolveTarget,
    FetchPublished,
    ResolvePublished,
    ProveIntegration,
    ReadParents,
    ProveFirstParent,
    ProveSecondParent,
    Revert,
    Recover,
    ResolveRevert,
    Push,
    RestoreTarget,
    Settle,
    Failed,
}

/// The state of the target's worktree.
pub struct WorktreeStatus {
    pub branch: Option<String>,
    pub dirty_user_changes: bool,
    pub refine_owned_artifacts: bool,
}

/// What came of the effect of a stage.
pub enum RevertEvent {
    Done,
    Inspected(WorktreeStatus),
    Commit(String),
    Answer(bool),
    Parents(Vec<String>),
    Reverted(MergeResult),
    Failed(RefineError),
}

/// One revert of one merge.
pub struct RevertRun {
    pub target_root: String,
    pub integration: RoundIntegration,
    pub expected: String,
    pub commit: String,
    pub first_parent: String,
    pub second_parent: String,
    pub result: MergeResult,
    pub push_error: Option<RefineError>,
    pub stage: RevertStage,
    pub error: Option<RefineError>,
}

/// A revert by its contents.
pub ghost struct RevertView {
    pub target_root: Seq<char>,
    pub integration: crate::merging::IntegrationView,
    pub expected: Seq<char>,
    /// The commit that was resolved last.
    pub commit: Seq<char>,
    pub first_parent: Seq<char>,
    pub second_parent: Seq<char>,
    pub result: crate::merging::MergeView,
    pub push_error: Option<crate::errors::ErrorView>,
    pub stage: RevertStage,
    pub error: Option<crate::errors::ErrorView>,
}

impl View for RevertRun {
    type V = RevertView;

    open spec fn view(&self) -> RevertView {
        RevertView {
            target_root: self.target_root@,
            integration: self.integration@,
            expected: self.expected@,
            commit: self.commit@,
            first_parent: self.first_parent@,
            second_parent: self.second_parent@,
            result: self.result@,
            push_error: crate::errors::error_view(self.push_error),
            stage: self.stage,
            error: crate::errors::error_view(self.error),
        }
    }
}

/// What a revert does next.
#[derive(Debug)]
pub enum RevertAction {
    Inspect(String),
    Fetch(String, String),
    Resolve(String),
    IsAncestor(String, String),
    Parents(String),
    /// Revert a merge commit against one of its parents, counted from one.
    Revert(String, u32),
    Recover,
    Push(String, String),
    Reset(String),
    Settle,
    Finished,
}

/// An action by its contents.
pub ghost enum RevertActionView {
    Inspect(Seq<char>),
    Fetch(Seq<char>, Seq<char>),
    Resolve(Seq<char>),
    IsAncestor(Seq<char>, Seq<char>),
    Parents(Seq<char>),
    Revert(Seq<char>, u32),
    Recover,
    Push(Seq<char>, Seq<char>),
    Reset(Seq<char>),
    Settle,
    Finished,
}

impl View for RevertAction {
    type V = RevertActionView;

    open spec fn view(&self) -> RevertActionView {
        match self {
            RevertAction::Inspect(p) => RevertActionView::Inspect(p@),
            RevertAction::Fetch(r, b) => RevertActionView::Fetch(r@, b@),
            RevertAction::Resolve(c) => RevertActionView::Resolve(c@),
            RevertAction::IsAncestor(a, b) => RevertActionView::IsAncestor(a@, b@),
            RevertAction::Parents(c) => RevertActionView::Parents(c@),
            RevertAction::Revert(c, parent) => RevertActionView::Revert(c@, *parent),
            RevertAction::Recover => RevertActionView::Recover,
            RevertAction::Push(r, b) => RevertActionView::Push(r@, b@),
            RevertAction::Reset(c) => RevertActionView::Reset(c@),
            RevertAction::Settle => RevertActionView::Settle,
            RevertAction::Finished => RevertActionView::Finished,
        }
    }
}

/// The action of each stage.
pub open spec fn revert_action(run: RevertView) -> RevertActionView {
    let i = run.integration;
    match run.stage {
        RevertStage::Inspect => RevertActionView::Inspect(run.target_root),
        RevertStage::ResolveTarget => RevertActionView::Resolve(i.target_branch),
        RevertStage::FetchPublished => RevertActionView::Fetch(i.remote, i.target_branch),
        RevertStage::ResolvePublished => RevertActionView::Resolve(
            crate::merging::integration::tracking(i.remote, i.target_branch),
        ),
        RevertStage::ProveIntegration => RevertActionView::IsAncestor(
            i.target_commit,
            run.expected,
        ),
        RevertStage::ReadParents => RevertActionView::Parents(i.target_commit),
        RevertStage::ProveFirstParent => RevertActionView::IsAncestor(
            i.candidate_commit,
            run.first_parent,
        ),
        RevertStage::ProveSecondParent => RevertActionView::IsAncestor(
            i.candidate_commit,
            run.second_parent,
        ),
        RevertStage::Revert => RevertActionView::Revert(i.target_commit, 1),
        RevertStage::Recover => RevertActionView::Recover,
        RevertStage::ResolveRevert => RevertActionView::Resolve(i.target_branch),
        RevertStage::Push => RevertActionView::Push(i.remote, i.target_branch),
        RevertStage::RestoreTarget => RevertActionView::Reset(run.expected),
        RevertStage::Settle => RevertActionView::Settle,
        RevertStage::Failed => RevertActionView::Finished,
    }
}

/// The run at another stage.
pub open spec fn revert_at(run: RevertView, stage: RevertStage) -> RevertView {
    RevertView { stage, ..run }
}

/// The run that failed with a conflict.
pub open spec fn revert_refused(run: RevertView, message: Seq<char>) -> RevertView {
    RevertView {
        stage: RevertStage::Failed,
        error: Some(crate::errors::ErrorView::Conflict(message)),
        ..run
    }
}

/// The refusal for a commit that is not the merge of exactly this candidate.
pub open spec fn ambiguous_merge(run: RevertView) -> Seq<char> {
    "recorded integration commit "@ + run.integration.target_commit
        + " does not uniquely identify a two-parent merge for candidate "@
        + run.integration.candidate_commit + "; no revert was attempted"@
}

/// The run after the target's worktree was inspected.
pub open spec fn after_inspection(run: RevertView, status: WorktreeStatus) -> RevertView {
    let branch = crate::text::maybe_view(status.branch);
    if branch != Some(run.integration.target_branch) {
        revert_refused(
            run,
            "already-merged reconciliation requires target worktree "@ + run.target_root
                + " to be on branch "@ + run.integration.target_branch + ", found "@ + (
            match branch {
                Some(b) => b,
                None => "<detached>"@,
            }) + "; user work was preserved"@,
        )
    } else if status.dirty_user_changes || status.refine_owned_artifacts {
        revert_refused(
            run,
            "already-merged reconciliation found a dirty target index or worktree at "@
                + run.target_root + "; user work was preserved"@,
        )
    } else {
        revert_at(run, RevertStage::ResolveTarget)
    }
}

/// The run after a commit was resolved.
pub open spec fn after_revert_commit(run: RevertView, commit: Seq<char>) -> RevertView {
    let i = run.integration;
    match run.stage {
        RevertStage::ResolveTarget => if commit != run.expected {
            revert_refused(
                run,
                "already-merged reconciliation target changed from "@ + run.expected + " to "@
                    + commit + "; no revert was attempted"@,
            )
        } else if i.pushed {
            revert_at(run, RevertStage::FetchPublished)
        } else {
            revert_at(run, RevertStage::ProveIntegration)
        },
        RevertStage::ResolvePublished => if commit != run.expected {
            revert_refused(
                run,
                "published target "@ + i.remote + "/"@ + i.target_branch + " changed from "@
                    + run.expected + " to "@ + commit + "; no revert was attempted"@,
            )
        } else {
            revert_at(run, RevertStage::ProveIntegration)
        },
        RevertStage::ResolveRevert => RevertView {
            commit,
            stage: if i.pushed { RevertStage::Push } else { RevertStage::Settle },
            ..run
        },
        _ => run,
    }
}

/// The run after a question was answered.
pub open spec fn after_revert_answer(run: RevertView, yes: bool) -> RevertView {
    match run.stage {
        RevertStage::ProveIntegration => if yes {
            revert_at(run, RevertStage::ReadParents)
        } else {
            revert_refused(
                run,
                "recorded integration commit "@ + run.integration.target_commit
                    + " is absent from "@ + run.integration.target_branch
                    + "; no revert was attempted"@,
            )
        },
        RevertStage::ProveFirstParent => if yes {
            revert_refused(run, ambiguous_merge(run))
        } else {
            revert_at(run, RevertStage::ProveSecondParent)
        },
        RevertStage::ProveSecondParent => if yes {
            revert_at(run, RevertStage::Revert)
        } else {
            revert_refused(run, ambiguous_merge(run))
        },
        _ => run,
    }
}

/// The run after an effect failed. A failed push is undone locally first.
pub open spec fn after_revert_failure(run: RevertView, error: crate::errors::ErrorView) -> RevertView {
    let i = run.integration;
    match run.stage {
        RevertStage::Push => RevertView {
            push_error: Some(error),
            stage: RevertStage::RestoreTarget,
            ..run
        },
        RevertStage::RestoreTarget => revert_refused(
            run,
            "reconciliation revert "@ + run.commit + " could not be pushed to "@ + i.remote + "/"@
                + i.target_branch + " ("@ + described_or_empty(run.push_error)
                + ") and the clean local target could not be restored to "@ + run.expected + " ("@
                + crate::errors::described(error) + ")"@,
        ),
        RevertStage::Recover => revert_at(run, RevertStage::Failed),
        RevertStage::Settle => RevertView {
            stage: RevertStage::Failed,
            error: Some(error),
            ..run
        },
        _ => RevertView { stage: RevertStage::Failed, error: Some(error), ..run },
    }
}

/// The text of an optional error.
pub open spec fn described_or_empty(error: Option<crate::errors::ErrorView>) -> Seq<char> {
    match error {
        Some(e) => crate::errors::described(e),
        None => Seq::empty(),
    }
}

/// The run after an effect without an answer was done.
pub open spec fn after_revert_done(run: RevertView) -> RevertView {
    let i = run.integration;
    match run.stage {
        RevertStage::FetchPublished => revert_at(run, RevertStage::ResolvePublished),
        RevertStage::Push => revert_at(run, RevertStage::Settle),
        RevertStage::RestoreTarget => revert_refused(
            run,
            "reconciliation revert "@ + run.commit + " could not be pushed to "@ + i.remote + "/"@
                + i.target_branch + "; the clean local target was restored to "@ + run.expected
                + ": "@ + described_or_empty(run.push_error),
        ),
        RevertStage::Recover => revert_at(run, RevertStage::Failed),
        _ => run,
    }
}

/// The run after an event; an event that does not belong to the stage changes
/// nothing.
pub open spec fn next_revert(run: RevertView, event: RevertEvent) -> RevertView {
    if run.stage == RevertStage::Failed {
        run
    } else {
        match event {
            RevertEvent::Failed(e) => after_revert_failure(run, e@),
            RevertEvent::Inspected(status) => if run.stage == RevertStage::Inspect {
                after_inspection(run, status)
            } else {
                run
            },
            RevertEvent::Commit(c) => after_revert_commit(run, c@),
            RevertEvent::Answer(yes) => after_revert_answer(run, yes),
            RevertEvent::Parents(parents) => if run.stage != RevertStage::ReadParents {
                run
            } else if parents@.len() != 2 {
                revert_refused(run, ambiguous_merge(run))
            } else {
                RevertView {
                    first_parent: parents@[0]@,
                    second_parent: parents@[1]@,
                    stage: RevertStage::ProveFirstParent,
                    ..run
                }
            },
            RevertEvent::Reverted(result) => if run.stage != RevertStage::Revert {
                run
            } else if result.ok {
                RevertView { result: result@, stage: RevertStage::ResolveRevert, ..run }
            } else {
                RevertView {
                    stage: RevertStage::Recover,
                    error: Some(
                        crate::merging::failed_merge(
                            "already-merged reconciliation revert"@,
                            result@.message,
                        ),
                    ),
                    ..run
                }
            },
            RevertEvent::Done => after_revert_done(run),
        }
    }
}

/// A revert of which nothing was done yet.
pub open spec fn fresh_revert(
    target_root: Seq<char>,
    integration: crate::merging::IntegrationView,
    expected: Seq<char>,
) -> RevertView {
    RevertView {
        target_root,
        integration,
        expected,
        commit: Seq::empty(),
        first_parent: Seq::empty(),
        second_parent: Seq::empty(),
        result: crate::merging::MergeView { ok: false, conflicts: Seq::empty(), message: None },
        push_error: None,
        stage: RevertStage::Inspect,
        error: None,
    }
}

impl FileMergerService {
    /// Begins the revert of a merged candidate, given the claim on record for
    /// the request and the goal as it was read.
    pub fn revert_reconciled_candidate_and_settle(
        &self,
        request: &ReconciliationRequest<'_>,
        target_root: &str,
        claim: &Option<NodeClaim>,
        status: GoalStatus,
        detail: &Json,
        evidence: EvidenceRead,
    ) -> (r: RefineResult<RevertRun>)
        ensures
            match r {
                Ok(run) => reconciliation_outcome(
                    request.goal_id@,
                    request.round_idx,
                    request.claim_id@,
                    request.execution_id@,
                    request.node_id@,
                    request.integration@,
                    *claim,
                    status,
                    detail@,
                    evidence,
                ) is Ok && run@ == fresh_revert(
                    target_root@,
                    request.integration@,
                    request.expected_target_commit@,
                ),
                Err(e) => reconciliation_outcome(
                    request.goal_id@,
                    request.round_idx,
                    request.claim_id@,
                    request.execution_id@,
                    request.node_id@,
                    request.integration@,
                    *claim,
                    status,
                    detail@,
                    evidence,
                ) == Err::<(), crate::errors::ErrorView>(e@),
            },
    {
        let owned = match claim {
            Some(c) => text_eq(c.claim.claim_id.as_str(), request.claim_id) && is_text(
                &c.claim.execution_id,
                request.execution_id,
            ) && text_eq(c.claim.goal_id.as_str(), request.goal_id) && text_eq(
                c.node_id.as_str(),
                request.node_id,
            ) && c.claim.state == WorkflowClaimState::Running,
            None => false,
        };
        if !owned {
            let mut m = cat3(
                "execution ",
                request.execution_id,
                " no longer owns already-merged reconciliation for Goal ",
            );
            m.append(request.goal_id);
            return Err(RefineError::Conflict(m));
        }
        if status != GoalStatus::Qa {
            return Err(
                RefineError::Conflict(
                    cat5(
                        "Goal ",
                        request.goal_id,
                        " changed from qa to ",
                        status.as_str(),
                        " before its reconciliation revert",
                    ),
                ),
            );
        }
        let has_round = match detail.get_array("rounds") {
            Some(rounds) => request.round_idx < rounds.len(),
            None => false,
        };
        if !has_round {
            let round = decimal_text(request.round_idx as u128 + 1);
            return Err(
                RefineError::Conflict(
                    cat5(
                        "Goal ",
                        request.goal_id,
                        " has no round ",
                        round.as_str(),
                        " for reconciliation",
                    ),
                ),
            );
        }
        match evidence {
            EvidenceRead::Unreadable(text) => Err(unreadable_evidence_error(text.as_str())),
            EvidenceRead::Absent => Err(
                RefineError::Conflict(
                    cat3(
                        "Goal ",
                        request.goal_id,
                        " has no Ready Merge evidence for reconciliation",
                    ),
                ),
            ),
            EvidenceRead::Recorded(e) => {
                if !same_integration(&e, request.integration) {
                    return Err(
                        RefineError::Conflict(
                            cat3(
                                "Goal ",
                                request.goal_id,
                                " integration evidence changed before its reconciliation revert",
                            ),
                        ),
                    );
                }
                let run = RevertRun {
                    target_root: target_root.to_owned(),
                    integration: e,
                    expected: request.expected_target_commit.to_owned(),
                    commit: String::new(),
                    first_parent: String::new(),
                    second_parent: String::new(),
                    result: MergeResult { ok: false, conflicts: Vec::new(), message: None },
                    push_error: None,
                    stage: RevertStage::Inspect,
                    error: None,
                };
                assert(run@.result.conflicts =~= Seq::<Seq<char>>::empty());
                assert(run@.commit =~= Seq::<char>::empty());
                Ok(run)
            },
        }
    }
}

impl RevertRun {
    fn refuse(&mut self, message: String)
        ensures
            final(self)@ == revert_refused(old(self)@, message@),
    {
        self.error = Some(RefineError::Conflict(message));
        self.stage = RevertStage::Failed;
    }

    fn ambiguous_message(&self) -> (r: String)
        ensures
            r@ == ambiguous_merge(self@),
    {
        cat5(
            "recorded integration commit ",
            self.integration.target_commit.as_str(),
            " does not uniquely identify a two-parent merge for candidate ",
            self.integration.candidate_commit.as_str(),
            "; no revert was attempted",
        )
    }

    fn take_inspection(&mut self, status: WorktreeStatus)
        ensures
            final(self)@ == after_inspection(old(self)@, status),
    {
        if !is_text(&status.branch, self.integration.target_branch.as_str()) {
            let found = match &status.branch {
                Some(b) => b.as_str(),
                None => "<detached>",
            };
            let mut m = cat5(
                "already-merged reconciliation requires target worktree ",
                self.target_root.as_str(),
                " to be on branch ",
                self.integration.target_branch.as_str(),
                ", found ",
            );
            m.append(found);
            m.append("; user work was preserved");
            self.refuse(m);
        } else if status.dirty_user_changes || status.refine_owned_artifacts {
            let m = cat3(
                "already-merged reconciliation found a dirty target index or worktree at ",
                self.target_root.as_str(),
                "; user work was preserved",
            );
            self.refuse(m);
        } else {
            self.stage = RevertStage::ResolveTarget;
        }
    }

    fn take_commit(&mut self, commit: String)
        ensures
            final(self)@ == after_revert_commit(old(self)@, commit@),
    {
        match self.stage {
            RevertStage::ResolveTarget => {
                if !text_eq(commit.as_str(), self.expected.as_str()) {
                    let m = cat5(
                        "already-merged reconciliation target changed from ",
                        self.expected.as_str(),
                        " to ",
                        commit.as_str(),
                        "; no revert was attempted",
                    );
                    self.refuse(m);
                } else if self.integration.pushed {
                    self.stage = RevertStage::FetchPublished;
                } else {
                    self.stage = RevertStage::ProveIntegration;
                }
            },
            RevertStage::ResolvePublished => {
                if !text_eq(commit.as_str(), self.expected.as_str()) {
                    let mut m = cat5(
                        "published target ",
                        self.integration.remote.as_str(),
                        "/",
                        self.integration.target_branch.as_str(),
                        " changed from ",
                    );
                    m.append(self.expected.as_str());
                    m.append(" to ");
                    m.append(commit.as_str());
                    m.append("; no revert was attempted");
                    self.refuse(m);
                } else {
                    self.stage = RevertStage::ProveIntegration;
                }
            },
            RevertStage::ResolveRevert => {
                self.commit = commit;
                self.stage = if self.integration.pushed {
                    RevertStage::Push
                } else {
                    RevertStage::Settle
                };
            },
            _ => {},
        }
    }

    fn take_answer(&mut self, yes: bool)
        ensures
            final(self)@ == after_revert_answer(old(self)@, yes),
    {
        match self.stage {
            RevertStage::ProveIntegration => {
                if yes {
                    self.stage = RevertStage::ReadParents;
                } else {
                    let m = cat5(
                        "recorded integration commit ",
                        self.integration.target_commit.as_str(),
                        " is absent from ",
                        self.integration.target_branch.as_str(),
                        "; no revert was attempted",
                    );
                    self.refuse(m);
                }
            },
            RevertStage::ProveFirstParent => {
                if yes {
                    let m = self.ambiguous_message();
                    self.refuse(m);
                } else {
                    self.stage = RevertStage::ProveSecondParent;
                }
            },
            RevertStage::ProveSecondParent => {
                if yes {
                    self.stage = RevertStage::Revert;
                } else {
                    let m = self.ambiguous_message();
                    self.refuse(m);
                }
            },
            _ => {},
        }
    }

    fn push_text(&self) -> (r: String)
        ensures
            r@ == described_or_empty(self@.push_error),
    {
        match &self.push_error {
            Some(e) => e.describe(),
            None => {
                let empty = String::new();
                assert(empty@ =~= Seq::<char>::empty());
                empty
            },
        }
    }

    fn take_failure(&mut self, error: RefineError)
        ensures
            final(self)@ == after_revert_failure(old(self)@, error@),
    {
        match self.stage {
            RevertStage::Push => {
                self.push_error = Some(error);
                self.stage = RevertStage::RestoreTarget;
            },
            RevertStage::RestoreTarget => {
                let push = self.push_text();
                let rollback = error.describe();
                let mut m = cat5(
                    "reconciliation revert ",
                    self.commit.as_str(),
                    " could not be pushed to ",
                    self.integration.remote.as_str(),
                    "/",
                );
                m.append(self.integration.target_branch.as_str());
                m.append(" (");
                m.append(push.as_str());
                m.append(") and the clean local target could not be restored to ");
                m.append(self.expected.as_str());
                m.append(" (");
                m.append(rollback.as_str());
                m.append(")");
                self.refuse(m);
            },
            RevertStage::Recover => {
                self.stage = RevertStage::Failed;
            },
            _ => {
                self.error = Some(error);
                self.stage = RevertStage::Failed;
            },
        }
    }

    fn take_done(&mut self)
        ensures
            final(self)@ == after_revert_done(old(self)@),
    {
        match self.stage {
            RevertStage::FetchPublished => {
                self.stage = RevertStage::ResolvePublished;
            },
            RevertStage::Push => {
                self.stage = RevertStage::Settle;
            },
            RevertStage::RestoreTarget => {
                let push = self.push_text();
                let mut m = cat5(
                    "reconciliation revert ",
                    self.commit.as_str(),
                    " could not be pushed to ",
                    self.integration.remote.as_str(),
                    "/",
                );
                m.append(self.integration.target_branch.as_str());
                m.append("; the clean local target was restored to ");
                m.append(self.expected.as_str());
                m.append(": ");
                m.append(push.as_str());
                self.refuse(m);
            },
            RevertStage::Recover => {
                self.stage = RevertStage::Failed;
            },
            _ => {},
        }
    }

    /// Takes note of what came of the current effect.
    pub fn advance(&mut self, event: RevertEvent)
        ensures
            final(self)@ == next_revert(old(self)@, event),
    {
        if self.stage == RevertStage::Failed {
            return;
        }
        match event {
            RevertEvent::Failed(e) => {
                self.take_failure(e);
            },
            RevertEvent::Inspected(status) => {
                if self.stage == RevertStage::Inspect {
                    self.take_inspection(status);
                }
            },
            RevertEvent::Commit(c) => {
                self.take_commit(c);
            },
            RevertEvent::Answer(yes) => {
                self.take_answer(yes);
            },
            RevertEvent::Parents(parents) => {
                if self.stage == RevertStage::ReadParents {
                    if parents.len() != 2 {
                        let m = self.ambiguous_message();
                        self.refuse(m);
                    } else {
                        self.first_parent = parents[0].clone();
                        self.second_parent = parents[1].clone();
                        self.stage = RevertStage::ProveFirstParent;
                    }
                }
            },
            RevertEvent::Reverted(result) => {
                if self.stage == RevertStage::Revert {
                    if result.ok {
                        self.result = result;
                        self.stage = RevertStage::ResolveRevert;
                    } else {
                        self.error = Some(
                            merge_failure("already-merged reconciliation revert", &result),
                        );
                        self.stage = RevertStage::Recover;
                    }
                }
            },
            RevertEvent::Done => {
                self.take_done();
            },
        }
    }

    /// What to do next.
    pub fn action(&self) -> (r: RevertAction)
        ensures
            r@ == revert_action(self@),
    {
        let i = &self.integration;
        match self.stage {
            RevertStage::Inspect => RevertAction::Inspect(self.target_root.clone()),
            RevertStage::ResolveTarget => RevertAction::Resolve(i.target_branch.clone()),
            RevertStage::FetchPublished => RevertAction::Fetch(
                i.remote.clone(),
                i.target_branch.clone(),
            ),
            RevertStage::ResolvePublished => RevertAction::Resolve(
                cat3(i.remote.as_str(), "/", i.target_branch.as_str()),
            ),
            RevertStage::ProveIntegration => RevertAction::IsAncestor(
                i.target_commit.clone(),
                self.expected.clone(),
            ),
            RevertStage::ReadParents => RevertAction::Parents(i.target_commit.clone()),
            RevertStage::ProveFirstParent => RevertAction::IsAncestor(
                i.candidate_commit.clone(),
                self.first_parent.clone(),
            ),
            RevertStage::ProveSecondParent => RevertAction::IsAncestor(
                i.candidate_commit.clone(),
                self.second_parent.clone(),
            ),
            RevertStage::Revert => RevertAction::Revert(i.target_commit.clone(), 1),
            RevertStage::Recover => RevertAction::Recover,
            RevertStage::ResolveRevert => RevertAction::Resolve(i.target_branch.clone()),
            RevertStage::Push => RevertAction::Push(i.remote.clone(), i.target_branch.clone()),
            RevertStage::RestoreTarget => RevertAction::Reset(self.expected.clone()),
            RevertStage::Settle => RevertAction::Settle,
            RevertStage::Failed => RevertAction::Finished,
        }
    }

    /// The revert to settle.
    pub fn outcome(self) -> (r: ReconciliationRevert)
        ensures
            r.merge_commit@ == self@.integration.target_commit,
            r.revert_commit@ == self@.commit,
            r.result@ == self@.result,
    {
        ReconciliationRevert {
            merge_commit: self.integration.target_commit,
            revert_commit: self.commit,
            result: self.result,
        }
    }
}

/// A revert happens only where the merge commit has two parents, the first
/// without and the second with the candidate.
pub proof fn reverts_need_an_exact_merge(run: RevertView, event: RevertEvent)
    requires
        run.stage != RevertStage::Revert,
        next_revert(run, event).stage == RevertStage::Revert,
    ensures
        run.stage == RevertStage::ProveSecondParent,
        event == RevertEvent::Answer(true),
        revert_action(run) == RevertActionView::IsAncestor(
            run.integration.candidate_commit,
            run.second_parent,
        ),
{
}

/// The second parent is asked only once the first parent is known not to hold
/// the candidate.
pub proof fn the_first_parent_is_asked_first(run: RevertView, event: RevertEvent)
    requires
        run.stage != RevertStage::ProveSecondParent,
        next_revert(run, event).stage == RevertStage::ProveSecondParent,
    ensures
        run.stage == RevertStage::ProveFirstParent,
        event == RevertEvent::Answer(false),
{
}

/// Nothing is pushed before a clean revert, and a revert is settled only once
/// it is published wherever the merge was.
pub proof fn only_clean_reverts_are_published(run: RevertView, event: RevertEvent)
    ensures
        run.stage != RevertStage::Push && next_revert(run, event).stage == RevertStage::Push
            ==> run.stage == RevertStage::ResolveRevert && run.integration.pushed,
        run.stage != RevertStage::ResolveRevert && next_revert(run, event).stage
            == RevertStage::ResolveRevert ==> run.stage == RevertStage::Revert && (
        event matches RevertEvent::Reverted(m) && m.ok),
        run.stage != RevertStage::Settle && next_revert(run, event).stage == RevertStage::Settle
            ==> (run.stage == RevertStage::Push && event is Done) || (run.stage
            == RevertStage::ResolveRevert && event is Commit && !run.integration.pushed),
{
}

/// A revert that could not be pushed leaves the local target where it was or
/// says that it could not.
pub proof fn failed_pushes_restore_the_target(run: RevertView, error: RefineError)
    requires
        run.stage == RevertStage::Push,
    ensures
        revert_action(next_revert(run, RevertEvent::Failed(error))) == RevertActionView::Reset(
            run.expected,
        ),
        next_revert(next_revert(run, RevertEvent::Failed(error)), RevertEvent::Done).stage
            == RevertStage::Failed,
        next_revert(next_revert(run, RevertEvent::Failed(error)), RevertEvent::Done).error is Some,
{
}

} // verus!

//! Merging the work of goals into their target branch.
use vstd::prelude::*;

use crate::errors::{RefineError, RefineResult};
use crate::json::Json;
use crate::model::GoalStatus;
use crate::text::{cat2, cat3, cat5, decimal_text, replace_text, text_eq, trim};

pub mod approval;
pub mod integration;
pub mod reconciliation;
pub mod settlement;

verus! {

/// What Git said of a merge or revert.
#[derive(Debug)]
pub struct MergeResult {
    pub ok: bool,
    pub conflicts: Vec<String>,
    pub message: Option<String>,
}

/// The evidence that a candidate was merged.
#[derive(Debug)]
pub struct RoundIntegration {
    pub candidate_commit: String,
    pub target_branch: String,
    pub target_commit: String,
    pub remote: String,
    pub pushed: bool,
    pub integrated_at: String,
    pub merge: MergeResult,
}

/// A merge result by its contents.
pub ghost struct MergeView {
    pub ok: bool,
    pub conflicts: Seq<Seq<char>>,
    pub message: Option<Seq<char>>,
}

/// Evidence by its contents.
pub ghost struct IntegrationView {
    pub candidate_commit: Seq<char>,
    pub target_branch: Seq<char>,
    pub target_commit: Seq<char>,
    pub remote: Seq<char>,
    pub pushed: bool,
    pub integrated_at: Seq<char>,
    pub merge: MergeView,
}

impl View for MergeResult {
    type V = MergeView;

    open spec fn view(&self) -> MergeView {
        MergeView {
            ok: self.ok,
            conflicts: crate::text::views(self.conflicts@),
            message: crate::text::maybe_view(self.message),
        }
    }
}

impl View for RoundIntegration {
    type V = IntegrationView;

    open spec fn view(&self) -> IntegrationView {
        IntegrationView {
            candidate_commit: self.candidate_commit@,
            target_branch: self.target_branch@,
            target_commit: self.target_commit@,
            remote: self.remote@,
            pushed: self.pushed,
            integrated_at: self.integrated_at@,
            merge: self.merge@,
        }
    }
}

/// What reading the evidence of a round gave.
pub enum EvidenceRead {
    Absent,
    Recorded(RoundIntegration),
    Unreadable(String),
}

/// The refusal for evidence that cannot be read.
pub open spec fn unreadable_evidence(text: Seq<char>) -> crate::errors::ErrorView {
    crate::errors::ErrorView::Serialization(
        "invalid Ready Merge integration evidence: "@ + text,
    )
}

/// Builds the refusal for evidence that cannot be read.
pub fn unreadable_evidence_error(text: &str) -> (r: RefineError)
    ensures
        r@ == unreadable_evidence(text@),
{
    RefineError::Serialization(cat2("invalid Ready Merge integration evidence: ", text))
}

/// The evidence of a round: what it records unless that is null.
pub fn recorded_evidence(round: &Json) -> (r: Option<&Json>)
    ensures
        match r {
            Some(v) => crate::json::field(round@, "workflow_integration"@) == Some(v@) && !(
            v@ is Null),
            None => crate::json::field(round@, "workflow_integration"@) matches Some(v) ==> v is Null,
        },
{
    match round.get("workflow_integration") {
        Some(v) => if v.is_null() {
            None
        } else {
            Some(v)
        },
        None => None,
    }
}

/// Merges for one target.
#[derive(Debug)]
pub struct FileMergerService {
    pub runtime_root: String,
    pub refine_dir: String,
    pub target_root: Option<String>,
}

/// A revert of a merged candidate.
#[derive(Debug)]
pub struct ReconciliationRevert {
    pub merge_commit: String,
    pub revert_commit: String,
    pub result: MergeResult,
}

/// A request to revert a merged candidate.
pub struct ReconciliationRequest<'a> {
    pub goal_id: &'a str,
    pub round_idx: usize,
    pub claim_id: &'a str,
    pub execution_id: &'a str,
    pub node_id: &'a str,
    pub integration: &'a RoundIntegration,
    pub expected_target_commit: &'a str,
}

impl FileMergerService {
    /// Merges into the target that holds the state directory.
    pub fn new(runtime_root: &str, refine_dir: &str) -> (r: Self)
        ensures
            r.runtime_root@ == runtime_root@,
            r.refine_dir@ == refine_dir@,
            r.target_root is None,
    {
        FileMergerService {
            runtime_root: runtime_root.to_owned(),
            refine_dir: refine_dir.to_owned(),
            target_root: None,
        }
    }

    /// Merges into a given target.
    pub fn with_target_root(runtime_root: &str, refine_dir: &str, target_root: &str) -> (r: Self)
        ensures
            r.runtime_root@ == runtime_root@,
            r.refine_dir@ == refine_dir@,
            crate::text::maybe_view(r.target_root) == Some(target_root@),
    {
        FileMergerService {
            runtime_root: runtime_root.to_owned(),
            refine_dir: refine_dir.to_owned(),
            target_root: Some(target_root.to_owned()),
        }
    }
}

/// The root that merges are made in: a given one, or the one that was found for
/// the state directory.
pub fn target_root(given: &Option<String>, found: RefineResult<String>) -> (r: RefineResult<
    String,
>)
    ensures
        crate::errors::viewed(r) == match *given {
            Some(root) => Ok(root@),
            None => crate::errors::viewed(found),
        },
{
    match given {
        Some(root) => Ok(root.clone()),
        None => found,
    }
}

/// The text under a key, trimmed, if it is not blank.
pub open spec fn recorded_text(v: crate::json::JsonView, key: Seq<char>) -> Option<Seq<char>> {
    crate::process_control::ownership::named_text(v, key)
}

/// The refusal for a goal that does not record what a merge needs.
pub open spec fn missing_record(goal_id: Seq<char>, key: Seq<char>) -> crate::errors::ErrorView {
    crate::errors::ErrorView::Conflict(
        "Goal "@ + goal_id + " has no recorded "@ + key + " for Ready Merge integration"@,
    )
}

/// The recorded text under a key, or the refusal without it.
pub open spec fn required_text(v: crate::json::JsonView, key: Seq<char>, goal_id: Seq<char>) -> Result<
    Seq<char>,
    crate::errors::ErrorView,
> {
    match recorded_text(v, key) {
        Some(t) => Ok(t),
        None => Err(missing_record(goal_id, key)),
    }
}

/// Reads a text that a merge cannot do without.
pub fn required_string(value: &Json, key: &str, goal_id: &str) -> (r: RefineResult<String>)
    ensures
        crate::errors::viewed(r) == required_text(value@, key@, goal_id@),
{
    if let Some(t) = value.get_text(key) {
        let t = trim(t);
        if !t.is_empty() {
            return Ok(t.to_owned());
        }
    }
    Err(
        RefineError::Conflict(
            cat5("Goal ", goal_id, " has no recorded ", key, " for Ready Merge integration"),
        ),
    )
}

/// The failure of a merge that Git did not finish.
pub open spec fn failed_merge(stage: Seq<char>, message: Option<Seq<char>>) -> crate::errors::ErrorView {
    crate::errors::ErrorView::Conflict(
        stage + " failed: "@ + (match message {
            Some(m) => m,
            None => "Git merge failed"@,
        }),
    )
}

/// Reports a merge that Git did not finish.
pub fn merge_failure(stage: &str, merge: &MergeResult) -> (r: RefineError)
    ensures
        r@ == failed_merge(stage@, merge@.message),
{
    let message = match &merge.message {
        Some(m) => m.as_str(),
        None => "Git merge failed",
    };
    RefineError::Conflict(cat3(stage, " failed: ", message))
}

/// The branch of a goal: the configured pattern with the goal's id filled in.
pub open spec fn goal_branch(settings: crate::json::JsonView, goal_id: Seq<char>) -> Seq<char> {
    crate::text::replaced_all(
        match recorded_text(settings, "branch_name_pattern"@) {
            Some(p) => p,
            None => "refine/{goal_id}"@,
        },
        "{goal_id}"@,
        goal_id,
    )
}

/// A text setting, trimmed, or the fallback where it is absent or blank.
pub fn setting_string(settings: &Json, key: &str, fallback: &str) -> (r: String)
    ensures
        r@ == (match recorded_text(settings@, key@) {
            Some(t) => t,
            None => fallback@,
        }),
{
    if let Some(t) = settings.get_text(key) {
        let t = trim(t);
        if !t.is_empty() {
            return t.to_owned();
        }
    }
    fallback.to_owned()
}

/// Names the branch of a goal.
pub fn branch_name_for_goal(settings: &Json, goal_id: &str) -> (r: String)
    ensures
        r@ == goal_branch(settings@, goal_id@),
{
    let pattern = setting_string(settings, "branch_name_pattern", "refine/{goal_id}");
    proof {
        reveal_strlit("{goal_id}");
    }
    replace_text(pattern.as_str(), "{goal_id}", goal_id)
}

/// The identity and revision under which a merge runs.
#[derive(Debug)]
pub struct WorkflowExecutionFence {
    pub goal_id: String,
    pub node_id: String,
    pub execution_id: String,
    pub round_idx: usize,
    pub goal_revision: u64,
}

/// What a merge expects of its goal.
#[derive(Debug)]
pub struct ExpectedRefs {
    pub branch: String,
    pub candidate: String,
    pub remote: String,
}

/// The revision of a record; a record without one is at revision zero.
pub open spec fn revision_of(record: crate::json::JsonView) -> u64 {
    match crate::json::unsigned_in(crate::json::field(record, "workflow_revision"@)) {
        Some(n) => n,
        None => 0,
    }
}

/// Reads the revision of a record.
pub fn workflow_revision(record: &Json) -> (r: u64)
    ensures
        r == revision_of(record@),
{
    match record.get_unsigned("workflow_revision") {
        Some(n) => n,
        None => 0,
    }
}

/// Whether a recorded text is exactly the expected one.
pub fn records(value: &Json, key: &str, expected: &str) -> (r: bool)
    ensures
        r == (crate::json::text_field(value@, key@) == Some(expected@)),
{
    match value.get_text(key) {
        Some(t) => text_eq(t, expected),
        None => false,
    }
}

/// The refusal for a goal whose merge inputs moved.
pub open spec fn changed_ref(goal_id: Seq<char>, label: Seq<char>) -> crate::errors::ErrorView {
    crate::errors::ErrorView::Conflict(
        "Goal "@ + goal_id + " "@ + label + " changed before Ready Merge integration"@,
    )
}

fn changed_ref_error(goal_id: &str, label: &str) -> (r: RefineError)
    ensures
        r@ == changed_ref(goal_id@, label@),
{
    RefineError::Conflict(
        cat5("Goal ", goal_id, " ", label, " changed before Ready Merge integration"),
    )
}

/// Whether a goal and its merge operation are still as the merge expects them.
pub open spec fn fence_check(
    fence: WorkflowExecutionFence,
    operation_id: Seq<char>,
    operation_active: bool,
    operation_state: Seq<char>,
    detail: crate::json::JsonView,
    expected: ExpectedRefs,
) -> Result<(), crate::errors::ErrorView> {
    let goal_id = fence.goal_id@;
    let rounds = crate::json::elements(crate::json::field(detail, "rounds"@));
    if !operation_active {
        Err(
            crate::errors::ErrorView::Conflict(
                "Ready Merge operation "@ + operation_id + " is "@ + operation_state
                    + "; execution "@ + fence.execution_id@ + " can no longer integrate or settle"@,
            ),
        )
    } else if revision_of(detail) != fence.goal_revision {
        Err(
            crate::errors::ErrorView::Conflict(
                "Goal "@ + goal_id + " changed from Ready Merge revision "@ + crate::text::decimal(
                    fence.goal_revision as nat,
                ) + " to "@ + crate::text::decimal(revision_of(detail) as nat),
            ),
        )
    } else if crate::json::text_field(detail, "status"@) != Some("ready-merge"@) {
        Err(
            crate::errors::ErrorView::Conflict("Goal "@ + goal_id + " is no longer ready-merge"@),
        )
    } else if rounds is None {
        Err(crate::errors::ErrorView::Conflict("Goal "@ + goal_id + " has no rounds"@))
    } else if rounds->0.len() != fence.round_idx + 1 {
        Err(changed_ref(goal_id, "round"@))
    } else if crate::json::text_field(detail, "branch_name"@) != Some(expected.branch@) {
        Err(changed_ref(goal_id, "branch"@))
    } else if crate::json::text_field(detail, "candidate_commit"@) != Some(expected.candidate@) {
        Err(changed_ref(goal_id, "candidate"@))
    } else if crate::json::text_field(rounds->0[fence.round_idx as int], "workflow_git_remote"@)
        != Some(expected.remote@) {
        Err(changed_ref(goal_id, "remote"@))
    } else {
        Ok(())
    }
}

/// Refuses to go on where the operation ended or the goal moved since the
/// merge began.
pub fn verify_integration_fence(
    fence: &WorkflowExecutionFence,
    operation_id: &str,
    operation_active: bool,
    operation_state: &str,
    detail: &Json,
    expected: &ExpectedRefs,
) -> (r: RefineResult<()>)
    ensures
        crate::errors::outcome(r) == fence_check(
            *fence,
            operation_id@,
            operation_active,
            operation_state@,
            detail@,
            *expected,
        ),
{
    let goal_id = fence.goal_id.as_str();
    if !operation_active {
        let mut m = cat5(
            "Ready Merge operation ",
            operation_id,
            " is ",
            operation_state,
            "; execution ",
        );
        m.append(fence.execution_id.as_str());
        m.append(" can no longer integrate or settle");
        return Err(RefineError::Conflict(m));
    }
    let actual = workflow_revision(detail);
    if actual != fence.goal_revision {
        let from = decimal_text(fence.goal_revision as u128);
        let to = decimal_text(actual as u128);
        let mut m = cat5(
            "Goal ",
            goal_id,
            " changed from Ready Merge revision ",
            from.as_str(),
            " to ",
        );
        m.append(to.as_str());
        return Err(RefineError::Conflict(m));
    }
    if !records(detail, "status", GoalStatus::ReadyMerge.as_str()) {
        return Err(RefineError::Conflict(cat3("Goal ", goal_id, " is no longer ready-merge")));
    }
    let rounds = match detail.get_array("rounds") {
        Some(rounds) => rounds,
        None => {
            return Err(RefineError::Conflict(cat3("Goal ", goal_id, " has no rounds")));
        },
    };
    if rounds.len() as u128 != fence.round_idx as u128 + 1 {
        return Err(changed_ref_error(goal_id, "round"));
    }
    if !records(detail, "branch_name", expected.branch.as_str()) {
        return Err(changed_ref_error(goal_id, "branch"));
    }
    if !records(detail, "candidate_commit", expected.candidate.as_str()) {
        return Err(changed_ref_error(goal_id, "candidate"));
    }
    if !records(&rounds[fence.round_idx], "workflow_git_remote", expected.remote.as_str()) {
        return Err(changed_ref_error(goal_id, "remote"));
    }
    Ok(())
}

/// The name of the operation that merges a round.
pub open spec fn operation_name(goal_id: Seq<char>, round_idx: usize) -> Seq<char> {
    "merger:"@ + goal_id + ":"@ + crate::text::decimal((round_idx + 1) as nat)
}

/// Names the operation that merges a round.
pub fn integration_operation_name(goal_id: &str, round_idx: usize) -> (r: String)
    ensures
        r@ == operation_name(goal_id@, round_idx),
{
    let round = decimal_text(round_idx as u128 + 1);
    let mut m = cat3("merger:", goal_id, ":");
    m.append(round.as_str());
    m
}

/// The recorded request of the operation that merges a round.
pub open spec fn operation_request(
    fence: WorkflowExecutionFence,
    claim_id: Seq<char>,
    expected: ExpectedRefs,
) -> crate::json::JsonView {
    crate::json::JsonView::Object(
        Map::<Seq<char>, crate::json::JsonView>::empty().insert(
            "goal_id"@,
            crate::json::JsonView::Text(fence.goal_id@),
        ).insert(
            "round_idx"@,
            crate::json::JsonView::Number(
                crate::json::NumberView::Unsigned(fence.round_idx as u64),
            ),
        ).insert("claim_id"@, crate::json::JsonView::Text(claim_id)).insert(
            "execution_id"@,
            crate::json::JsonView::Text(fence.execution_id@),
        ).insert("node_id"@, crate::json::JsonView::Text(fence.node_id@)).insert(
            "goal_revision"@,
            crate::json::JsonView::Number(crate::json::NumberView::Unsigned(fence.goal_revision)),
        ).insert("candidate_commit"@, crate::json::JsonView::Text(expected.candidate@)).insert(
            "branch"@,
            crate::json::JsonView::Text(expected.branch@),
        ).insert("remote"@, crate::json::JsonView::Text(expected.remote@)),
    )
}

/// Records the request of the operation that merges a round.
pub fn integration_operation_request(
    fence: &WorkflowExecutionFence,
    claim_id: &str,
    expected: &ExpectedRefs,
) -> (r: Json)
    ensures
        r@ == operation_request(*fence, claim_id@, *expected),
{
    let mut o = Json::object();
    o.set("goal_id", Json::text(fence.goal_id.as_str()));
    o.set("round_idx", Json::unsigned(fence.round_idx as u64));
    o.set("claim_id", Json::text(claim_id));
    o.set("execution_id", Json::text(fence.execution_id.as_str()));
    o.set("node_id", Json::text(fence.node_id.as_str()));
    o.set("goal_revision", Json::unsigned(fence.goal_revision));
    o.set("candidate_commit", Json::text(expected.candidate.as_str()));
    o.set("branch", Json::text(expected.branch.as_str()));
    o.set("remote", Json::text(expected.remote.as_str()));
    o
}

} // verus!

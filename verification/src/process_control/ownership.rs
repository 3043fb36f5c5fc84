//! Who owns a process: the claim, execution and goal round that have to agree
//! before it is stopped, and again before its goal is settled.
use vstd::prelude::*;

use crate::codec::parse_json;
use crate::errors::{goal_not_found_error, RefineError, RefineResult};
use crate::json::Json;
use crate::model::{owner_of, GoalStatus, GoalSummaryProjection};
use crate::text::{cat2, cat3, decimal_text, is_text, maybe_text_eq, text_eq, trim};
use crate::text_map::TextMap;

verus! {

/// Where a workflow claim stands.
#[derive(Clone, Copy, Debug, PartialEq, Eq, Structural)]
pub enum WorkflowClaimState {
    Claimed,
    Running,
    Completed,
    Failed,
    Cancelled,
    Interrupted,
}

/// A workflow's hold on a goal.
#[derive(Debug)]
pub struct WorkflowClaim {
    pub claim_id: String,
    pub goal_id: String,
    pub execution_id: Option<String>,
    pub state: WorkflowClaimState,
}

/// The claims of the workflow engine.
#[derive(Debug)]
pub struct WorkflowAutomationState {
    pub claims: Vec<WorkflowClaim>,
}

/// A process under supervision, with the value it is shown as.
pub struct ManagedProcess {
    pub id: String,
    pub agent_owned: bool,
    pub details: Option<String>,
    pub api: Json,
    pub worktree: WorktreeRead,
}

/// What reading a process's worktree record gave.
pub enum WorktreeRead {
    Absent,
    At(String),
    Failed(RefineError),
}

/// When ownership is checked.
#[derive(Clone, Copy, Debug, PartialEq, Eq, Structural)]
pub enum WorkflowOwnershipPhase {
    BeforeTermination,
    BeforeCancellation,
}

/// The claim, execution and round that a process works for.
#[derive(Debug)]
pub struct WorkflowGoalOwnership {
    pub process_id: String,
    pub claim_id: String,
    pub execution_id: Option<String>,
    pub round_idx: Option<usize>,
}

/// What a goal has to look like when its cancellation is settled.
#[derive(Debug)]
pub struct GoalCancellationExpectation {
    pub status: GoalStatus,
    pub round_count: usize,
    pub updated: String,
    pub node_id: String,
}

/// A goal as seen before its process is stopped, and the process's claim on it.
#[derive(Debug)]
pub struct ProcessGoalFence {
    pub goal: GoalCancellationExpectation,
    pub workflow: Option<WorkflowGoalOwnership>,
}

/// Ownership by its contents.
pub ghost struct OwnershipView {
    pub process_id: Seq<char>,
    pub claim_id: Seq<char>,
    pub execution_id: Option<Seq<char>>,
    pub round_idx: Option<usize>,
}

/// An expectation by its contents.
pub ghost struct ExpectationView {
    pub status: GoalStatus,
    pub round_count: usize,
    pub updated: Seq<char>,
    pub node_id: Seq<char>,
}

/// A fence by its contents.
pub ghost struct FenceView {
    pub goal: ExpectationView,
    pub workflow: Option<OwnershipView>,
}

impl View for WorkflowGoalOwnership {
    type V = OwnershipView;

    open spec fn view(&self) -> OwnershipView {
        OwnershipView {
            process_id: self.process_id@,
            claim_id: self.claim_id@,
            execution_id: crate::text::maybe_view(self.execution_id),
            round_idx: self.round_idx,
        }
    }
}

impl View for GoalCancellationExpectation {
    type V = ExpectationView;

    open spec fn view(&self) -> ExpectationView {
        ExpectationView {
            status: self.status,
            round_count: self.round_count,
            updated: self.updated@,
            node_id: self.node_id@,
        }
    }
}

impl View for ProcessGoalFence {
    type V = FenceView;

    open spec fn view(&self) -> FenceView {
        FenceView {
            goal: self.goal@,
            workflow: match self.workflow {
                Some(w) => Some(w@),
                None => None,
            },
        }
    }
}

impl Clone for WorkflowGoalOwnership {
    fn clone(&self) -> (r: Self)
        ensures
            r == *self,
    {
        WorkflowGoalOwnership {
            process_id: self.process_id.clone(),
            claim_id: self.claim_id.clone(),
            execution_id: self.execution_id.clone(),
            round_idx: self.round_idx,
        }
    }
}

impl Clone for WorkflowClaim {
    fn clone(&self) -> (r: Self)
        ensures
            r == *self,
    {
        WorkflowClaim {
            claim_id: self.claim_id.clone(),
            goal_id: self.goal_id.clone(),
            execution_id: self.execution_id.clone(),
            state: self.state,
        }
    }
}

/// A claim that still holds its goal.
pub open spec fn active(claim: WorkflowClaim) -> bool {
    claim.state == WorkflowClaimState::Claimed || claim.state == WorkflowClaimState::Running
}

/// The claim with an id.
pub open spec fn claim_with_id(claims: Seq<WorkflowClaim>, id: Seq<char>) -> Option<WorkflowClaim> {
    crate::lists::first_match(claims, |c: WorkflowClaim| c.claim_id@ == id)
}

/// The claim of an execution.
pub open spec fn claim_with_execution(claims: Seq<WorkflowClaim>, execution: Seq<char>) -> Option<
    WorkflowClaim,
> {
    crate::lists::first_match(
        claims,
        |c: WorkflowClaim| crate::text::maybe_view(c.execution_id) == Some(execution),
    )
}

/// The claim that holds a goal.
pub open spec fn claim_holding(claims: Seq<WorkflowClaim>, goal: Seq<char>) -> Option<
    WorkflowClaim,
> {
    crate::lists::first_match(claims, |c: WorkflowClaim| c.goal_id@ == goal && active(c))
}

/// Some other claim than `claim_id` holds the goal.
pub open spec fn contested(claims: Seq<WorkflowClaim>, goal: Seq<char>, claim_id: Seq<char>) -> bool {
    exists|i: int|
        0 <= i < claims.len() && (#[trigger] claims[i]).goal_id@ == goal && active(claims[i])
            && claims[i].claim_id@ != claim_id
}

impl WorkflowClaim {
    /// Tells whether the claim still holds its goal.
    pub fn is_active(&self) -> (r: bool)
        ensures
            r == active(*self),
    {
        self.state == WorkflowClaimState::Claimed || self.state == WorkflowClaimState::Running
    }
}

/// The ownership that a process holds.
pub open spec fn ownership_of(ownership: Seq<WorkflowGoalOwnership>, process_id: Seq<char>) -> Option<
    WorkflowGoalOwnership,
> {
    crate::lists::first_match(ownership, |o: WorkflowGoalOwnership| o.process_id@ == process_id)
}

/// Finds the ownership that a process holds.
pub fn owner_of_process<'a>(ownership: &'a Vec<WorkflowGoalOwnership>, process_id: &str) -> (r:
    Option<&'a WorkflowGoalOwnership>)
    ensures
        match r {
            Some(o) => ownership_of(ownership@, process_id@) == Some(*o),
            None => ownership_of(ownership@, process_id@) is None,
        },
{
    let ghost p = |o: WorkflowGoalOwnership| o.process_id@ == process_id@;
    let mut i: usize = 0;
    assert(ownership@.skip(0) =~= ownership@);
    while i < ownership.len()
        invariant
            i <= ownership.len(),
            p == (|o: WorkflowGoalOwnership| o.process_id@ == process_id@),
            ownership_of(ownership@, process_id@) == crate::lists::first_match(
                ownership@.skip(i as int),
                p,
            ),
        decreases ownership.len() - i,
    {
        proof {
            crate::lists::first_match_steps(ownership@, p, i as int);
        }
        if text_eq(ownership[i].process_id.as_str(), process_id) {
            return Some(&ownership[i]);
        }
        i = i + 1;
    }
    None
}

impl WorkflowAutomationState {
    /// Finds a claim by its id.
    pub fn claim_by_id(&self, id: &str) -> (r: Option<&WorkflowClaim>)
        ensures
            match r {
                Some(c) => claim_with_id(self.claims@, id@) == Some(*c),
                None => claim_with_id(self.claims@, id@) is None,
            },
    {
        let ghost p = |c: WorkflowClaim| c.claim_id@ == id@;
        let mut i: usize = 0;
        assert(self.claims@.skip(0) =~= self.claims@);
        while i < self.claims.len()
            invariant
                i <= self.claims.len(),
                p == (|c: WorkflowClaim| c.claim_id@ == id@),
                claim_with_id(self.claims@, id@) == crate::lists::first_match(
                    self.claims@.skip(i as int),
                    p,
                ),
            decreases self.claims.len() - i,
        {
            proof {
                crate::lists::first_match_steps(self.claims@, p, i as int);
            }
            if text_eq(self.claims[i].claim_id.as_str(), id) {
                return Some(&self.claims[i]);
            }
            i = i + 1;
        }
        None
    }

    /// Finds a claim by its execution.
    pub fn claim_by_execution(&self, execution: &str) -> (r: Option<&WorkflowClaim>)
        ensures
            match r {
                Some(c) => claim_with_execution(self.claims@, execution@) == Some(*c),
                None => claim_with_execution(self.claims@, execution@) is None,
            },
    {
        let ghost p = |c: WorkflowClaim| crate::text::maybe_view(c.execution_id) == Some(execution@);
        let mut i: usize = 0;
        assert(self.claims@.skip(0) =~= self.claims@);
        while i < self.claims.len()
            invariant
                i <= self.claims.len(),
                p == (|c: WorkflowClaim|
                    crate::text::maybe_view(c.execution_id) == Some(execution@)),
                claim_with_execution(self.claims@, execution@) == crate::lists::first_match(
                    self.claims@.skip(i as int),
                    p,
                ),
            decreases self.claims.len() - i,
        {
            proof {
                crate::lists::first_match_steps(self.claims@, p, i as int);
            }
            if is_text(&self.claims[i].execution_id, execution) {
                return Some(&self.claims[i]);
            }
            i = i + 1;
        }
        None
    }

    /// Finds the claim that holds a goal.
    pub fn active_claim(&self, goal_id: &str) -> (r: Option<&WorkflowClaim>)
        ensures
            match r {
                Some(c) => claim_holding(self.claims@, goal_id@) == Some(*c),
                None => claim_holding(self.claims@, goal_id@) is None,
            },
    {
        let ghost p = |c: WorkflowClaim| c.goal_id@ == goal_id@ && active(c);
        let mut i: usize = 0;
        assert(self.claims@.skip(0) =~= self.claims@);
        while i < self.claims.len()
            invariant
                i <= self.claims.len(),
                p == (|c: WorkflowClaim| c.goal_id@ == goal_id@ && active(c)),
                claim_holding(self.claims@, goal_id@) == crate::lists::first_match(
                    self.claims@.skip(i as int),
                    p,
                ),
            decreases self.claims.len() - i,
        {
            proof {
                crate::lists::first_match_steps(self.claims@, p, i as int);
            }
            if text_eq(self.claims[i].goal_id.as_str(), goal_id) && self.claims[i].is_active() {
                return Some(&self.claims[i]);
            }
            i = i + 1;
        }
        None
    }

    /// Tells whether a claim other than `claim_id` holds a goal.
    pub fn has_competing_claim(&self, goal_id: &str, claim_id: &str) -> (r: bool)
        ensures
            r == contested(self.claims@, goal_id@, claim_id@),
    {
        let mut i: usize = 0;
        while i < self.claims.len()
            invariant
                i <= self.claims.len(),
                forall|j: int|
                    0 <= j < i ==> !((#[trigger] self.claims@[j]).goal_id@ == goal_id@ && active(
                        self.claims@[j],
                    ) && self.claims@[j].claim_id@ != claim_id@),
            decreases self.claims.len() - i,
        {
            if text_eq(self.claims[i].goal_id.as_str(), goal_id) && self.claims[i].is_active()
                && !text_eq(self.claims[i].claim_id.as_str(), claim_id) {
                return true;
            }
            i = i + 1;
        }
        false
    }
}

/// What is said of the goal when an ownership check fails.
pub open spec fn phase_outcome(phase: WorkflowOwnershipPhase) -> Seq<char> {
    match phase {
        WorkflowOwnershipPhase::BeforeTermination => "termination was not requested and the Goal remains non-cancelled"@,
        WorkflowOwnershipPhase::BeforeCancellation => "the process exit is confirmed, but the Goal remains non-cancelled"@,
    }
}

fn phase_outcome_text(phase: WorkflowOwnershipPhase) -> (r: &'static str)
    ensures
        r@ == phase_outcome(phase),
{
    match phase {
        WorkflowOwnershipPhase::BeforeTermination => "termination was not requested and the Goal remains non-cancelled",
        WorkflowOwnershipPhase::BeforeCancellation => "the process exit is confirmed, but the Goal remains non-cancelled",
    }
}

/// The refusal for a process whose claim, execution or round moved on.
pub open spec fn stale_ownership(
    goal_id: Seq<char>,
    ownership: OwnershipView,
    reason: Seq<char>,
    phase: WorkflowOwnershipPhase,
) -> crate::errors::ErrorView {
    crate::errors::ErrorView::Conflict(
        "managed process "@ + ownership.process_id + " has stale workflow ownership for Goal "@
            + goal_id + " (claim "@ + ownership.claim_id + ", execution "@ + (
        match ownership.execution_id {
            Some(e) => e,
            None => "not-started"@,
        }) + ", round "@ + (match ownership.round_idx {
            Some(i) => crate::text::decimal((i + 1) as nat),
            None => "unrecorded"@,
        }) + "): "@ + reason + "; "@ + phase_outcome(phase),
    )
}

/// Builds the refusal for a process whose claim, execution or round moved on.
pub fn stale_workflow_ownership(
    goal_id: &str,
    ownership: &WorkflowGoalOwnership,
    reason: &str,
    phase: WorkflowOwnershipPhase,
) -> (r: RefineError)
    ensures
        r@ == stale_ownership(goal_id@, ownership@, reason@, phase),
{
    let mut m = cat3(
        "managed process ",
        ownership.process_id.as_str(),
        " has stale workflow ownership for Goal ",
    );
    m.append(goal_id);
    m.append(" (claim ");
    m.append(ownership.claim_id.as_str());
    m.append(", execution ");
    match &ownership.execution_id {
        Some(e) => m.append(e.as_str()),
        None => m.append("not-started"),
    }
    m.append(", round ");
    match ownership.round_idx {
        Some(i) => {
            let round = decimal_text(i as u128 + 1);
            m.append(round.as_str());
        },
        None => m.append("unrecorded"),
    }
    m.append("): ");
    m.append(reason);
    m.append("; ");
    m.append(phase_outcome_text(phase));
    RefineError::Conflict(m)
}

/// The refusal for a process without ownership whose goal is claimed.
pub open spec fn competing_claim(
    process_id: Seq<char>,
    goal_id: Seq<char>,
    phase: WorkflowOwnershipPhase,
) -> crate::errors::ErrorView {
    crate::errors::ErrorView::Conflict(
        "managed process "@ + process_id + " has no workflow execution ownership, but Goal "@
            + goal_id + " has an active competing claim; "@ + phase_outcome(phase),
    )
}

/// Refuses where a workflow claim still holds the goal.
pub fn ensure_goal_has_no_active_workflow_claim_in_state(
    state: &WorkflowAutomationState,
    goal_id: &str,
    process_id: &str,
    phase: WorkflowOwnershipPhase,
) -> (r: RefineResult<()>)
    ensures
        crate::errors::outcome(r) == (if claim_holding(state.claims@, goal_id@) is Some {
            Err(competing_claim(process_id@, goal_id@, phase))
        } else {
            Ok(())
        }),
{
    if state.active_claim(goal_id).is_some() {
        let mut m = cat3(
            "managed process ",
            process_id,
            " has no workflow execution ownership, but Goal ",
        );
        m.append(goal_id);
        m.append(" has an active competing claim; ");
        m.append(phase_outcome_text(phase));
        return Err(RefineError::Conflict(m));
    }
    Ok(())
}

/// Whether the claim that a process works for is still the goal's claim.
pub open spec fn ownership_outcome(
    claims: Seq<WorkflowClaim>,
    goal_id: Seq<char>,
    ownership: OwnershipView,
    phase: WorkflowOwnershipPhase,
) -> Result<(), crate::errors::ErrorView> {
    match claim_with_id(claims, ownership.claim_id) {
        None => Err(stale_ownership(goal_id, ownership, "claim is no longer present"@, phase)),
        Some(claim) => if claim.goal_id@ != goal_id || crate::text::maybe_view(claim.execution_id)
            != ownership.execution_id {
            Err(stale_ownership(goal_id, ownership, "claim identity or execution changed"@, phase))
        } else if contested(claims, goal_id, ownership.claim_id) {
            Err(
                stale_ownership(goal_id, ownership, "a newer workflow claim owns the Goal"@, phase),
            )
        } else if phase == WorkflowOwnershipPhase::BeforeTermination && claim.state
            != WorkflowClaimState::Running {
            Err(
                stale_ownership(
                    goal_id,
                    ownership,
                    "the recorded workflow claim is not running"@,
                    phase,
                ),
            )
        } else {
            Ok(())
        },
    }
}

/// Refuses where the claim of a process is gone, changed, contested or, before
/// termination, not running.
pub fn validate_workflow_goal_ownership_in_state(
    state: &WorkflowAutomationState,
    goal_id: &str,
    ownership: &WorkflowGoalOwnership,
    phase: WorkflowOwnershipPhase,
) -> (r: RefineResult<()>)
    ensures
        crate::errors::outcome(r) == ownership_outcome(state.claims@, goal_id@, ownership@, phase),
{
    let claim = match state.claim_by_id(ownership.claim_id.as_str()) {
        Some(claim) => claim,
        None => {
            return Err(
                stale_workflow_ownership(goal_id, ownership, "claim is no longer present", phase),
            );
        },
    };
    if !text_eq(claim.goal_id.as_str(), goal_id) || !maybe_text_eq(
        &claim.execution_id,
        &ownership.execution_id,
    ) {
        return Err(
            stale_workflow_ownership(
                goal_id,
                ownership,
                "claim identity or execution changed",
                phase,
            ),
        );
    }
    if state.has_competing_claim(goal_id, ownership.claim_id.as_str()) {
        return Err(
            stale_workflow_ownership(
                goal_id,
                ownership,
                "a newer workflow claim owns the Goal",
                phase,
            ),
        );
    }
    if phase == WorkflowOwnershipPhase::BeforeTermination && claim.state
        != WorkflowClaimState::Running {
        return Err(
            stale_workflow_ownership(
                goal_id,
                ownership,
                "the recorded workflow claim is not running",
                phase,
            ),
        );
    }
    Ok(())
}

/// Whether the process works on the goal's current round.
pub open spec fn round_outcome(
    round_count: usize,
    goal_id: Seq<char>,
    ownership: OwnershipView,
    phase: WorkflowOwnershipPhase,
) -> Result<(), crate::errors::ErrorView> {
    match ownership.round_idx {
        None => Ok(()),
        Some(i) => if round_count == i + 1 || (i == usize::MAX && round_count == usize::MAX) {
            Ok(())
        } else {
            Err(
                stale_ownership(
                    goal_id,
                    ownership,
                    "process round "@ + crate::text::decimal((i + 1) as nat)
                        + " is not the current Goal round "@ + crate::text::decimal(
                        round_count as nat,
                    ),
                    phase,
                ),
            )
        },
    }
}

/// Refuses where a process works on another round than the goal's current one.
pub fn validate_expected_goal_round(
    goal: &GoalCancellationExpectation,
    goal_id: &str,
    ownership: &WorkflowGoalOwnership,
    phase: WorkflowOwnershipPhase,
) -> (r: RefineResult<()>)
    ensures
        crate::errors::outcome(r) == round_outcome(goal.round_count, goal_id@, ownership@, phase),
{
    let round_idx = match ownership.round_idx {
        Some(round_idx) => round_idx,
        None => {
            return Ok(());
        },
    };
    if goal.round_count != round_idx.saturating_add(1) {
        let process_round = decimal_text(round_idx as u128 + 1);
        let goal_round = decimal_text(goal.round_count as u128);
        let mut reason = cat3(
            "process round ",
            process_round.as_str(),
            " is not the current Goal round ",
        );
        reason.append(goal_round.as_str());
        return Err(stale_workflow_ownership(goal_id, ownership, reason.as_str(), phase));
    }
    Ok(())
}

/// The state of a goal before process control touches it: a done goal is
/// refused, an unknown one is not found.
pub open spec fn goal_state_outcome(
    goals: Map<Seq<char>, GoalSummaryProjection>,
    goal_id: Seq<char>,
) -> Result<ExpectationView, crate::errors::ErrorView> {
    if !goals.contains_key(goal_id) {
        Err(crate::errors::goal_not_found(goal_id))
    } else if goals[goal_id].goal.status == GoalStatus::Done {
        Err(
            crate::errors::ErrorView::InvalidInput(
                "done Goal "@ + goal_id
                    + " cannot be settled by process control; its linked process was left running"@,
            ),
        )
    } else {
        Ok(
            ExpectationView {
                status: goals[goal_id].goal.status,
                round_count: goals[goal_id].goal.round_count,
                updated: goals[goal_id].goal.updated@,
                node_id: crate::model::effective_owner(goals[goal_id].goal.node_id),
            },
        )
    }
}

/// Reads the state of a goal before its process is stopped.
pub fn preflight_goal_state(goals: &TextMap<GoalSummaryProjection>, goal_id: &str) -> (r:
    RefineResult<GoalCancellationExpectation>)
    ensures
        crate::errors::viewed(r) == goal_state_outcome(goals@, goal_id@),
{
    let goal = match goals.get(goal_id) {
        Some(goal) => goal,
        None => {
            return Err(goal_not_found_error(goal_id));
        },
    };
    if goal.goal.status == GoalStatus::Done {
        let mut m = cat2("done Goal ", goal_id);
        m.append(" cannot be settled by process control; its linked process was left running");
        return Err(RefineError::InvalidInput(m));
    }
    Ok(
        GoalCancellationExpectation {
            status: goal.goal.status,
            round_count: goal.goal.round_count,
            updated: goal.goal.updated.clone(),
            node_id: owner_of(&goal.goal.node_id).to_owned(),
        },
    )
}

/// The fields that a process records about itself: an object, or none.
pub open spec fn metadata_of(details: Option<String>) -> crate::json::JsonView {
    match details {
        Some(d) => match crate::codec::parsed_bytes(vstd::utf8::encode_utf8(d@)) {
            Ok(crate::json::JsonView::Object(m)) => crate::json::JsonView::Object(m),
            _ => crate::json::JsonView::Object(Map::empty()),
        },
        None => crate::json::JsonView::Object(Map::empty()),
    }
}

/// Reads the fields that a process records about itself.
pub fn process_metadata(process: &ManagedProcess) -> (r: Json)
    ensures
        r@ == metadata_of(process.details),
{
    match &process.details {
        Some(details) => match parse_json(details.as_str().as_bytes()) {
            Ok(value) => if value.is_object() {
                value
            } else {
                Json::object()
            },
            Err(_) => Json::object(),
        },
        None => Json::object(),
    }
}

/// A process that runs an agent: owned by one, or shown as an agent, a chat or
/// an interactive session with a provider.
pub open spec fn runs_agent(agent_owned: bool, api: crate::json::JsonView) -> bool {
    let kind = crate::json::text_field(api, "kind"@);
    ||| agent_owned
    ||| kind == Some("agent"@)
    ||| kind == Some("chat"@)
    ||| kind == Some("interactive_session"@) && crate::json::text_field(api, "provider"@) is Some
}

/// Tells whether a process runs an agent.
pub fn is_agent_process(process: &ManagedProcess) -> (r: bool)
    ensures
        r == runs_agent(process.agent_owned, process.api@),
{
    if process.agent_owned {
        return true;
    }
    match process.api.get_text("kind") {
        Some(kind) => text_eq(kind, "agent") || text_eq(kind, "chat") || (text_eq(
            kind,
            "interactive_session",
        ) && process.api.get_text("provider").is_some()),
        None => false,
    }
}

/// The trimmed text under a key, if it is not blank.
pub open spec fn named_text(v: crate::json::JsonView, key: Seq<char>) -> Option<Seq<char>> {
    match crate::json::text_field(v, key) {
        Some(t) => if crate::text::blank(t) { None } else { Some(crate::text::trimmed(t)) },
        None => None,
    }
}

fn get_named_text(v: &Json, key: &str) -> (r: Option<String>)
    ensures
        crate::text::maybe_view(r) == named_text(v@, key@),
{
    match v.get_text(key) {
        Some(t) => {
            let t = trim(t);
            if t.is_empty() {
                None
            } else {
                Some(t.to_owned())
            }
        },
        None => None,
    }
}

/// The refusal for a process that records only part of its ownership.
pub open spec fn incomplete_ownership(process_id: Seq<char>, field: Seq<char>) -> crate::errors::ErrorView {
    crate::errors::ErrorView::Conflict(
        "managed process "@ + process_id + " has incomplete workflow ownership: "@ + field
            + " is required; termination was not requested"@,
    )
}

fn incomplete_ownership_error(process_id: &str, field: &str) -> (r: RefineError)
    ensures
        r@ == incomplete_ownership(process_id@, field@),
{
    let mut m = cat3("managed process ", process_id, " has incomplete workflow ownership: ");
    m.append(field);
    m.append(" is required; termination was not requested");
    RefineError::Conflict(m)
}

/// The claim that the recorded metadata names: by claim id where one is
/// recorded, else by execution.
pub open spec fn recorded_claim(
    claims: Seq<WorkflowClaim>,
    metadata: crate::json::JsonView,
    execution: Seq<char>,
) -> Option<WorkflowClaim> {
    match named_text(metadata, "claim_id"@) {
        Some(id) => claim_with_id(claims, id),
        None => claim_with_execution(claims, execution),
    }
}

/// The recorded round, where it is a number that fits.
pub open spec fn recorded_round(metadata: crate::json::JsonView) -> Option<usize> {
    match crate::json::unsigned_in(crate::json::field(metadata, "round_idx"@)) {
        Some(n) => if n <= usize::MAX { Some(n as usize) } else { None },
        None => None,
    }
}

/// The phase in which the claim itself is checked: a claim and goal that are
/// both cancelled already need no running claim.
pub open spec fn claim_phase(
    phase: WorkflowOwnershipPhase,
    claim: WorkflowClaimState,
    goal: GoalStatus,
) -> WorkflowOwnershipPhase {
    if phase == WorkflowOwnershipPhase::BeforeTermination && claim == WorkflowClaimState::Cancelled
        && goal == GoalStatus::Cancelled {
        WorkflowOwnershipPhase::BeforeCancellation
    } else {
        phase
    }
}

/// The fence of a process around its goal, or why there is none.
pub open spec fn fence_outcome(
    goals: Map<Seq<char>, GoalSummaryProjection>,
    claims: Seq<WorkflowClaim>,
    goal_id: Seq<char>,
    process_id: Seq<char>,
    metadata: crate::json::JsonView,
    phase: WorkflowOwnershipPhase,
) -> Result<FenceView, crate::errors::ErrorView> {
    match goal_state_outcome(goals, goal_id) {
        Err(e) => Err(e),
        Ok(goal) => if crate::json::field(metadata, "claim_id"@) is None && crate::json::field(
            metadata,
            "execution_id"@,
        ) is None {
            if claim_holding(claims, goal_id) is Some {
                Err(
                    competing_claim(
                        process_id,
                        goal_id,
                        WorkflowOwnershipPhase::BeforeTermination,
                    ),
                )
            } else {
                Ok(FenceView { goal, workflow: None })
            }
        } else {
            match (named_text(metadata, "execution_id"@), recorded_round(metadata)) {
                (None, _) => Err(incomplete_ownership(process_id, "execution_id"@)),
                (Some(_), None) => Err(incomplete_ownership(process_id, "round_idx"@)),
                (Some(execution), Some(round)) => match recorded_claim(claims, metadata, execution) {
                    None => Err(
                        crate::errors::ErrorView::Conflict(
                            "managed process "@ + process_id
                                + " no longer has a matching workflow claim for execution "@
                                + execution + "; termination was not requested and Goal "@ + goal_id
                                + " remains non-cancelled"@,
                        ),
                    ),
                    Some(claim) => {
                        let ownership = OwnershipView {
                            process_id,
                            claim_id: claim.claim_id@,
                            execution_id: Some(execution),
                            round_idx: Some(round),
                        };
                        match ownership_outcome(
                            claims,
                            goal_id,
                            ownership,
                            claim_phase(phase, claim.state, goal.status),
                        ) {
                            Err(e) => Err(e),
                            Ok(_) => match round_outcome(
                                goal.round_count,
                                goal_id,
                                ownership,
                                phase,
                            ) {
                                Err(e) => Err(e),
                                Ok(_) => Ok(FenceView { goal, workflow: Some(ownership) }),
                            },
                        }
                    },
                },
            }
        },
    }
}

/// Checks a process against its goal and claim, given the fields the process
/// records about itself.
pub fn preflight_goal_with_metadata(
    goals: &TextMap<GoalSummaryProjection>,
    state: &WorkflowAutomationState,
    goal_id: &str,
    process_id: &str,
    metadata: &Json,
    phase: WorkflowOwnershipPhase,
) -> (r: RefineResult<ProcessGoalFence>)
    ensures
        crate::errors::viewed(r) == fence_outcome(goals@, state.claims@, goal_id@, process_id@, metadata@, phase),
{
    let goal = match preflight_goal_state(goals, goal_id) {
        Ok(goal) => goal,
        Err(e) => {
            return Err(e);
        },
    };
    if metadata.get("claim_id").is_none() && metadata.get("execution_id").is_none() {
        match ensure_goal_has_no_active_workflow_claim_in_state(
            state,
            goal_id,
            process_id,
            WorkflowOwnershipPhase::BeforeTermination,
        ) {
            Ok(_) => {
                return Ok(ProcessGoalFence { goal, workflow: None });
            },
            Err(e) => {
                return Err(e);
            },
        }
    }
    let execution_id = match get_named_text(metadata, "execution_id") {
        Some(execution_id) => execution_id,
        None => {
            return Err(incomplete_ownership_error(process_id, "execution_id"));
        },
    };
    let round_idx: usize = match metadata.get_unsigned("round_idx") {
        Some(n) => {
            if n > usize::MAX as u64 {
                return Err(incomplete_ownership_error(process_id, "round_idx"));
            }
            n as usize
        },
        None => {
            return Err(incomplete_ownership_error(process_id, "round_idx"));
        },
    };
    let found = match get_named_text(metadata, "claim_id") {
        Some(claim_id) => state.claim_by_id(claim_id.as_str()),
        None => state.claim_by_execution(execution_id.as_str()),
    };
    let claim = match found {
        Some(claim) => claim,
        None => {
            let mut m = cat3(
                "managed process ",
                process_id,
                " no longer has a matching workflow claim for execution ",
            );
            m.append(execution_id.as_str());
            m.append("; termination was not requested and Goal ");
            m.append(goal_id);
            m.append(" remains non-cancelled");
            return Err(RefineError::Conflict(m));
        },
    };
    let ownership = WorkflowGoalOwnership {
        process_id: process_id.to_owned(),
        claim_id: claim.claim_id.clone(),
        execution_id: Some(execution_id),
        round_idx: Some(round_idx),
    };
    let validation_phase = if phase == WorkflowOwnershipPhase::BeforeTermination && claim.state
        == WorkflowClaimState::Cancelled && goal.status == GoalStatus::Cancelled {
        WorkflowOwnershipPhase::BeforeCancellation
    } else {
        phase
    };
    match validate_workflow_goal_ownership_in_state(state, goal_id, &ownership, validation_phase) {
        Ok(_) => {},
        Err(e) => {
            return Err(e);
        },
    }
    match validate_expected_goal_round(&goal, goal_id, &ownership, phase) {
        Ok(_) => {},
        Err(e) => {
            return Err(e);
        },
    }
    Ok(ProcessGoalFence { goal, workflow: Some(ownership) })
}

/// Checks a process against its goal and claim.
pub fn preflight_goal_for_process(
    goals: &TextMap<GoalSummaryProjection>,
    state: &WorkflowAutomationState,
    goal_id: &str,
    process: &ManagedProcess,
    phase: WorkflowOwnershipPhase,
) -> (r: RefineResult<ProcessGoalFence>)
    ensures
        crate::errors::viewed(r) == fence_outcome(
            goals@,
            state.claims@,
            goal_id@,
            process.id@,
            metadata_of(process.details),
            phase,
        ),
{
    let metadata = process_metadata(process);
    preflight_goal_with_metadata(goals, state, goal_id, process.id.as_str(), &metadata, phase)
}

/// A fence is only raised around a goal that exists and is not done, and a
/// recorded owner is the goal's uncontested claim, working on its current
/// round.
pub proof fn a_fence_names_the_current_owner(
    goals: Map<Seq<char>, GoalSummaryProjection>,
    claims: Seq<WorkflowClaim>,
    goal_id: Seq<char>,
    process_id: Seq<char>,
    metadata: crate::json::JsonView,
    phase: WorkflowOwnershipPhase,
)
    requires
        fence_outcome(goals, claims, goal_id, process_id, metadata, phase) is Ok,
    ensures
        goals.contains_key(goal_id),
        goals[goal_id].goal.status != GoalStatus::Done,
        ({
            let fence = fence_outcome(
                goals,
                claims,
                goal_id,
                process_id,
                metadata,
                phase,
            )->Ok_0;
            match fence.workflow {
                None => claim_holding(claims, goal_id) is None,
                Some(o) => o.process_id == process_id && !contested(claims, goal_id, o.claim_id)
                    && (claim_with_id(claims, o.claim_id) matches Some(c) && c.goal_id@ == goal_id
                    && crate::text::maybe_view(c.execution_id) == o.execution_id) && (
                o.round_idx matches Some(i) && (goals[goal_id].goal.round_count == i + 1 || i
                    == usize::MAX)),
            }
        }),
{
}

} // verus!

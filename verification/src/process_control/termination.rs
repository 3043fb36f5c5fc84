//! What is checked before processes are stopped and executions cancelled, and
//! what is reported afterwards.
use vstd::prelude::*;

use crate::errors::{RefineError, RefineResult};
use crate::json::{clone_json, Json};
use crate::model::GoalSummaryProjection;
use crate::paths::join_path;
use crate::process_control::ownership::{
    ensure_goal_has_no_active_workflow_claim_in_state, is_agent_process,
    preflight_goal_for_process, preflight_goal_state, process_metadata, stale_workflow_ownership,
    GoalCancellationExpectation, ManagedProcess, ProcessGoalFence, WorkflowAutomationState,
    WorkflowClaim, WorkflowClaimState, WorkflowGoalOwnership, WorkflowOwnershipPhase, WorktreeRead,
};
use crate::process_control::protocol::StopProtocol;
use crate::process_control::receipts::{stop_failure_with_goal_context, TerminationIntent};
use crate::text::{
    cat2, cat3, contains_text, is_text, list_contains, strip_prefix_text, text_eq, trim,
};
use crate::text_map::TextMap;

verus! {

/// How long an agent has to exit, in milliseconds.
pub const DEFAULT_AGENT_EXIT_TIMEOUT_MS: u64 = 2000;

/// The one place where processes are stopped.
///
/// An agent is terminated with its exit confirmed, and only then is its chat
/// closed or its goal settled.
#[derive(Debug)]
pub struct FileProcessControlService {
    pub runtime_root: String,
    pub refine_dir: Option<String>,
    pub agent_exit_timeout_ms: u64,
}

/// Which way a stop request goes.
#[derive(Debug)]
pub enum StopRoute {
    /// Stop an agent, under the registration lock where it works for a claim.
    Agent(bool),
    /// Signal an ordinary process.
    Signal,
    /// Stop the chat session with this id.
    Chat(String),
    /// Look for a retained outcome of an earlier stop.
    Recover,
}

/// How a workflow execution is cancelled together with its operations.
#[derive(Clone, Copy, Debug, PartialEq, Eq, Structural)]
pub enum ManagedCancellation {
    CancelOperations,
    CancelExecution,
    ConfirmOperations,
    Cancelled,
    Failed,
}

/// A claim whose execution is to be cancelled.
#[derive(Debug)]
pub enum CancellableClaim {
    AlreadyCancelled(WorkflowClaim),
    Running(WorkflowClaim),
}

/// How the cancellation of an execution begins.
pub enum CancellationStart {
    /// An interrupted settlement was replayed; this is what it gave.
    Replayed(Json),
    /// Nothing was to be replayed; this claim is to be cancelled.
    Claim(CancellableClaim),
}

/// The beginning of a cancellation by its contents.
pub ghost enum CancellationStartView {
    Replayed(crate::json::JsonView),
    Claim(CancellableClaim),
}

impl View for CancellationStart {
    type V = CancellationStartView;

    open spec fn view(&self) -> CancellationStartView {
        match self {
            CancellationStart::Replayed(result) => CancellationStartView::Replayed(result@),
            CancellationStart::Claim(claim) => CancellationStartView::Claim(*claim),
        }
    }
}

/// The exit of a process that an earlier stop confirmed.
pub struct RecoveredTermination {
    pub ownership: WorkflowGoalOwnership,
    pub termination: Json,
    pub worktree: Option<String>,
}

/// What the cancellation of an execution settles.
pub struct ExecutionPlan {
    pub expectation: Option<GoalCancellationExpectation>,
    pub ownership: Vec<WorkflowGoalOwnership>,
    /// The exits that earlier stops confirmed and that this one counts.
    pub terminations: Vec<Json>,
    /// The worktrees of those exits.
    pub worktrees: Vec<String>,
}

/// A plan by its contents.
pub ghost struct ExecutionPlanView {
    pub expectation: Option<crate::process_control::ownership::ExpectationView>,
    pub ownership: Seq<crate::process_control::ownership::OwnershipView>,
    pub terminations: Seq<crate::json::JsonView>,
    pub worktrees: Seq<Seq<char>>,
}

/// An open or closed chat.
#[derive(Debug)]
pub struct ChatSession {
    pub id: String,
    pub closed: bool,
    pub goal_id: Option<String>,
    pub in_flight: bool,
    pub queue_dispatching: bool,
}

/// The goal, chat and worktree that an agent process is linked to.
#[derive(Debug)]
pub struct AgentStopLinks {
    pub goal_id: Option<String>,
    pub session_id: Option<String>,
    pub worktree: Option<String>,
}

/// What stopping a chat settles.
#[derive(Debug)]
pub struct ChatStopPlan {
    pub goal_id: Option<String>,
    pub expectation: Option<GoalCancellationExpectation>,
    pub ownership: Vec<WorkflowGoalOwnership>,
    pub worktrees: Vec<String>,
}

/// A plan by its contents.
pub ghost struct ChatStopPlanView {
    pub goal_id: Option<Seq<char>>,
    pub expectation: Option<crate::process_control::ownership::ExpectationView>,
    pub ownership: Seq<crate::process_control::ownership::OwnershipView>,
    pub worktrees: Seq<Seq<char>>,
}

/// A goal as it was settled.
pub struct GoalSettlement {
    pub goal: Json,
    pub worktree_retention: Json,
    pub termination_intent: TerminationIntent,
}

/// The views of a list of owners.
pub open spec fn owner_views(o: Seq<WorkflowGoalOwnership>) -> Seq<
    crate::process_control::ownership::OwnershipView,
> {
    o.map_values(|w: WorkflowGoalOwnership| w@)
}

impl View for ExecutionPlan {
    type V = ExecutionPlanView;

    open spec fn view(&self) -> ExecutionPlanView {
        ExecutionPlanView {
            expectation: match self.expectation {
                Some(e) => Some(e@),
                None => None,
            },
            ownership: owner_views(self.ownership@),
            terminations: crate::json::json_views(self.terminations@),
            worktrees: crate::text::views(self.worktrees@),
        }
    }
}

impl View for ChatStopPlan {
    type V = ChatStopPlanView;

    open spec fn view(&self) -> ChatStopPlanView {
        ChatStopPlanView {
            goal_id: crate::text::maybe_view(self.goal_id),
            expectation: match self.expectation {
                Some(e) => Some(e@),
                None => None,
            },
            ownership: owner_views(self.ownership@),
            worktrees: crate::text::views(self.worktrees@),
        }
    }
}

/// A process id that names no path.
pub open spec fn valid_process_id(id: Seq<char>) -> bool {
    !crate::text::blank(id) && !crate::text::contains_part(id, "/"@)
        && !crate::text::contains_part(id, "\\"@)
}

/// Refuses a process id that is blank or holds a path separator.
pub fn validate_process_id(process_id: &str) -> (r: RefineResult<()>)
    ensures
        crate::errors::outcome(r) == (if valid_process_id(process_id@) {
            Ok(())
        } else {
            Err(
                crate::errors::ErrorView::InvalidInput(
                    "process id is required and cannot contain path separators"@,
                ),
            )
        }),
{
    if trim(process_id).is_empty() || contains_text(process_id, "/") || contains_text(
        process_id,
        "\\",
    ) {
        return Err(
            RefineError::InvalidInput(
                "process id is required and cannot contain path separators".to_owned(),
            ),
        );
    }
    Ok(())
}

/// The signals that stop a process.
pub open spec fn stop_signal(signal: Seq<char>) -> bool {
    signal == "stop"@ || signal == "terminate"@ || signal == "kill"@
}

/// Whether a stop request is accepted.
pub open spec fn stop_request_outcome(process_id: Seq<char>, signal: Seq<char>) -> Result<
    (),
    crate::errors::ErrorView,
> {
    if !valid_process_id(process_id) {
        Err(
            crate::errors::ErrorView::InvalidInput(
                "process id is required and cannot contain path separators"@,
            ),
        )
    } else if !stop_signal(signal) {
        Err(
            crate::errors::ErrorView::InvalidInput("unsupported termination signal "@ + signal),
        )
    } else {
        Ok(())
    }
}

/// Accepts or refuses a stop request, before anything is looked up for it.
pub fn check_stop_request(process_id: &str, signal: &str) -> (r: RefineResult<()>)
    ensures
        crate::errors::outcome(r) == stop_request_outcome(process_id@, signal@),
{
    match validate_process_id(process_id) {
        Ok(_) => {},
        Err(e) => {
            return Err(e);
        },
    }
    if !text_eq(signal, "stop") && !text_eq(signal, "terminate") && !text_eq(signal, "kill") {
        return Err(RefineError::InvalidInput(cat2("unsupported termination signal ", signal)));
    }
    Ok(())
}

/// The way of a stop request, given what looking for its process gave, or why
/// it is refused.
pub open spec fn stop_outcome(
    process_id: Seq<char>,
    signal: Seq<char>,
    found: RefineResult<Option<ManagedProcess>>,
) -> Result<StopRouteView, crate::errors::ErrorView> {
    match stop_request_outcome(process_id, signal) {
        Err(e) => Err(e),
        Ok(_) => match found {
            Err(e) => Err(e@),
            Ok(Some(p)) => Ok(
                route_of(
                    process_id,
                    Some(&p),
                    crate::process_control::ownership::metadata_of(p.details),
                ),
            ),
            Ok(None) => Ok(route_of(process_id, None, crate::json::JsonView::Null)),
        },
    }
}

/// The way of an accepted stop request, given the process found for it and
/// the fields that process records about itself.
pub open spec fn route_of(
    process_id: Seq<char>,
    found: Option<&ManagedProcess>,
    metadata: crate::json::JsonView,
) -> StopRouteView {
    match found {
        Some(p) => if crate::process_control::ownership::runs_agent(p.agent_owned, p.api@) {
            StopRouteView::Agent(
                crate::json::field(metadata, "claim_id"@) is Some && crate::json::field(
                    metadata,
                    "execution_id"@,
                ) is Some,
            )
        } else {
            StopRouteView::Signal
        },
        None => if crate::text::begins_with(process_id, "chat-session-"@) {
            StopRouteView::Chat(process_id.skip("chat-session-"@.len() as int))
        } else {
            StopRouteView::Recover
        },
    }
}

/// A route by its contents.
pub ghost enum StopRouteView {
    Agent(bool),
    Signal,
    Chat(Seq<char>),
    Recover,
}

impl View for StopRoute {
    type V = StopRouteView;

    open spec fn view(&self) -> StopRouteView {
        match self {
            StopRoute::Agent(lock) => StopRouteView::Agent(*lock),
            StopRoute::Signal => StopRouteView::Signal,
            StopRoute::Chat(id) => StopRouteView::Chat(id@),
            StopRoute::Recover => StopRouteView::Recover,
        }
    }
}

/// Chooses the way of a stop request, given the fields that the process
/// records about itself.
pub fn stop_route(process_id: &str, found: Option<&ManagedProcess>, metadata: &Json) -> (r:
    StopRoute)
    ensures
        r@ == route_of(process_id@, found, metadata@),
{
    match found {
        Some(process) => if is_agent_process(process) {
            StopRoute::Agent(
                metadata.get("claim_id").is_some() && metadata.get("execution_id").is_some(),
            )
        } else {
            StopRoute::Signal
        },
        None => match strip_prefix_text(process_id, "chat-session-") {
            Some(session_id) => StopRoute::Chat(session_id.to_owned()),
            None => StopRoute::Recover,
        },
    }
}

/// The refusal for a process that is nowhere on record.
pub open spec fn process_not_found(process_id: Seq<char>) -> crate::errors::ErrorView {
    crate::errors::ErrorView::NotFound("Process "@ + process_id + " was not found"@)
}

/// Builds the refusal for a process that is nowhere on record.
pub fn process_not_found_error(process_id: &str) -> (r: RefineError)
    ensures
        r@ == process_not_found(process_id@),
{
    RefineError::NotFound(cat3("Process ", process_id, " was not found"))
}

/// The report of an ordinary process that was signalled, shown as it is now.
pub open spec fn signalled_result(process: crate::json::JsonView) -> crate::json::JsonView {
    crate::json::JsonView::Object(
        Map::<Seq<char>, crate::json::JsonView>::empty().insert(
            "stopped"@,
            crate::json::JsonView::Bool(true),
        ).insert("process"@, process),
    )
}

/// Reports an ordinary process that was signalled, shown as it is now.
pub fn signalled_stop_result(process: Json) -> (r: Json)
    ensures
        r@ == signalled_result(process@),
{
    let mut o = Json::object();
    o.set("stopped", Json::boolean(true));
    o.set("process", process);
    o
}

/// What looking for something to give back gave, by its contents.
pub open spec fn lookup_view(found: RefineResult<Option<Json>>) -> Result<
    Option<crate::json::JsonView>,
    crate::errors::ErrorView,
> {
    match found {
        Ok(Some(value)) => Ok(Some(value@)),
        Ok(None) => Ok(None),
        Err(e) => Err(e@),
    }
}

/// What the stop of a process that is no longer on record returns: the outcome
/// that an earlier stop retained, where there is one.
pub open spec fn recovered_outcome(
    process_id: Seq<char>,
    recovered: Result<Option<crate::json::JsonView>, crate::errors::ErrorView>,
) -> Result<crate::json::JsonView, crate::errors::ErrorView> {
    match recovered {
        Err(e) => Err(e),
        Ok(Some(value)) => Ok(value),
        Ok(None) => Err(process_not_found(process_id)),
    }
}

/// Reports the stop of a process that is no longer on record, given what
/// looking for a retained outcome gave.
pub fn recovered_stop(process_id: &str, recovered: RefineResult<Option<Json>>) -> (r: RefineResult<
    Json,
>)
    ensures
        crate::errors::viewed(r) == recovered_outcome(process_id@, lookup_view(recovered)),
{
    match recovered {
        Err(e) => Err(e),
        Ok(Some(value)) => Ok(value),
        Ok(None) => Err(process_not_found_error(process_id)),
    }
}

/// Where managed processes are registered: at the runtime root and among its
/// agents.
pub fn managed_process_roots(runtime_root: &str) -> (r: (String, String))
    ensures
        r.0@ == runtime_root@,
        r.1@ == crate::paths::joined(runtime_root@, "agents"@),
{
    (runtime_root.to_owned(), join_path(runtime_root, "agents"))
}

/// The step after one of a managed cancellation.
pub open spec fn next_managed(stage: ManagedCancellation, succeeded: bool) -> ManagedCancellation {
    match stage {
        ManagedCancellation::CancelOperations => if succeeded {
            ManagedCancellation::CancelExecution
        } else {
            ManagedCancellation::Failed
        },
        ManagedCancellation::CancelExecution => if succeeded {
            ManagedCancellation::ConfirmOperations
        } else {
            ManagedCancellation::Failed
        },
        ManagedCancellation::ConfirmOperations => if succeeded {
            ManagedCancellation::Cancelled
        } else {
            ManagedCancellation::Failed
        },
        other => other,
    }
}

/// An execution is cancelled only while its operations are cancelled before
/// and after it.
pub proof fn operations_bracket_the_cancellation(stage: ManagedCancellation, succeeded: bool)
    requires
        next_managed(stage, succeeded) != stage,
    ensures
        next_managed(stage, succeeded) == ManagedCancellation::CancelExecution ==> succeeded
            && stage == ManagedCancellation::CancelOperations,
        next_managed(stage, succeeded) == ManagedCancellation::Cancelled ==> succeeded && stage
            == ManagedCancellation::ConfirmOperations,
{
}

/// The stored name of a claim state.
pub open spec fn claim_state_name(state: WorkflowClaimState) -> Seq<char> {
    match state {
        WorkflowClaimState::Claimed => "claimed"@,
        WorkflowClaimState::Running => "running"@,
        WorkflowClaimState::Completed => "completed"@,
        WorkflowClaimState::Failed => "failed"@,
        WorkflowClaimState::Cancelled => "cancelled"@,
        WorkflowClaimState::Interrupted => "interrupted"@,
    }
}

/// The stored name of a claim state.
pub fn workflow_claim_state_label(state: &WorkflowClaimState) -> (r: &'static str)
    ensures
        r@ == claim_state_name(*state),
{
    match state {
        WorkflowClaimState::Claimed => "claimed",
        WorkflowClaimState::Running => "running",
        WorkflowClaimState::Completed => "completed",
        WorkflowClaimState::Failed => "failed",
        WorkflowClaimState::Cancelled => "cancelled",
        WorkflowClaimState::Interrupted => "interrupted",
    }
}

/// The refusal for a cancellation that names no execution.
pub open spec fn execution_id_required() -> crate::errors::ErrorView {
    crate::errors::ErrorView::InvalidInput("workflow execution id is required"@)
}

/// The claim to cancel for an execution, or why there is none.
pub open spec fn cancellable_outcome(claims: Seq<WorkflowClaim>, raw_id: Seq<char>) -> Result<
    CancellableClaim,
    crate::errors::ErrorView,
> {
    let id = crate::text::trimmed(raw_id);
    if id.len() == 0 {
        Err(execution_id_required())
    } else {
        match crate::process_control::ownership::claim_with_execution(claims, id) {
            None => Err(
                crate::errors::ErrorView::NotFound(
                    "claim for execution "@ + id + " was not found"@,
                ),
            ),
            Some(claim) => if claim.state == WorkflowClaimState::Cancelled {
                Ok(CancellableClaim::AlreadyCancelled(claim))
            } else if claim.state != WorkflowClaimState::Running {
                Err(
                    crate::errors::ErrorView::Conflict(
                        "workflow execution "@ + id + " is "@ + claim_state_name(claim.state)
                            + "; only a running execution can be cancelled"@,
                    ),
                )
            } else {
                Ok(CancellableClaim::Running(claim))
            },
        }
    }
}

/// The id of an execution that is to be cancelled.
pub fn execution_to_cancel(execution_id: &str) -> (r: RefineResult<&str>)
    ensures
        match r {
            Ok(id) => id@ == crate::text::trimmed(execution_id@) && id@.len() > 0,
            Err(e) => crate::text::blank(execution_id@) && e@ == execution_id_required(),
        },
{
    let id = trim(execution_id);
    if id.is_empty() {
        return Err(RefineError::InvalidInput("workflow execution id is required".to_owned()));
    }
    Ok(id)
}

/// Finds the claim to cancel for an execution.
pub fn cancellable_claim(execution_id: &str, state: &WorkflowAutomationState) -> (r: RefineResult<
    CancellableClaim,
>)
    ensures
        crate::errors::outcome(r) == cancellable_outcome(state.claims@, execution_id@),
{
    let execution_id = match execution_to_cancel(execution_id) {
        Ok(id) => id,
        Err(e) => {
            return Err(e);
        },
    };
    let claim = match state.claim_by_execution(execution_id) {
        Some(claim) => claim,
        None => {
            return Err(
                RefineError::NotFound(
                    cat3("claim for execution ", execution_id, " was not found"),
                ),
            );
        },
    };
    if claim.state == WorkflowClaimState::Cancelled {
        return Ok(CancellableClaim::AlreadyCancelled(claim.clone()));
    }
    if claim.state != WorkflowClaimState::Running {
        let mut m = cat3("workflow execution ", execution_id, " is ");
        m.append(workflow_claim_state_label(&claim.state));
        m.append("; only a running execution can be cancelled");
        return Err(RefineError::Conflict(m));
    }
    Ok(CancellableClaim::Running(claim.clone()))
}

/// The claims of a state that may not have been readable.
pub open spec fn claims_view(state: RefineResult<WorkflowAutomationState>) -> Result<
    Seq<WorkflowClaim>,
    crate::errors::ErrorView,
> {
    match state {
        Ok(state) => Ok(state.claims@),
        Err(e) => Err(e@),
    }
}

/// How the cancellation of an execution begins, or why it is refused. A bound
/// service replays an interrupted settlement before it looks at any claim.
pub open spec fn cancellation_start(
    bound: bool,
    raw_id: Seq<char>,
    registration: Result<(), crate::errors::ErrorView>,
    replayed: Result<Option<crate::json::JsonView>, crate::errors::ErrorView>,
    claims: Result<Seq<WorkflowClaim>, crate::errors::ErrorView>,
) -> Result<CancellationStartView, crate::errors::ErrorView> {
    if crate::text::blank(raw_id) {
        Err(execution_id_required())
    } else if registration is Err {
        Err(registration->Err_0)
    } else if bound && replayed is Err {
        Err(replayed->Err_0)
    } else if bound && replayed->Ok_0 is Some {
        Ok(CancellationStartView::Replayed(replayed->Ok_0->0))
    } else {
        match claims {
            Err(e) => Err(e),
            Ok(claims) => match cancellable_outcome(claims, raw_id) {
                Ok(claim) => Ok(CancellationStartView::Claim(claim)),
                Err(e) => Err(e),
            },
        }
    }
}

/// Where an interrupted settlement was replayed, a retried cancellation gives
/// what the replay gave, whatever became of the claim: no terminal state takes
/// a shortcut past it.
pub proof fn replays_come_before_any_claim(
    raw_id: Seq<char>,
    result: crate::json::JsonView,
    claims: Result<Seq<WorkflowClaim>, crate::errors::ErrorView>,
)
    requires
        !crate::text::blank(raw_id),
    ensures
        cancellation_start(true, raw_id, Ok(()), Ok(Some(result)), claims) == Ok::<
            _,
            crate::errors::ErrorView,
        >(CancellationStartView::Replayed(result)),
{
}

/// A claim is looked at only where the lock was had and, for a bound service,
/// where the replay went well and found nothing.
pub proof fn claims_wait_for_the_replay(
    bound: bool,
    raw_id: Seq<char>,
    registration: Result<(), crate::errors::ErrorView>,
    replayed: Result<Option<crate::json::JsonView>, crate::errors::ErrorView>,
    claims: Result<Seq<WorkflowClaim>, crate::errors::ErrorView>,
)
    requires
        cancellation_start(bound, raw_id, registration, replayed, claims) matches Ok(
            CancellationStartView::Claim(_),
        ),
    ensures
        registration is Ok,
        bound ==> replayed == Ok::<Option<crate::json::JsonView>, crate::errors::ErrorView>(None),
        claims is Ok && cancellable_outcome(claims->Ok_0, raw_id) is Ok,
{
}

impl FileProcessControlService {
    /// Controls the processes of a runtime root that is bound to no target.
    pub fn new(runtime_root: &str) -> (r: Self)
        ensures
            r.runtime_root@ == runtime_root@,
            r.refine_dir is None,
            r.agent_exit_timeout_ms == DEFAULT_AGENT_EXIT_TIMEOUT_MS,
    {
        FileProcessControlService {
            runtime_root: runtime_root.to_owned(),
            refine_dir: None,
            agent_exit_timeout_ms: DEFAULT_AGENT_EXIT_TIMEOUT_MS,
        }
    }

    /// Controls the processes of a runtime root and settles the goals of a
    /// target's state directory.
    pub fn with_refine_dir(runtime_root: &str, refine_dir: &str) -> (r: Self)
        ensures
            r.runtime_root@ == runtime_root@,
            crate::text::maybe_view(r.refine_dir) == Some(refine_dir@),
            r.agent_exit_timeout_ms == DEFAULT_AGENT_EXIT_TIMEOUT_MS,
    {
        FileProcessControlService {
            runtime_root: runtime_root.to_owned(),
            refine_dir: Some(refine_dir.to_owned()),
            agent_exit_timeout_ms: DEFAULT_AGENT_EXIT_TIMEOUT_MS,
        }
    }

    /// Accepts or refuses a stop request and chooses its way, given what
    /// looking for its process gave.
    pub fn stop(
        &self,
        process_id: &str,
        signal: &str,
        found: &RefineResult<Option<ManagedProcess>>,
    ) -> (r: RefineResult<StopRoute>)
        ensures
            crate::errors::viewed(r) == stop_outcome(process_id@, signal@, *found),
    {
        match check_stop_request(process_id, signal) {
            Ok(_) => {},
            Err(e) => {
                return Err(e);
            },
        }
        match found {
            Err(e) => Err(e.clone()),
            Ok(Some(process)) => {
                let metadata = process_metadata(process);
                Ok(stop_route(process_id, Some(process), &metadata))
            },
            Ok(None) => Ok(stop_route(process_id, None, &Json::null())),
        }
    }

    /// Begins the cancellation of an execution. `registration` says whether the
    /// lock on registering processes was had, `replayed` what replaying an
    /// interrupted settlement of the execution gave, and `state` is the state
    /// as it was read after that. A service that is bound to no target has
    /// nothing to replay.
    pub fn cancel_workflow_execution(
        &self,
        execution_id: &str,
        registration: &RefineResult<()>,
        replayed: RefineResult<Option<Json>>,
        state: &RefineResult<WorkflowAutomationState>,
    ) -> (r: RefineResult<CancellationStart>)
        ensures
            crate::errors::viewed(r) == cancellation_start(
                self.refine_dir is Some,
                execution_id@,
                crate::errors::outcome(*registration),
                lookup_view(replayed),
                claims_view(*state),
            ),
    {
        match execution_to_cancel(execution_id) {
            Ok(_) => {},
            Err(e) => {
                return Err(e);
            },
        }
        if let Err(e) = registration {
            return Err(e.clone());
        }
        if self.refine_dir.is_some() {
            match replayed {
                Err(e) => {
                    return Err(e);
                },
                Ok(Some(result)) => {
                    return Ok(CancellationStart::Replayed(result));
                },
                Ok(None) => {},
            }
        }
        match state {
            Err(e) => Err(e.clone()),
            Ok(state) => match cancellable_claim(execution_id, state) {
                Ok(claim) => Ok(CancellationStart::Claim(claim)),
                Err(e) => Err(e),
            },
        }
    }

    /// The step after one of a cancellation that is bracketed by the
    /// cancellation of the execution's operations, so that none registered in
    /// between reports success afterwards.
    pub fn cancel_workflow_execution_managed(
        &self,
        stage: ManagedCancellation,
        succeeded: bool,
    ) -> (r: ManagedCancellation)
        ensures
            r == next_managed(stage, succeeded),
    {
        match stage {
            ManagedCancellation::CancelOperations => if succeeded {
                ManagedCancellation::CancelExecution
            } else {
                ManagedCancellation::Failed
            },
            ManagedCancellation::CancelExecution => if succeeded {
                ManagedCancellation::ConfirmOperations
            } else {
                ManagedCancellation::Failed
            },
            ManagedCancellation::ConfirmOperations => if succeeded {
                ManagedCancellation::Cancelled
            } else {
                ManagedCancellation::Failed
            },
            other => other,
        }
    }
}

/// The refusal for a running execution without any process on record.
pub open spec fn missing_evidence(execution: Seq<char>, claim: WorkflowClaim) -> crate::errors::ErrorView {
    crate::errors::ErrorView::Conflict(
        "running target-bound workflow execution "@ + execution
            + " has no managed-process record; an empty lookup is not confirmed process exit, so claim "@
            + claim.claim_id@ + " and Goal "@ + claim.goal_id@
            + " remain active and capacity remains reserved; retry after registration completes or recover the missing process evidence"@,
    )
}

/// The ownership of one process of an execution, or why it is not the
/// execution's.
pub open spec fn execution_owner(
    goals: Map<Seq<char>, GoalSummaryProjection>,
    claims: Seq<WorkflowClaim>,
    claim: WorkflowClaim,
    execution: Seq<char>,
    process: ManagedProcess,
) -> Result<crate::process_control::ownership::OwnershipView, crate::errors::ErrorView> {
    match crate::process_control::ownership::fence_outcome(
        goals,
        claims,
        claim.goal_id@,
        process.id@,
        crate::process_control::ownership::metadata_of(process.details),
        WorkflowOwnershipPhase::BeforeTermination,
    ) {
        Err(e) => Err(e),
        Ok(fence) => match fence.workflow {
            None => Err(
                crate::errors::ErrorView::Conflict(
                    "managed process "@ + process.id@
                        + " has no exact workflow ownership; termination was not requested"@,
                ),
            ),
            Some(o) => if o.claim_id != claim.claim_id@ || o.execution_id != Some(execution) {
                Err(
                    crate::process_control::ownership::stale_ownership(
                        claim.goal_id@,
                        o,
                        "the process does not belong to the requested workflow execution"@,
                        WorkflowOwnershipPhase::BeforeTermination,
                    ),
                )
            } else {
                Ok(o)
            },
        },
    }
}

/// The ownership of every process of an execution, or the first refusal.
pub open spec fn execution_owners(
    goals: Map<Seq<char>, GoalSummaryProjection>,
    claims: Seq<WorkflowClaim>,
    claim: WorkflowClaim,
    execution: Seq<char>,
    managed: Seq<ManagedProcess>,
) -> Result<Seq<crate::process_control::ownership::OwnershipView>, crate::errors::ErrorView>
    decreases managed.len(),
{
    if managed.len() == 0 {
        Ok(Seq::empty())
    } else {
        match execution_owners(goals, claims, claim, execution, managed.drop_last()) {
            Err(e) => Err(e),
            Ok(owners) => match execution_owner(goals, claims, claim, execution, managed.last()) {
                Err(e) => Err(e),
                Ok(o) => Ok(owners.push(o)),
            },
        }
    }
}

/// A refusal among the first processes stands for all of them.
proof fn first_refusal_stands(
    goals: Map<Seq<char>, GoalSummaryProjection>,
    claims: Seq<WorkflowClaim>,
    claim: WorkflowClaim,
    execution: Seq<char>,
    managed: Seq<ManagedProcess>,
    n: int,
)
    requires
        0 <= n <= managed.len(),
        execution_owners(goals, claims, claim, execution, managed.take(n)) is Err,
    ensures
        execution_owners(goals, claims, claim, execution, managed) == execution_owners(
            goals,
            claims,
            claim,
            execution,
            managed.take(n),
        ),
    decreases managed.len() - n,
{
    if n == managed.len() {
        assert(managed.take(n) =~= managed);
    } else {
        assert(managed.take(n + 1).drop_last() =~= managed.take(n));
        first_refusal_stands(goals, claims, claim, execution, managed, n + 1);
    }
}

/// The owner of an execution that is bound to no target.
pub open spec fn unbound_owner(claim: WorkflowClaim, execution: Seq<char>) -> crate::process_control::ownership::OwnershipView {
    crate::process_control::ownership::OwnershipView {
        process_id: "workflow execution "@ + execution,
        claim_id: claim.claim_id@,
        execution_id: Some(execution),
        round_idx: None,
    }
}

/// The views of recovered owners.
pub open spec fn recovered_owners(r: Seq<RecoveredTermination>) -> Seq<
    crate::process_control::ownership::OwnershipView,
> {
    r.map_values(|t: RecoveredTermination| t.ownership@)
}

/// The outcomes of recovered exits.
pub open spec fn recovered_outcomes(r: Seq<RecoveredTermination>) -> Seq<crate::json::JsonView> {
    r.map_values(|t: RecoveredTermination| t.termination@)
}

/// The worktrees of recovered exits, where they are on record.
pub open spec fn recovered_worktrees(r: Seq<RecoveredTermination>) -> Seq<Seq<char>>
    decreases r.len(),
{
    if r.len() == 0 {
        Seq::empty()
    } else {
        match r.last().worktree {
            Some(w) => recovered_worktrees(r.drop_last()).push(w@),
            None => recovered_worktrees(r.drop_last()),
        }
    }
}

/// The recovered exits that a cancellation counts: they stand in for processes
/// that are gone, so only a target-bound execution without a managed process
/// has any.
pub open spec fn counted_exits(
    bound: bool,
    managed: Seq<ManagedProcess>,
    recovered: Seq<RecoveredTermination>,
) -> Seq<RecoveredTermination> {
    if bound && managed.len() == 0 { recovered } else { Seq::empty() }
}

/// What the cancellation of a running execution settles, or why it is refused.
pub open spec fn execution_plan_outcome(
    goals: Option<Map<Seq<char>, GoalSummaryProjection>>,
    claims: Seq<WorkflowClaim>,
    claim: WorkflowClaim,
    execution: Seq<char>,
    managed: Seq<ManagedProcess>,
    recovered: Seq<RecoveredTermination>,
) -> Result<ExecutionPlanView, crate::errors::ErrorView> {
    match goals {
        Some(goals) => if managed.len() == 0 && recovered.len() == 0 {
            Err(missing_evidence(execution, claim))
        } else {
            match crate::process_control::ownership::goal_state_outcome(goals, claim.goal_id@) {
                Err(e) => Err(e),
                Ok(expectation) => match execution_owners(
                    goals,
                    claims,
                    claim,
                    execution,
                    managed,
                ) {
                    Err(e) => Err(e),
                    Ok(owners) => Ok(
                        ExecutionPlanView {
                            expectation: Some(expectation),
                            ownership: recovered_owners(
                                counted_exits(true, managed, recovered),
                            ) + owners,
                            terminations: recovered_outcomes(
                                counted_exits(true, managed, recovered),
                            ),
                            worktrees: recovered_worktrees(
                                counted_exits(true, managed, recovered),
                            ),
                        },
                    ),
                },
            }
        },
        None => Ok(
            ExecutionPlanView {
                expectation: None,
                ownership: seq![unbound_owner(claim, execution)],
                terminations: Seq::empty(),
                worktrees: Seq::empty(),
            },
        ),
    }
}

/// The view of an optional map of goals.
pub open spec fn goals_view(goals: Option<&TextMap<GoalSummaryProjection>>) -> Option<
    Map<Seq<char>, GoalSummaryProjection>,
> {
    match goals {
        Some(g) => Some(g@),
        None => None,
    }
}

fn plan_owner(
    goals: &TextMap<GoalSummaryProjection>,
    state: &WorkflowAutomationState,
    claim: &WorkflowClaim,
    execution_id: &str,
    process: &ManagedProcess,
) -> (r: RefineResult<WorkflowGoalOwnership>)
    ensures
        crate::errors::viewed(r) == execution_owner(
            goals@,
            state.claims@,
            *claim,
            execution_id@,
            *process,
        ),
{
    match preflight_goal_for_process(
        goals,
        state,
        claim.goal_id.as_str(),
        process,
        WorkflowOwnershipPhase::BeforeTermination,
    ) {
        Err(e) => Err(e),
        Ok(fence) => match fence.workflow {
            None => Err(
                RefineError::Conflict(
                    cat3(
                        "managed process ",
                        process.id.as_str(),
                        " has no exact workflow ownership; termination was not requested",
                    ),
                ),
            ),
            Some(o) => {
                if !text_eq(o.claim_id.as_str(), claim.claim_id.as_str()) || !is_text(
                    &o.execution_id,
                    execution_id,
                ) {
                    return Err(
                        stale_workflow_ownership(
                            claim.goal_id.as_str(),
                            &o,
                            "the process does not belong to the requested workflow execution",
                            WorkflowOwnershipPhase::BeforeTermination,
                        ),
                    );
                }
                Ok(o)
            },
        },
    }
}

/// Checks every process of a running execution before any of them is
/// terminated. `goals` is there where the service is bound to a target.
/// `recovered` holds the exits that earlier stops confirmed; they count only
/// for a target-bound execution without a managed process.
#[verifier::loop_isolation(false)]
pub fn plan_execution_cancellation(
    goals: Option<&TextMap<GoalSummaryProjection>>,
    state: &WorkflowAutomationState,
    claim: &WorkflowClaim,
    execution_id: &str,
    managed: &Vec<ManagedProcess>,
    recovered: &Vec<RecoveredTermination>,
) -> (r: RefineResult<ExecutionPlan>)
    ensures
        crate::errors::viewed(r) == execution_plan_outcome(
            goals_view(goals),
            state.claims@,
            *claim,
            execution_id@,
            managed@,
            recovered@,
        ),
{
    let mut ownership: Vec<WorkflowGoalOwnership> = Vec::new();
    let mut terminations: Vec<Json> = Vec::new();
    let mut worktrees: Vec<String> = Vec::new();
    let bound = goals.is_some();
    let ghost counted = counted_exits(bound, managed@, recovered@);
    let n: usize = if bound && managed.len() == 0 { recovered.len() } else { 0 };
    let mut i: usize = 0;
    assert(counted.take(0) =~= Seq::<RecoveredTermination>::empty());
    assert(crate::text::views(worktrees@) =~= Seq::<Seq<char>>::empty());
    while i < n
        invariant
            i <= n == counted.len(),
            n > 0 ==> counted == recovered@,
            ownership@.len() == i,
            terminations@.len() == i,
            forall|j: int| 0 <= j < i ==> (#[trigger] ownership@[j])@ == counted[j].ownership@,
            forall|j: int|
                0 <= j < i ==> (#[trigger] terminations@[j])@ == counted[j].termination@,
            crate::text::views(worktrees@) == recovered_worktrees(counted.take(i as int)),
        decreases n - i,
    {
        assert(counted.take(i as int + 1).drop_last() =~= counted.take(i as int));
        ownership.push(recovered[i].ownership.clone());
        terminations.push(clone_json(&recovered[i].termination));
        if let Some(worktree) = &recovered[i].worktree {
            let ghost before = worktrees@;
            worktrees.push(worktree.clone());
            assert(crate::text::views(worktrees@) =~= crate::text::views(before).push(worktree@));
        }
        i = i + 1;
    }
    assert(counted.take(n as int) =~= counted);
    assert(owner_views(ownership@) =~= recovered_owners(counted));
    assert(crate::json::json_views(terminations@) =~= recovered_outcomes(counted));
    match goals {
        None => {
            let o = WorkflowGoalOwnership {
                process_id: cat2("workflow execution ", execution_id),
                claim_id: claim.claim_id.clone(),
                execution_id: Some(execution_id.to_owned()),
                round_idx: None,
            };
            ownership.push(o);
            assert(owner_views(ownership@) =~= seq![unbound_owner(*claim, execution_id@)]);
            assert(crate::json::json_views(terminations@) =~= Seq::<
                crate::json::JsonView,
            >::empty());
            Ok(ExecutionPlan { expectation: None, ownership, terminations, worktrees })
        },
        Some(goals) => {
            if managed.len() == 0 && recovered.len() == 0 {
                let mut m = cat3(
                    "running target-bound workflow execution ",
                    execution_id,
                    " has no managed-process record; an empty lookup is not confirmed process exit, so claim ",
                );
                m.append(claim.claim_id.as_str());
                m.append(" and Goal ");
                m.append(claim.goal_id.as_str());
                m.append(
                    " remain active and capacity remains reserved; retry after registration completes or recover the missing process evidence",
                );
                return Err(RefineError::Conflict(m));
            }
            let expectation = match preflight_goal_state(goals, claim.goal_id.as_str()) {
                Ok(expectation) => expectation,
                Err(e) => {
                    return Err(e);
                },
            };
            let ghost first = owner_views(ownership@);
            let mut k: usize = 0;
            assert(managed@.take(0) =~= Seq::<ManagedProcess>::empty());
            assert(owner_views(ownership@) =~= first + Seq::<
                crate::process_control::ownership::OwnershipView,
            >::empty());
            while k < managed.len()
                invariant
                    k <= managed.len(),
                    ({
                        let owners = execution_owners(
                            goals@,
                            state.claims@,
                            *claim,
                            execution_id@,
                            managed@.take(k as int),
                        );
                        owners is Ok && owner_views(ownership@) == first + owners->Ok_0
                    }),
                decreases managed.len() - k,
            {
                proof {
                    assert(managed@.take(k as int + 1).drop_last() =~= managed@.take(k as int));
                    assert(managed@.take(k as int + 1).last() == managed@[k as int]);
                }
                match plan_owner(goals, state, claim, execution_id, &managed[k]) {
                    Ok(o) => {
                        let ghost before = ownership@;
                        ownership.push(o);
                        assert(owner_views(ownership@) =~= owner_views(before).push(o@));
                    },
                    Err(e) => {
                        proof {
                            first_refusal_stands(
                                goals@,
                                state.claims@,
                                *claim,
                                execution_id@,
                                managed@,
                                k as int + 1,
                            );
                        }
                        return Err(e);
                    },
                }
                k = k + 1;
            }
            assert(managed@.take(managed.len() as int) =~= managed@);
            Ok(
                ExecutionPlan {
                    expectation: Some(expectation),
                    ownership,
                    terminations,
                    worktrees,
                },
            )
        },
    }
}

/// A cancellation is planned only with evidence of a process, and every
/// process of the plan works for the cancelled claim and execution.
pub proof fn plans_hold_only_the_cancelled_execution(
    goals: Map<Seq<char>, GoalSummaryProjection>,
    claims: Seq<WorkflowClaim>,
    claim: WorkflowClaim,
    execution: Seq<char>,
    managed: Seq<ManagedProcess>,
    recovered: Seq<RecoveredTermination>,
)
    requires
        execution_plan_outcome(Some(goals), claims, claim, execution, managed, recovered) is Ok,
    ensures
        managed.len() + recovered.len() > 0,
        ({
            let plan = execution_plan_outcome(
                Some(goals),
                claims,
                claim,
                execution,
                managed,
                recovered,
            )->Ok_0;
            let counted = counted_exits(true, managed, recovered);
            &&& plan.ownership.len() == managed.len() + counted.len()
            &&& plan.terminations.len() == counted.len()
            &&& forall|i: int|
                counted.len() <= i < plan.ownership.len() ==> (
                #[trigger] plan.ownership[i]).claim_id == claim.claim_id@
                    && plan.ownership[i].execution_id == Some(execution)
        }),
{
    owners_belong(goals, claims, claim, execution, managed);
}

proof fn owners_belong(
    goals: Map<Seq<char>, GoalSummaryProjection>,
    claims: Seq<WorkflowClaim>,
    claim: WorkflowClaim,
    execution: Seq<char>,
    managed: Seq<ManagedProcess>,
)
    ensures
        execution_owners(goals, claims, claim, execution, managed) matches Ok(owners)
            ==> owners.len() == managed.len() && forall|i: int|
            0 <= i < owners.len() ==> (#[trigger] owners[i]).claim_id == claim.claim_id@
                && owners[i].execution_id == Some(execution),
    decreases managed.len(),
{
    if managed.len() > 0 {
        owners_belong(goals, claims, claim, execution, managed.drop_last());
    }
}

/// The effects of cancelling an execution.
pub open spec fn execution_protocol(plan: ExecutionPlanView, managed: nat) -> StopProtocol {
    StopProtocol {
        processes: managed as usize,
        chat_first: false,
        operations: false,
        chat: false,
        goal: plan.expectation is Some,
        claim: plan.expectation is None,
        receipts: (managed + plan.terminations.len()) as usize,
        retained: (managed + plan.terminations.len()) as usize,
    }
}

/// Lays out the effects of cancelling an execution with so many managed
/// processes.
pub fn execution_stop_protocol(plan: &ExecutionPlan, managed: usize) -> (r: StopProtocol)
    requires
        managed + plan.terminations@.len() <= usize::MAX,
    ensures
        r == execution_protocol(plan@, managed as nat),
{
    let bound = plan.expectation.is_some();
    let outcomes: usize = managed + plan.terminations.len();
    StopProtocol {
        processes: managed,
        chat_first: false,
        operations: false,
        chat: false,
        goal: bound,
        claim: !bound,
        receipts: outcomes,
        retained: outcomes,
    }
}

/// The worktree of a process, or why its record cannot be read.
pub open spec fn worktree_outcome(read: WorktreeRead) -> Result<
    Option<Seq<char>>,
    crate::errors::ErrorView,
> {
    match read {
        WorktreeRead::Absent => Ok(None),
        WorktreeRead::At(path) => Ok(Some(path@)),
        WorktreeRead::Failed(e) => Err(e@),
    }
}

/// A list with one more text, unless it is there already.
pub open spec fn with_distinct(list: Seq<Seq<char>>, item: Option<Seq<char>>) -> Seq<Seq<char>> {
    match item {
        Some(t) => if list.contains(t) { list } else { list.push(t) },
        None => list,
    }
}

/// The worktrees that a cancellation keeps: the recovered ones in order, then
/// each new one of the managed processes. The first record that cannot be read
/// stops the cancellation.
pub open spec fn kept_worktrees(recovered: Seq<Seq<char>>, managed: Seq<ManagedProcess>) -> Result<
    Seq<Seq<char>>,
    crate::errors::ErrorView,
>
    decreases managed.len(),
{
    if managed.len() == 0 {
        Ok(recovered)
    } else {
        match kept_worktrees(recovered, managed.drop_last()) {
            Err(e) => Err(e),
            Ok(kept) => match worktree_outcome(managed.last().worktree) {
                Err(e) => Err(e),
                Ok(worktree) => Ok(with_distinct(kept, worktree)),
            },
        }
    }
}

/// The worktree of a process that is about to be terminated. Where its record
/// cannot be read the process must not be terminated.
pub fn process_worktree(process: &ManagedProcess) -> (r: RefineResult<Option<String>>)
    ensures
        match r {
            Ok(worktree) => worktree_outcome(process.worktree) == Ok::<
                _,
                crate::errors::ErrorView,
            >(crate::text::maybe_view(worktree)),
            Err(e) => worktree_outcome(process.worktree) == Err::<Option<Seq<char>>, _>(e@),
        },
{
    match &process.worktree {
        WorktreeRead::Absent => Ok(None),
        WorktreeRead::At(path) => Ok(Some(path.clone())),
        WorktreeRead::Failed(e) => Err(e.clone()),
    }
}

fn keep_worktree(kept: &mut Vec<String>, process: &ManagedProcess) -> (r: RefineResult<()>)
    ensures
        match worktree_outcome(process.worktree) {
            Ok(worktree) => r is Ok && crate::text::views(final(kept)@) == with_distinct(
                crate::text::views(old(kept)@),
                worktree,
            ),
            Err(e) => r matches Err(error) && error@ == e,
        },
{
    match process_worktree(process) {
        Ok(Some(path)) => {
            if !list_contains(kept, path.as_str()) {
                let ghost before = kept@;
                let ghost view = path@;
                kept.push(path);
                assert(crate::text::views(kept@) =~= crate::text::views(before).push(view));
            }
            Ok(())
        },
        Ok(None) => Ok(()),
        Err(e) => Err(e),
    }
}

proof fn first_unreadable_worktree_stands(
    recovered: Seq<Seq<char>>,
    managed: Seq<ManagedProcess>,
    n: int,
)
    requires
        0 <= n <= managed.len(),
        kept_worktrees(recovered, managed.take(n)) is Err,
    ensures
        kept_worktrees(recovered, managed) == kept_worktrees(recovered, managed.take(n)),
    decreases managed.len() - n,
{
    if n == managed.len() {
        assert(managed.take(n) =~= managed);
    } else {
        assert(managed.take(n + 1).drop_last() =~= managed.take(n));
        first_unreadable_worktree_stands(recovered, managed, n + 1);
    }
}

/// Collects the worktrees that a cancellation keeps, or the reason why one of
/// them cannot be read.
#[verifier::loop_isolation(false)]
pub fn retained_worktrees(recovered: Vec<String>, managed: &Vec<ManagedProcess>) -> (r:
    RefineResult<Vec<String>>)
    ensures
        match r {
            Ok(kept) => kept_worktrees(crate::text::views(recovered@), managed@) == Ok::<
                _,
                crate::errors::ErrorView,
            >(crate::text::views(kept@)),
            Err(e) => kept_worktrees(crate::text::views(recovered@), managed@) == Err::<
                Seq<Seq<char>>,
                _,
            >(e@),
        },
{
    let ghost start = crate::text::views(recovered@);
    let mut out = recovered;
    let mut i: usize = 0;
    assert(managed@.take(0) =~= Seq::<ManagedProcess>::empty());
    while i < managed.len()
        invariant
            i <= managed.len(),
            kept_worktrees(start, managed@.take(i as int)) == Ok::<_, crate::errors::ErrorView>(
                crate::text::views(out@),
            ),
        decreases managed.len() - i,
    {
        assert(managed@.take(i as int + 1).drop_last() =~= managed@.take(i as int));
        if let Err(e) = keep_worktree(&mut out, &managed[i]) {
            proof {
                first_unreadable_worktree_stands(start, managed@, i as int + 1);
            }
            return Err(e);
        }
        i = i + 1;
    }
    assert(managed@.take(managed.len() as int) =~= managed@);
    Ok(out)
}

/// The worktrees of an execution can be collected exactly where every record
/// can be read.
pub proof fn an_unreadable_worktree_stops_a_cancellation(
    recovered: Seq<Seq<char>>,
    managed: Seq<ManagedProcess>,
)
    ensures
        kept_worktrees(recovered, managed) is Err <==> exists|i: int|
            0 <= i < managed.len() && (#[trigger] managed[i]).worktree is Failed,
    decreases managed.len(),
{
    if managed.len() > 0 {
        let short = managed.drop_last();
        an_unreadable_worktree_stops_a_cancellation(recovered, short);
        if exists|i: int| 0 <= i < short.len() && (#[trigger] short[i]).worktree is Failed {
            let i = choose|i: int|
                0 <= i < short.len() && (#[trigger] short[i]).worktree is Failed;
            assert(managed[i].worktree is Failed);
        }
        if exists|i: int| 0 <= i < managed.len() && (#[trigger] managed[i]).worktree is Failed {
            let i = choose|i: int|
                0 <= i < managed.len() && (#[trigger] managed[i]).worktree is Failed;
            if i < short.len() {
                assert(short[i].worktree is Failed);
            }
        }
        assert(managed[managed.len() - 1] == managed.last());
    }
}

/// The outcome of a cancelled execution.
pub open spec fn execution_result(
    execution: Seq<char>,
    claim: WorkflowClaim,
    terminations: Seq<crate::json::JsonView>,
    settlement: Option<GoalSettlement>,
) -> crate::json::JsonView {
    crate::json::JsonView::Object(
        Map::<Seq<char>, crate::json::JsonView>::empty().insert(
            "execution_id"@,
            crate::json::JsonView::Text(execution),
        ).insert("claim_id"@, crate::json::JsonView::Text(claim.claim_id@)).insert(
            "goal_id"@,
            crate::json::JsonView::Text(claim.goal_id@),
        ).insert("processes"@, crate::json::JsonView::Array(terminations)).insert(
            "goal"@,
            match settlement {
                Some(s) => s.goal@,
                None => crate::json::JsonView::Null,
            },
        ).insert(
            "worktree_retention"@,
            match settlement {
                Some(s) => s.worktree_retention@,
                None => crate::json::JsonView::Null,
            },
        ),
    )
}

/// Reports a cancelled execution.
pub fn execution_cancellation_result(
    execution_id: &str,
    claim: &WorkflowClaim,
    terminations: Vec<Json>,
    settlement: &Option<GoalSettlement>,
) -> (r: Json)
    ensures
        r@ == execution_result(
            execution_id@,
            *claim,
            crate::json::json_views(terminations@),
            *settlement,
        ),
{
    let mut o = Json::object();
    o.set("execution_id", Json::text(execution_id));
    o.set("claim_id", Json::text(claim.claim_id.as_str()));
    o.set("goal_id", Json::text(claim.goal_id.as_str()));
    o.set("processes", Json::array(terminations));
    let (goal, retention) = match settlement {
        Some(s) => (s.goal.clone(), s.worktree_retention.clone()),
        None => (Json::null(), Json::null()),
    };
    o.set("goal", goal);
    o.set("worktree_retention", retention);
    o
}

/// The goal, chat and worktree that an agent is linked to; a worktree record
/// that cannot be read matters only where there is a goal.
pub fn agent_stop_links(process: &ManagedProcess) -> (r: RefineResult<AgentStopLinks>)
    ensures
        match r {
            Ok(links) => {
                &&& crate::text::maybe_view(links.goal_id) == crate::json::text_field(
                    process.api@,
                    "goal_id"@,
                )
                &&& crate::text::maybe_view(links.session_id) == (if crate::json::text_field(
                    process.api@,
                    "kind"@,
                ) == Some("chat"@) {
                    crate::json::text_field(process.api@, "session_id"@)
                } else {
                    None
                })
                &&& links.goal_id is Some ==> worktree_outcome(process.worktree) == Ok::<
                    _,
                    crate::errors::ErrorView,
                >(crate::text::maybe_view(links.worktree))
                &&& links.goal_id is None ==> links.worktree is None
            },
            Err(e) => crate::json::text_field(process.api@, "goal_id"@) is Some
                && worktree_outcome(process.worktree) == Err::<Option<Seq<char>>, _>(e@),
        },
{
    let goal_id = process.api.get_string("goal_id");
    let worktree = if goal_id.is_some() {
        match process_worktree(process) {
            Ok(worktree) => worktree,
            Err(e) => {
                return Err(e);
            },
        }
    } else {
        None
    };
    let is_chat = match process.api.get_text("kind") {
        Some(kind) => text_eq(kind, "chat"),
        None => false,
    };
    let session_id = if is_chat {
        process.api.get_string("session_id")
    } else {
        None
    };
    Ok(AgentStopLinks { goal_id, session_id, worktree })
}

/// An open session with an id.
pub open spec fn open_session(sessions: Seq<ChatSession>, id: Seq<char>) -> Option<ChatSession> {
    crate::lists::first_match(sessions, |s: ChatSession| s.id@ == id && !s.closed)
}

fn find_open_session<'a>(sessions: &'a Vec<ChatSession>, session_id: &str) -> (r: Option<
    &'a ChatSession,
>)
    ensures
        match r {
            Some(s) => open_session(sessions@, session_id@) == Some(*s),
            None => open_session(sessions@, session_id@) is None,
        },
{
    let ghost p = |s: ChatSession| s.id@ == session_id@ && !s.closed;
    let mut i: usize = 0;
    assert(sessions@.skip(0) =~= sessions@);
    while i < sessions.len()
        invariant
            i <= sessions.len(),
            p == (|s: ChatSession| s.id@ == session_id@ && !s.closed),
            open_session(sessions@, session_id@) == crate::lists::first_match(
                sessions@.skip(i as int),
                p,
            ),
        decreases sessions.len() - i,
    {
        proof {
            crate::lists::first_match_steps(sessions@, p, i as int);
        }
        if text_eq(sessions[i].id.as_str(), session_id) && !sessions[i].closed {
            return Some(&sessions[i]);
        }
        i = i + 1;
    }
    None
}

/// Refuses a chat that is closed or unknown.
pub fn preflight_chat(sessions: &Vec<ChatSession>, session_id: &str) -> (r: RefineResult<()>)
    ensures
        crate::errors::outcome(r) == (if open_session(sessions@, session_id@) is Some {
            Ok(())
        } else {
            Err(
                crate::errors::ErrorView::Conflict(
                    "chat session "@ + session_id@
                        + " is unavailable; its managed process was left running"@,
                ),
            )
        }),
{
    if find_open_session(sessions, session_id).is_some() {
        Ok(())
    } else {
        Err(
            RefineError::Conflict(
                cat3(
                    "chat session ",
                    session_id,
                    " is unavailable; its managed process was left running",
                ),
            ),
        )
    }
}

/// The fence around an agent's goal, once its chat is known to be open.
pub open spec fn agent_fence_outcome(
    links: AgentStopLinks,
    goals: Map<Seq<char>, GoalSummaryProjection>,
    claims: Seq<WorkflowClaim>,
    sessions: Seq<ChatSession>,
    process: ManagedProcess,
) -> Result<Option<crate::process_control::ownership::FenceView>, crate::errors::ErrorView> {
    let fence = match links.goal_id {
        Some(goal_id) => match crate::process_control::ownership::fence_outcome(
            goals,
            claims,
            goal_id@,
            process.id@,
            crate::process_control::ownership::metadata_of(process.details),
            WorkflowOwnershipPhase::BeforeTermination,
        ) {
            Ok(f) => Ok(Some(f)),
            Err(e) => Err(e),
        },
        None => Ok(None),
    };
    match fence {
        Err(e) => Err(e),
        Ok(f) => match links.session_id {
            Some(id) => if open_session(sessions, id@) is Some {
                Ok(f)
            } else {
                Err(
                    crate::errors::ErrorView::Conflict(
                        "chat session "@ + id@
                            + " is unavailable; its managed process was left running"@,
                    ),
                )
            },
            None => Ok(f),
        },
    }
}

/// The view of an optional fence in a result.
pub open spec fn fence_result(r: RefineResult<Option<ProcessGoalFence>>) -> Result<
    Option<crate::process_control::ownership::FenceView>,
    crate::errors::ErrorView,
> {
    match r {
        Ok(Some(f)) => Ok(Some(f@)),
        Ok(None) => Ok(None),
        Err(e) => Err(e@),
    }
}

/// Checks an agent's goal and chat before the agent is terminated.
pub fn agent_stop_fence(
    links: &AgentStopLinks,
    goals: &TextMap<GoalSummaryProjection>,
    state: &WorkflowAutomationState,
    sessions: &Vec<ChatSession>,
    process: &ManagedProcess,
) -> (r: RefineResult<Option<ProcessGoalFence>>)
    ensures
        fence_result(r) == agent_fence_outcome(
            *links,
            goals@,
            state.claims@,
            sessions@,
            *process,
        ),
{
    let fence = match &links.goal_id {
        Some(goal_id) => match preflight_goal_for_process(
            goals,
            state,
            goal_id.as_str(),
            process,
            WorkflowOwnershipPhase::BeforeTermination,
        ) {
            Ok(fence) => Some(fence),
            Err(e) => {
                return Err(e);
            },
        },
        None => None,
    };
    match &links.session_id {
        Some(session_id) => match preflight_chat(sessions, session_id.as_str()) {
            Ok(_) => Ok(fence),
            Err(e) => Err(e),
        },
        None => Ok(fence),
    }
}

/// The effects of stopping one agent.
pub open spec fn agent_protocol(goal: bool, chat: bool) -> StopProtocol {
    StopProtocol {
        processes: 1,
        chat_first: chat,
        operations: true,
        chat: false,
        goal,
        claim: false,
        receipts: 1,
        retained: 1,
    }
}

/// Lays out the effects of stopping one agent.
pub fn agent_stop_protocol(links: &AgentStopLinks) -> (r: StopProtocol)
    ensures
        r == agent_protocol(links.goal_id is Some, links.session_id is Some),
{
    StopProtocol {
        processes: 1,
        chat_first: links.session_id.is_some(),
        operations: true,
        chat: false,
        goal: links.goal_id.is_some(),
        claim: false,
        receipts: 1,
        retained: 1,
    }
}

/// The outcome of a stop, with the settled goal where there is one.
pub open spec fn stop_result(
    intent: TerminationIntent,
    settlement: Option<GoalSettlement>,
    process: crate::json::JsonView,
    termination: crate::json::JsonView,
) -> crate::json::JsonView {
    let authoritative = match settlement {
        Some(s) => s.termination_intent.name@,
        None => intent.name@,
    };
    let base = Map::<Seq<char>, crate::json::JsonView>::empty().insert(
        "stopped"@,
        crate::json::JsonView::Bool(true),
    ).insert("requested_termination_intent"@, crate::json::JsonView::Text(intent.name@)).insert(
        "termination_intent"@,
        crate::json::JsonView::Text(authoritative),
    ).insert(
        "intent_superseded"@,
        crate::json::JsonView::Bool(intent.name@ != authoritative),
    ).insert("process"@, process).insert("termination"@, termination);
    crate::json::JsonView::Object(
        match settlement {
            Some(s) => base.insert("goal"@, s.goal@).insert(
                "worktree_retention"@,
                s.worktree_retention@,
            ),
            None => base,
        },
    )
}

/// Reports a stop.
pub fn build_stop_result(
    intent: &TerminationIntent,
    settlement: &Option<GoalSettlement>,
    process: Json,
    termination: Json,
) -> (r: Json)
    ensures
        r@ == stop_result(*intent, *settlement, process@, termination@),
{
    let authoritative = match settlement {
        Some(s) => s.termination_intent.name.as_str(),
        None => intent.name.as_str(),
    };
    let superseded = !text_eq(intent.name.as_str(), authoritative);
    let mut o = Json::object();
    o.set("stopped", Json::boolean(true));
    o.set("requested_termination_intent", Json::text(intent.name.as_str()));
    o.set("termination_intent", Json::text(authoritative));
    o.set("intent_superseded", Json::boolean(superseded));
    o.set("process", process);
    o.set("termination", termination);
    if let Some(s) = settlement {
        o.set("goal", s.goal.clone());
        o.set("worktree_retention", s.worktree_retention.clone());
    }
    o
}

/// A chat as a process that was stopped.
pub open spec fn chat_process(process_id: Seq<char>, session: ChatSession) -> crate::json::JsonView {
    crate::json::JsonView::Object(
        Map::<Seq<char>, crate::json::JsonView>::empty().insert(
            "id"@,
            crate::json::JsonView::Text(process_id),
        ).insert("kind"@, crate::json::JsonView::Text("chat"@)).insert(
            "session_id"@,
            crate::json::JsonView::Text(session.id@),
        ).insert("goal_id"@, crate::json::maybe_text_view(session.goal_id)).insert(
            "status"@,
            crate::json::JsonView::Text("stopped"@),
        ).insert("pid"@, crate::json::JsonView::Null),
    )
}

/// Shows a chat as a process that was stopped.
pub fn synthetic_chat_process_value(process_id: &str, session: &ChatSession) -> (r: Json)
    ensures
        r@ == chat_process(process_id@, *session),
{
    let mut o = Json::object();
    o.set("id", Json::text(process_id));
    o.set("kind", Json::text("chat"));
    o.set("session_id", Json::text(session.id.as_str()));
    o.set("goal_id", Json::maybe_text(&session.goal_id));
    o.set("status", Json::text("stopped"));
    o.set("pid", Json::null());
    o
}

/// The owners and worktrees of a chat's processes, or the first refusal.
pub open spec fn chat_fences(
    goals: Map<Seq<char>, GoalSummaryProjection>,
    claims: Seq<WorkflowClaim>,
    goal_id: Seq<char>,
    managed: Seq<ManagedProcess>,
) -> Result<
    (Seq<crate::process_control::ownership::OwnershipView>, Seq<Seq<char>>),
    crate::errors::ErrorView,
>
    decreases managed.len(),
{
    if managed.len() == 0 {
        Ok((Seq::empty(), Seq::empty()))
    } else {
        match chat_fences(goals, claims, goal_id, managed.drop_last()) {
            Err(e) => Err(e),
            Ok((owners, worktrees)) => match worktree_outcome(managed.last().worktree) {
                Err(e) => Err(e),
                Ok(worktree) => match crate::process_control::ownership::fence_outcome(
                    goals,
                    claims,
                    goal_id,
                    managed.last().id@,
                    crate::process_control::ownership::metadata_of(managed.last().details),
                    WorkflowOwnershipPhase::BeforeTermination,
                ) {
                    Err(e) => Err(e),
                    Ok(fence) => Ok(
                        (
                            match fence.workflow {
                                Some(o) => owners.push(o),
                                None => owners,
                            },
                            with_distinct(worktrees, worktree),
                        ),
                    ),
                },
            },
        }
    }
}

proof fn first_chat_refusal_stands(
    goals: Map<Seq<char>, GoalSummaryProjection>,
    claims: Seq<WorkflowClaim>,
    goal_id: Seq<char>,
    managed: Seq<ManagedProcess>,
    n: int,
)
    requires
        0 <= n <= managed.len(),
        chat_fences(goals, claims, goal_id, managed.take(n)) is Err,
    ensures
        chat_fences(goals, claims, goal_id, managed) == chat_fences(
            goals,
            claims,
            goal_id,
            managed.take(n),
        ),
    decreases managed.len() - n,
{
    if n == managed.len() {
        assert(managed.take(n) =~= managed);
    } else {
        assert(managed.take(n + 1).drop_last() =~= managed.take(n));
        first_chat_refusal_stands(goals, claims, goal_id, managed, n + 1);
    }
}

/// The failure of a chat that reports work but has no process to terminate.
pub open spec fn unidentified_work(process_id: Seq<char>, goal_id: Option<Seq<char>>) -> crate::errors::ErrorView {
    crate::process_control::receipts::stop_failure(
        crate::errors::ErrorView::Degraded(
            "chat agent process "@ + process_id
                + " reports active work but has no exact managed-process identity to terminate; the chat record was kept open for recovery"@,
        ),
        process_id,
        goal_id,
    )
}

/// What stopping a chat settles, or why it is refused.
pub open spec fn chat_plan_outcome(
    process_id: Seq<char>,
    session_id: Seq<char>,
    sessions: Seq<ChatSession>,
    goals: Map<Seq<char>, GoalSummaryProjection>,
    claims: Seq<WorkflowClaim>,
    managed: Seq<ManagedProcess>,
) -> Result<ChatStopPlanView, crate::errors::ErrorView> {
    match open_session(sessions, session_id) {
        None => Err(process_not_found(process_id)),
        Some(session) => {
            let busy = session.in_flight || session.queue_dispatching;
            match session.goal_id {
                None => if managed.len() == 0 && busy {
                    Err(unidentified_work(process_id, None))
                } else {
                    Ok(
                        ChatStopPlanView {
                            goal_id: None,
                            expectation: None,
                            ownership: Seq::empty(),
                            worktrees: Seq::empty(),
                        },
                    )
                },
                Some(goal_id) => match crate::process_control::ownership::goal_state_outcome(
                    goals,
                    goal_id@,
                ) {
                    Err(e) => Err(e),
                    Ok(expectation) => if managed.len() == 0 && busy {
                        Err(unidentified_work(process_id, Some(goal_id@)))
                    } else if managed.len() == 0
                        && crate::process_control::ownership::claim_holding(claims, goal_id@) is Some {
                        Err(
                            crate::process_control::ownership::competing_claim(
                                process_id,
                                goal_id@,
                                WorkflowOwnershipPhase::BeforeTermination,
                            ),
                        )
                    } else {
                        match chat_fences(goals, claims, goal_id@, managed) {
                            Err(e) => Err(e),
                            Ok((owners, worktrees)) => Ok(
                                ChatStopPlanView {
                                    goal_id: Some(goal_id@),
                                    expectation: Some(expectation),
                                    ownership: owners,
                                    worktrees,
                                },
                            ),
                        }
                    },
                },
            }
        },
    }
}

/// Checks a chat, its goal and every process of it before any of them is
/// terminated.
#[verifier::loop_isolation(false)]
pub fn plan_chat_stop(
    process_id: &str,
    session_id: &str,
    sessions: &Vec<ChatSession>,
    goals: &TextMap<GoalSummaryProjection>,
    state: &WorkflowAutomationState,
    managed: &Vec<ManagedProcess>,
) -> (r: RefineResult<ChatStopPlan>)
    ensures
        crate::errors::viewed(r) == chat_plan_outcome(
            process_id@,
            session_id@,
            sessions@,
            goals@,
            state.claims@,
            managed@,
        ),
{
    let session = match find_open_session(sessions, session_id) {
        Some(session) => session,
        None => {
            return Err(process_not_found_error(process_id));
        },
    };
    let expectation = match &session.goal_id {
        Some(goal_id) => match preflight_goal_state(goals, goal_id.as_str()) {
            Ok(expectation) => Some(expectation),
            Err(e) => {
                return Err(e);
            },
        },
        None => None,
    };
    if managed.len() == 0 && (session.in_flight || session.queue_dispatching) {
        let e = RefineError::Degraded(
            cat3(
                "chat agent process ",
                process_id,
                " reports active work but has no exact managed-process identity to terminate; the chat record was kept open for recovery",
            ),
        );
        return Err(stop_failure_with_goal_context(e, process_id, &session.goal_id));
    }
    let mut ownership: Vec<WorkflowGoalOwnership> = Vec::new();
    let mut worktrees: Vec<String> = Vec::new();
    assert(owner_views(ownership@) =~= Seq::<crate::process_control::ownership::OwnershipView>::empty());
    assert(crate::text::views(worktrees@) =~= Seq::<Seq<char>>::empty());
    if let Some(goal_id) = &session.goal_id {
        if managed.len() == 0 {
            match ensure_goal_has_no_active_workflow_claim_in_state(
                state,
                goal_id.as_str(),
                process_id,
                WorkflowOwnershipPhase::BeforeTermination,
            ) {
                Ok(_) => {},
                Err(e) => {
                    return Err(e);
                },
            }
        }
        let mut k: usize = 0;
        assert(managed@.take(0) =~= Seq::<ManagedProcess>::empty());
        while k < managed.len()
            invariant
                k <= managed.len(),
                chat_fences(goals@, state.claims@, goal_id@, managed@.take(k as int)) == Ok::<
                    (Seq<crate::process_control::ownership::OwnershipView>, Seq<Seq<char>>),
                    crate::errors::ErrorView,
                >((owner_views(ownership@), crate::text::views(worktrees@))),
            decreases managed.len() - k,
        {
            proof {
                assert(managed@.take(k as int + 1).drop_last() =~= managed@.take(k as int));
                assert(managed@.take(k as int + 1).last() == managed@[k as int]);
            }
            let process = &managed[k];
            if let Err(e) = keep_worktree(&mut worktrees, process) {
                proof {
                    first_chat_refusal_stands(
                        goals@,
                        state.claims@,
                        goal_id@,
                        managed@,
                        k as int + 1,
                    );
                }
                return Err(e);
            }
            match preflight_goal_for_process(
                goals,
                state,
                goal_id.as_str(),
                process,
                WorkflowOwnershipPhase::BeforeTermination,
            ) {
                Ok(fence) => {
                    if let Some(o) = fence.workflow {
                        let ghost before = ownership@;
                        ownership.push(o);
                        assert(owner_views(ownership@) =~= owner_views(before).push(o@));
                    }
                },
                Err(e) => {
                    proof {
                        first_chat_refusal_stands(
                            goals@,
                            state.claims@,
                            goal_id@,
                            managed@,
                            k as int + 1,
                        );
                    }
                    return Err(e);
                },
            }
            k = k + 1;
        }
        assert(managed@.take(managed.len() as int) =~= managed@);
    }
    Ok(ChatStopPlan { goal_id: session.goal_id.clone(), expectation, ownership, worktrees })
}

/// The effects of stopping a chat.
pub open spec fn chat_protocol(goal: bool, managed: nat) -> StopProtocol {
    StopProtocol {
        processes: managed as usize,
        chat_first: false,
        operations: true,
        chat: true,
        goal,
        claim: false,
        receipts: managed as usize,
        retained: 1,
    }
}

/// Lays out the effects of stopping a chat.
pub fn chat_stop_protocol(plan: &ChatStopPlan, managed: usize) -> (r: StopProtocol)
    ensures
        r == chat_protocol(plan.goal_id is Some, managed as nat),
{
    StopProtocol {
        processes: managed,
        chat_first: false,
        operations: true,
        chat: true,
        goal: plan.goal_id.is_some(),
        claim: false,
        receipts: managed,
        retained: 1,
    }
}

/// The termination of a chat that is retained when its settlement fails.
pub open spec fn chat_summary(terminations: Seq<crate::json::JsonView>) -> crate::json::JsonView {
    crate::json::JsonView::Object(
        Map::<Seq<char>, crate::json::JsonView>::empty().insert(
            "confirmed_exit"@,
            crate::json::JsonView::Bool(true),
        ).insert("registry_cleanup_completed"@, crate::json::JsonView::Bool(true)).insert(
            "identity_cleanup_completed"@,
            crate::json::JsonView::Bool(true),
        ).insert("managed_processes"@, crate::json::JsonView::Array(terminations)).insert(
            "already_idle"@,
            crate::json::JsonView::Bool(terminations.len() == 0),
        ),
    )
}

/// Summarizes the terminations of a chat's processes.
pub fn chat_termination_summary(terminations: &Vec<Json>) -> (r: Json)
    ensures
        r@ == chat_summary(crate::json::json_views(terminations@)),
{
    let idle = terminations.len() == 0;
    let mut o = Json::object();
    o.set("confirmed_exit", Json::boolean(true));
    o.set("registry_cleanup_completed", Json::boolean(true));
    o.set("identity_cleanup_completed", Json::boolean(true));
    o.set("managed_processes", Json::array(crate::json::clone_values(terminations)));
    o.set("already_idle", Json::boolean(idle));
    o
}

/// The termination of a chat as it is reported.
pub open spec fn chat_termination(terminations: Seq<crate::json::JsonView>) -> crate::json::JsonView {
    crate::json::JsonView::Object(
        Map::<Seq<char>, crate::json::JsonView>::empty().insert(
            "confirmed_exit"@,
            crate::json::JsonView::Bool(true),
        ).insert("registry_retained_until_exit"@, crate::json::JsonView::Bool(true)).insert(
            "managed_processes"@,
            crate::json::JsonView::Array(terminations),
        ).insert("already_idle"@, crate::json::JsonView::Bool(terminations.len() == 0)),
    )
}

/// Reports a stopped chat.
pub fn chat_stop_result(
    process_id: &str,
    session: &ChatSession,
    intent: &TerminationIntent,
    settlement: &Option<GoalSettlement>,
    terminations: Vec<Json>,
) -> (r: Json)
    ensures
        r@ == stop_result(
            *intent,
            *settlement,
            chat_process(process_id@, *session),
            chat_termination(crate::json::json_views(terminations@)),
        ),
{
    let idle = terminations.len() == 0;
    let mut t = Json::object();
    t.set("confirmed_exit", Json::boolean(true));
    t.set("registry_retained_until_exit", Json::boolean(true));
    t.set("managed_processes", Json::array(terminations));
    t.set("already_idle", Json::boolean(idle));
    build_stop_result(intent, settlement, synthetic_chat_process_value(process_id, session), t)
}

/// The executions of a list of owners, each once and in order.
pub fn owned_executions(ownership: &Vec<WorkflowGoalOwnership>) -> (r: Vec<String>)
    ensures
        crate::text_map::ascending(crate::text::views(r@)),
        forall|id: Seq<char>| #[trigger]
            crate::text::views(r@).contains(id) <==> exists|i: int|
                0 <= i < ownership@.len() && crate::text::maybe_view(
                    (#[trigger] ownership@[i]).execution_id,
                ) == Some(id),
{
    let mut ids: TextMap<()> = TextMap::new();
    let mut i: usize = 0;
    while i < ownership.len()
        invariant
            i <= ownership.len(),
            forall|id: Seq<char>| #[trigger]
                ids@.contains_key(id) <==> exists|j: int|
                    0 <= j < i && crate::text::maybe_view((#[trigger] ownership@[j]).execution_id)
                        == Some(id),
        decreases ownership.len() - i,
    {
        let ghost before = ids@;
        if let Some(id) = &ownership[i].execution_id {
            ids.insert(id.clone(), ());
        }
        proof {
            assert forall|id: Seq<char>| #[trigger] ids@.contains_key(id) <==> exists|j: int|
                0 <= j < i + 1 && crate::text::maybe_view((#[trigger] ownership@[j]).execution_id)
                    == Some(id) by {
                if before.contains_key(id) {
                    let j = choose|j: int|
                        0 <= j < i && crate::text::maybe_view(
                            (#[trigger] ownership@[j]).execution_id,
                        ) == Some(id);
                    assert(0 <= j < i + 1);
                }
                if crate::text::maybe_view(ownership@[i as int].execution_id) == Some(id) {
                    assert(0 <= i < i + 1);
                }
            }
        }
        i = i + 1;
    }
    let n: usize = ids.len();
    let mut out: Vec<String> = Vec::new();
    let mut k: usize = 0;
    while k < n
        invariant
            k <= n == ids.keys().len(),
            out@.len() == k,
            forall|j: int| 0 <= j < k ==> (#[trigger] out@[j])@ == ids.keys()[j],
        decreases n - k,
    {
        out.push(ids.key_at(k).clone());
        k = k + 1;
    }
    assert(crate::text::views(out@) =~= ids.keys());
    proof {
        assert forall|id: Seq<char>| #[trigger] ids.keys().contains(id) <==> ids@.contains_key(
            id,
        ) by {}
    }
    out
}

} // verus!

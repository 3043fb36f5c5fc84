//! Authoring goals: what a request to write one down leads to.
use vstd::prelude::*;

use crate::clock::timestamp;
use crate::errors::{goal_not_found_error, RefineError, RefineResult};
use crate::json::Json;
use crate::model::{
    GoalIndexProjection, GoalPriority, GoalStatus, GoalSummaryProjection, ProjectionSnapshot,
};
use crate::text::{is_blank, join_lines, text_eq, trim};
use crate::work_items::bulk::feature_not_found_error;
use crate::work_items::placement::{FeatureGoal, FeatureGoalPlacement};
use crate::work_items::queries::{
    goal_json_path, id_taken_error, new_record, normal_json_path, resolve_goal_id, NewGoal,
};
use crate::work_items::records::{text_or_null_value, PersonName};
use crate::work_items::rounds::{new_round_value, MetadataEdit, NewRound, RoundEdit, RoundInput};
use crate::work_items::{FileWorkItemService, OperationDecision};

verus! {

/// What can be done to a goal while it is authored.
#[derive(Clone, Copy, Debug, PartialEq, Eq, Structural)]
pub enum GoalOperation {
    EditMetadata,
    SubmitNewRound,
    EditLatestRound,
    ReorderInFeature,
}

/// Whether a goal can be authored, and why not.
#[derive(Debug)]
pub struct FeatureGoalAuthoringCapability {
    pub editable: bool,
    pub reason: Option<String>,
}

/// A request to write a goal of a feature down.
#[derive(Debug)]
pub struct FeatureGoalAuthoringRequest {
    pub goal_id: Option<String>,
    pub name: Option<String>,
    pub prompt: String,
    pub reporter: PersonName,
    pub assignee: Option<PersonName>,
    pub priority: String,
    pub placement: FeatureGoalPlacement,
    pub duplicate_decision: String,
}

/// A request to write a goal down: a new one, or a change to one.
#[derive(Debug)]
pub struct GoalAuthoringRequest {
    pub goal_id: Option<String>,
    pub id: Option<String>,
    pub name: Option<String>,
    pub prompt: String,
    pub reporter: PersonName,
    pub assignee: Option<PersonName>,
    pub priority: String,
    pub feature_id: Option<String>,
    pub placement: FeatureGoalPlacement,
    pub duplicate_decision: String,
}

/// What the workflow says of each operation in some status.
#[derive(Debug)]
pub struct AuthoringDecisions {
    pub edit_metadata: OperationDecision,
    pub submit_new_round: OperationDecision,
    pub edit_latest_round: OperationDecision,
    pub reorder_in_feature: OperationDecision,
}

/// What is known beside the projection when a goal is authored.
pub struct AuthoringContext {
    /// The name that the prompt suggests.
    pub derived_name: Option<String>,
    /// The active node, as the node registry tells it.
    pub registered_node: RefineResult<String>,
    /// What the workflow says of each operation in the status of the goal that
    /// is changed.
    pub decisions: AuthoringDecisions,
    /// The goal that the placement names.
    pub prerequisite: Option<FeatureGoal>,
}

/// A goal whose latest round asks for the same.
#[derive(Debug)]
pub struct GoalAuthoringDuplicate {
    pub id: String,
    pub name: String,
    pub status: GoalStatus,
    pub node_id: Option<String>,
    pub node_display_name: Option<String>,
    pub prompt: String,
}

/// What became of a duplicate that was to go back to the backlog.
#[derive(Debug)]
pub struct GoalAuthoringDuplicateMove {
    pub moved: bool,
    pub from: GoalStatus,
    pub to: GoalStatus,
    pub reason: Option<String>,
}

/// What came of a request to write a goal down.
#[derive(Debug)]
pub struct GoalAuthoringResult {
    pub created: bool,
    pub goal: Option<GoalIndexProjection>,
    pub duplicate_action: Option<String>,
    pub duplicate: Option<GoalAuthoringDuplicate>,
    pub move_result: Option<GoalAuthoringDuplicateMove>,
    pub requires_duplicate_decision: bool,
}

/// A new goal as it was authored.
#[derive(Debug)]
pub struct AuthoredGoal {
    pub name: String,
    pub id: Option<String>,
    pub priority: String,
    pub reporter: String,
    pub assignee: Option<String>,
    pub prompt: String,
    pub feature_id: Option<String>,
}

/// A change to a goal as it was authored.
#[derive(Debug)]
pub struct AuthoredEdit {
    pub goal_id: String,
    pub name: Option<String>,
    pub priority: String,
    pub reporter: String,
    pub assignee: String,
    pub prompt: String,
    /// Whether the goal gets its first round; its latest one is edited
    /// otherwise.
    pub first_round: bool,
    pub feature_id: Option<String>,
}

/// What a request leads to.
#[derive(Debug)]
pub enum AuthoringPlan {
    /// Nothing is written.
    Finished(GoalAuthoringResult),
    /// The duplicate is to go back to the backlog.
    MoveOriginal(GoalAuthoringDuplicate),
    /// A goal is changed.
    Edit(AuthoredEdit),
    /// A goal is created in one write.
    CreateDirect(AuthoredGoal),
    /// A goal is created step by step.
    Create(AuthoredGoal),
}

/// A duplicate by its contents.
pub ghost struct DuplicateView {
    pub id: Seq<char>,
    pub name: Seq<char>,
    pub status: GoalStatus,
    pub node_id: Option<Seq<char>>,
    pub node_display_name: Option<Seq<char>>,
    pub prompt: Seq<char>,
}

/// The move of a duplicate by its contents.
pub ghost struct MoveView {
    pub moved: bool,
    pub from: GoalStatus,
    pub to: GoalStatus,
    pub reason: Option<Seq<char>>,
}

/// A result by its contents.
pub ghost struct AuthoringResultView {
    pub created: bool,
    pub goal: Option<GoalIndexProjection>,
    pub duplicate_action: Option<Seq<char>>,
    pub duplicate: Option<DuplicateView>,
    pub move_result: Option<MoveView>,
    pub requires_duplicate_decision: bool,
}

/// An authored goal by its contents.
pub ghost struct AuthoredView {
    pub name: Seq<char>,
    pub id: Option<Seq<char>>,
    pub priority: Seq<char>,
    pub reporter: Seq<char>,
    pub assignee: Option<Seq<char>>,
    pub prompt: Seq<char>,
    pub feature_id: Option<Seq<char>>,
}

/// An authored change by its contents.
pub ghost struct EditView {
    pub goal_id: Seq<char>,
    pub name: Option<Seq<char>>,
    pub priority: Seq<char>,
    pub reporter: Seq<char>,
    pub assignee: Seq<char>,
    pub prompt: Seq<char>,
    pub first_round: bool,
    pub feature_id: Option<Seq<char>>,
}

/// A plan by its contents.
pub ghost enum PlanView {
    Finished(AuthoringResultView),
    MoveOriginal(DuplicateView),
    Edit(EditView),
    CreateDirect(AuthoredView),
    Create(AuthoredView),
}

impl View for GoalAuthoringDuplicate {
    type V = DuplicateView;

    open spec fn view(&self) -> DuplicateView {
        DuplicateView {
            id: self.id@,
            name: self.name@,
            status: self.status,
            node_id: crate::text::maybe_view(self.node_id),
            node_display_name: crate::text::maybe_view(self.node_display_name),
            prompt: self.prompt@,
        }
    }
}

impl View for GoalAuthoringDuplicateMove {
    type V = MoveView;

    open spec fn view(&self) -> MoveView {
        MoveView {
            moved: self.moved,
            from: self.from,
            to: self.to,
            reason: crate::text::maybe_view(self.reason),
        }
    }
}

impl View for GoalAuthoringResult {
    type V = AuthoringResultView;

    open spec fn view(&self) -> AuthoringResultView {
        AuthoringResultView {
            created: self.created,
            goal: self.goal,
            duplicate_action: crate::text::maybe_view(self.duplicate_action),
            duplicate: match self.duplicate {
                Some(d) => Some(d@),
                None => None,
            },
            move_result: match self.move_result {
                Some(m) => Some(m@),
                None => None,
            },
            requires_duplicate_decision: self.requires_duplicate_decision,
        }
    }
}

impl View for AuthoredGoal {
    type V = AuthoredView;

    open spec fn view(&self) -> AuthoredView {
        AuthoredView {
            name: self.name@,
            id: crate::text::maybe_view(self.id),
            priority: self.priority@,
            reporter: self.reporter@,
            assignee: crate::text::maybe_view(self.assignee),
            prompt: self.prompt@,
            feature_id: crate::text::maybe_view(self.feature_id),
        }
    }
}

impl View for AuthoredEdit {
    type V = EditView;

    open spec fn view(&self) -> EditView {
        EditView {
            goal_id: self.goal_id@,
            name: crate::text::maybe_view(self.name),
            priority: self.priority@,
            reporter: self.reporter@,
            assignee: self.assignee@,
            prompt: self.prompt@,
            first_round: self.first_round,
            feature_id: crate::text::maybe_view(self.feature_id),
        }
    }
}

impl View for AuthoringPlan {
    type V = PlanView;

    open spec fn view(&self) -> PlanView {
        match self {
            AuthoringPlan::Finished(r) => PlanView::Finished(r@),
            AuthoringPlan::MoveOriginal(d) => PlanView::MoveOriginal(d@),
            AuthoringPlan::Edit(e) => PlanView::Edit(e@),
            AuthoringPlan::CreateDirect(g) => PlanView::CreateDirect(g@),
            AuthoringPlan::Create(g) => PlanView::Create(g@),
        }
    }
}

/// The operations that authoring a goal takes.
pub open spec fn operations_of(round_count: usize) -> Seq<GoalOperation> {
    seq![
        GoalOperation::EditMetadata,
        if round_count == 0 {
            GoalOperation::SubmitNewRound
        } else {
            GoalOperation::EditLatestRound
        },
        GoalOperation::ReorderInFeature,
    ]
}

/// What the workflow says of an operation.
pub open spec fn decision_on(
    decisions: AuthoringDecisions,
    operation: GoalOperation,
) -> OperationDecision {
    match operation {
        GoalOperation::EditMetadata => decisions.edit_metadata,
        GoalOperation::SubmitNewRound => decisions.submit_new_round,
        GoalOperation::EditLatestRound => decisions.edit_latest_round,
        GoalOperation::ReorderInFeature => decisions.reorder_in_feature,
    }
}

/// What the workflow says of the operations that authoring a goal takes.
pub open spec fn authoring_decisions(decisions: AuthoringDecisions, round_count: usize) -> Seq<
    OperationDecision,
> {
    operations_of(round_count).map_values(|o: GoalOperation| decision_on(decisions, o))
}

/// The first decision that refuses.
pub open spec fn first_denial(decisions: Seq<OperationDecision>) -> Option<OperationDecision> {
    crate::lists::first_match(decisions, |d: OperationDecision| !d.allowed)
}

/// A text without the white space around it, unless it is blank.
pub open spec fn filled(text: Option<String>) -> Option<Seq<char>> {
    match text {
        Some(t) => if crate::text::blank(t@) { None } else { Some(crate::text::trimmed(t@)) },
        None => None,
    }
}

/// The name of the goal: the given one, or the one that the prompt suggests.
pub open spec fn resolved_name(request: GoalAuthoringRequest, context: AuthoringContext) -> Option<
    Seq<char>,
> {
    match filled(request.name) {
        Some(name) => Some(name),
        None => crate::text::maybe_view(context.derived_name),
    }
}

/// The refusal of a request by its ids and its name.
pub open spec fn naming_refusal(request: GoalAuthoringRequest, context: AuthoringContext) -> Option<
    crate::errors::ErrorView,
> {
    if filled(request.goal_id) is Some && filled(request.id) is Some {
        Some(
            crate::errors::ErrorView::InvalidInput("id cannot be supplied when editing a Goal"@),
        )
    } else if filled(request.goal_id) is None && resolved_name(request, context) is None {
        Some(crate::errors::ErrorView::InvalidInput("Goal name is required"@))
    } else {
        None
    }
}

/// The refusal of a request by its feature.
pub open spec fn feature_stage(
    service: FileWorkItemService,
    request: GoalAuthoringRequest,
    snapshot: ProjectionSnapshot,
    context: AuthoringContext,
) -> Option<crate::errors::ErrorView> {
    match filled(request.feature_id) {
        None => None,
        Some(id) => if snapshot.features@.contains_key(id) {
            crate::work_items::feature_refusal(
                snapshot.features@[id].feature,
                crate::work_items::active_node(service, context.registered_node),
            )
        } else {
            Some(crate::work_items::bulk::feature_not_found(id))
        },
    }
}

/// The refusal of a request by its people and its priority.
pub open spec fn people_stage(request: GoalAuthoringRequest, feature_inline: bool) -> Option<
    crate::errors::ErrorView,
> {
    match crate::work_items::records::checked_reporter(request.reporter) {
        Err(e) => Some(e),
        Ok(reporter) => if feature_inline && (reporter.len() == 0 || crate::text::trimmed(
            request.prompt@,
        ).len() == 0) {
            Some(crate::errors::ErrorView::InvalidInput("reporter and prompt are required"@))
        } else if !crate::work_items::rounds::is_priority(
            crate::text::trimmed(request.priority@),
        ) {
            Some(crate::work_items::rounds::unknown_priority())
        } else {
            match crate::work_items::rounds::checked_assignee_option(request.assignee) {
                Err(e) => Some(e),
                Ok(_) => None,
            }
        },
    }
}

/// The refusal of a change to a goal that is to be edited.
pub open spec fn current_stage(
    service: FileWorkItemService,
    request: GoalAuthoringRequest,
    snapshot: ProjectionSnapshot,
    context: AuthoringContext,
) -> Option<crate::errors::ErrorView> {
    match filled(request.goal_id) {
        None => None,
        Some(id) => if !snapshot.goals@.contains_key(id) {
            Some(crate::errors::goal_not_found(id))
        } else {
            let goal = snapshot.goals@[id].goal;
            match crate::work_items::goal_refusal(
                goal,
                crate::work_items::active_node(service, context.registered_node),
            ) {
                Some(e) => Some(e),
                None => if crate::text::maybe_view(goal.feature_id) != filled(request.feature_id) {
                    Some(
                        crate::errors::ErrorView::Conflict(
                            "Goal "@ + goal.id@ + " is not assigned to Feature "@ + match filled(
                                request.feature_id,
                            ) {
                                Some(f) => f,
                                None => ""@,
                            },
                        ),
                    )
                } else {
                    match first_denial(authoring_decisions(context.decisions, goal.round_count)) {
                        Some(d) => Some(
                            crate::errors::ErrorView::InvalidInput(
                                match d.reason {
                                    Some(reason) => reason@,
                                    None => "Goal cannot be authored in its current status"@,
                                },
                            ),
                        ),
                        None => if filled(request.name) is None {
                            Some(
                                crate::errors::ErrorView::InvalidInput(
                                    "Goal name is required when editing"@,
                                ),
                            )
                        } else {
                            None
                        },
                    }
                },
            }
        },
    }
}

/// The refusal of a request by its placement.
pub open spec fn placement_stage(
    request: GoalAuthoringRequest,
    context: AuthoringContext,
) -> Option<crate::errors::ErrorView> {
    match filled(request.feature_id) {
        Some(feature) => crate::work_items::placement::placement_refusal(
            feature,
            filled(request.goal_id),
            request.placement,
            context.prerequisite,
        ),
        None => if request.placement is Unordered {
            None
        } else {
            Some(crate::errors::ErrorView::InvalidInput("Goal placement requires a Feature"@))
        },
    }
}

/// The refusal of a request: the first of those of its parts.
pub open spec fn authoring_refusal(
    service: FileWorkItemService,
    request: GoalAuthoringRequest,
    feature_inline: bool,
    snapshot: ProjectionSnapshot,
    context: AuthoringContext,
) -> Option<crate::errors::ErrorView> {
    match naming_refusal(request, context) {
        Some(e) => Some(e),
        None => match feature_stage(service, request, snapshot, context) {
            Some(e) => Some(e),
            None => match people_stage(request, feature_inline) {
                Some(e) => Some(e),
                None => match current_stage(service, request, snapshot, context) {
                    Some(e) => Some(e),
                    None => placement_stage(request, context),
                },
            },
        },
    }
}

/// Tells the goals whose latest round asks for the same.
pub open spec fn asks_for(prompt: Seq<char>) -> spec_fn(GoalSummaryProjection) -> bool {
    |g: GoalSummaryProjection| crate::text::maybe_view(g.latest_round_prompt) == Some(prompt)
}

/// The first goal whose latest round asks for the same.
pub open spec fn duplicate_of(snapshot: ProjectionSnapshot, prompt: Seq<char>) -> Option<
    DuplicateView,
> {
    if prompt.len() == 0 {
        None
    } else {
        match crate::lists::first_match(snapshot.goals.values(), asks_for(prompt)) {
            Some(g) => Some(
                DuplicateView {
                    id: g.goal.id@,
                    name: g.goal.name@,
                    status: g.goal.status,
                    node_id: crate::text::maybe_view(g.goal.node_id),
                    node_display_name: crate::text::maybe_view(g.node_display_name),
                    prompt,
                },
            ),
            None => None,
        }
    }
}

/// A result that only names a duplicate.
pub open spec fn duplicate_result(
    duplicate: DuplicateView,
    action: Option<Seq<char>>,
    move_result: Option<MoveView>,
) -> AuthoringResultView {
    AuthoringResultView {
        created: false,
        goal: None,
        duplicate_action: action,
        duplicate: Some(duplicate),
        move_result,
        requires_duplicate_decision: action is None,
    }
}

/// What became of a duplicate that was to go back to the backlog.
pub open spec fn moved_back(duplicate: DuplicateView, moved: bool) -> MoveView {
    if duplicate.status == GoalStatus::Backlog {
        MoveView {
            moved: false,
            from: duplicate.status,
            to: GoalStatus::Backlog,
            reason: Some("already_backlog"@),
        }
    } else {
        MoveView {
            moved,
            from: duplicate.status,
            to: GoalStatus::Backlog,
            reason: if moved {
                None
            } else {
                Some("protected_status"@)
            },
        }
    }
}

/// What a decision on a duplicate leads to; nothing where the goal is to be
/// written all the same.
pub open spec fn decided(
    duplicate: DuplicateView,
    decision: Seq<char>,
    goals: Map<Seq<char>, GoalSummaryProjection>,
    direct: bool,
) -> Result<Option<PlanView>, crate::errors::ErrorView> {
    if decision.len() == 0 {
        Ok(Some(PlanView::Finished(duplicate_result(duplicate, None, None))))
    } else if decision == "duplicate"@ {
        Ok(Some(PlanView::Finished(duplicate_result(duplicate, Some("duplicate"@), None))))
    } else if decision == "move_original_to_backlog"@ {
        if duplicate.status == GoalStatus::Backlog || (direct && !goals.contains_key(duplicate.id)) {
            Ok(
                Some(
                    PlanView::Finished(
                        duplicate_result(
                            duplicate,
                            Some("move_original_to_backlog"@),
                            Some(moved_back(duplicate, false)),
                        ),
                    ),
                ),
            )
        } else {
            Ok(Some(PlanView::MoveOriginal(duplicate)))
        }
    } else if decision == "original"@ {
        Ok(None)
    } else {
        Err(
            crate::errors::ErrorView::InvalidInput("unknown duplicate_decision: "@ + decision),
        )
    }
}

/// The reporter of a request that was not refused.
pub open spec fn reporter_of(request: GoalAuthoringRequest) -> Seq<char> {
    crate::text::trimmed(request.reporter.text@)
}

/// The assignee of a request that was not refused.
pub open spec fn assignee_of(request: GoalAuthoringRequest) -> Option<Seq<char>> {
    match request.assignee {
        Some(a) => {
            let name = crate::text::trimmed(a.text@);
            if name.len() == 0 {
                None
            } else {
                Some(name)
            }
        },
        None => None,
    }
}

/// The change that a request makes to a goal.
pub open spec fn edit_of(request: GoalAuthoringRequest, goal: GoalIndexProjection) -> EditView {
    EditView {
        goal_id: goal.id@,
        name: crate::text::maybe_view(request.name),
        priority: crate::text::trimmed(request.priority@),
        reporter: reporter_of(request),
        assignee: match assignee_of(request) {
            Some(a) => a,
            None => match goal.assignee {
                Some(a) => a@,
                None => reporter_of(request),
            },
        },
        prompt: crate::text::trimmed(request.prompt@),
        first_round: goal.round_count == 0,
        feature_id: filled(request.feature_id),
    }
}

/// The goal that a request creates.
pub open spec fn creation_of(request: GoalAuthoringRequest, context: AuthoringContext) -> AuthoredView {
    AuthoredView {
        name: resolved_name(request, context)->0,
        id: filled(request.id),
        priority: crate::text::trimmed(request.priority@),
        reporter: reporter_of(request),
        assignee: assignee_of(request),
        prompt: crate::text::trimmed(request.prompt@),
        feature_id: filled(request.feature_id),
    }
}

/// What a request leads to.
pub open spec fn authoring_plan(
    service: FileWorkItemService,
    request: GoalAuthoringRequest,
    feature_inline: bool,
    snapshot: ProjectionSnapshot,
    direct: bool,
    context: AuthoringContext,
) -> Result<PlanView, crate::errors::ErrorView> {
    match authoring_refusal(service, request, feature_inline, snapshot, context) {
        Some(e) => Err(e),
        None => match filled(request.goal_id) {
            Some(id) => Ok(PlanView::Edit(edit_of(request, snapshot.goals@[id].goal))),
            None => {
                let create = creation_of(request, context);
                let plan = if direct {
                    PlanView::CreateDirect(create)
                } else {
                    PlanView::Create(create)
                };
                match duplicate_of(snapshot, crate::text::trimmed(request.prompt@)) {
                    Some(duplicate) => if filled(request.id) is Some {
                        Ok(plan)
                    } else {
                        match decided(
                            duplicate,
                            crate::text::trimmed(request.duplicate_decision@),
                            snapshot.goals@,
                            direct,
                        ) {
                            Err(e) => Err(e),
                            Ok(Some(p)) => Ok(p),
                            Ok(None) => Ok(plan),
                        }
                    },
                    None => Ok(plan),
                }
            },
        },
    }
}

/// The request that writes a goal of a feature down.
pub open spec fn inline_request(
    feature_id: Seq<char>,
    request: FeatureGoalAuthoringRequest,
    made: GoalAuthoringRequest,
) -> bool {
    &&& made.goal_id == request.goal_id
    &&& made.id is None
    &&& made.name == request.name
    &&& made.prompt == request.prompt
    &&& made.reporter == request.reporter
    &&& made.assignee == request.assignee
    &&& made.priority == request.priority
    &&& crate::text::maybe_view(made.feature_id) == Some(feature_id)
    &&& made.placement == request.placement
    &&& made.duplicate_decision == request.duplicate_decision
}

fn filled_text<'a>(text: &'a Option<String>) -> (r: Option<&'a str>)
    ensures
        crate::text::borrowed_view(r) == filled(*text),
{
    match text {
        Some(t) => if is_blank(t.as_str()) {
            None
        } else {
            Some(trim(t.as_str()))
        },
        None => None,
    }
}

fn owned_text(text: Option<&str>) -> (r: Option<String>)
    ensures
        crate::text::maybe_view(r) == crate::text::borrowed_view(text),
{
    match text {
        Some(t) => Some(t.to_owned()),
        None => None,
    }
}

fn same_text(a: &Option<String>, b: Option<&str>) -> (r: bool)
    ensures
        r == (crate::text::maybe_view(*a) == crate::text::borrowed_view(b)),
{
    match (a, b) {
        (Some(x), Some(y)) => text_eq(x.as_str(), y),
        (None, None) => true,
        _ => false,
    }
}

impl AuthoringDecisions {
    /// What the workflow says of an operation.
    pub fn on(&self, operation: GoalOperation) -> (r: &OperationDecision)
        ensures
            *r == decision_on(*self, operation),
    {
        match operation {
            GoalOperation::EditMetadata => &self.edit_metadata,
            GoalOperation::SubmitNewRound => &self.submit_new_round,
            GoalOperation::EditLatestRound => &self.edit_latest_round,
            GoalOperation::ReorderInFeature => &self.reorder_in_feature,
        }
    }
}

fn find_denial(decisions: &AuthoringDecisions, round_count: usize) -> (r: Option<
    &OperationDecision,
>)
    ensures
        match r {
            Some(d) => first_denial(authoring_decisions(*decisions, round_count)) == Some(*d),
            None => first_denial(authoring_decisions(*decisions, round_count)) is None,
        },
{
    let ghost p = |d: OperationDecision| !d.allowed;
    let ghost asked = authoring_decisions(*decisions, round_count);
    let operations = authoring_operations(round_count);
    let mut i: usize = 0;
    assert(asked.skip(0) =~= asked);
    while i < operations.len()
        invariant
            i <= operations.len() == asked.len(),
            asked == authoring_decisions(*decisions, round_count),
            operations@ == operations_of(round_count),
            p == (|d: OperationDecision| !d.allowed),
            crate::lists::first_match(asked.skip(i as int), p) == crate::lists::first_match(
                asked,
                p,
            ),
        decreases operations.len() - i,
    {
        proof {
            crate::lists::first_match_steps(asked, p, i as int);
        }
        let decision = decisions.on(operations[i]);
        assert(*decision == asked[i as int]);
        if !decision.allowed {
            return Some(decision);
        }
        i = i + 1;
    }
    None
}

/// The operations that authoring a goal takes, in the order in which the
/// workflow is asked.
pub fn authoring_operations(round_count: usize) -> (r: Vec<GoalOperation>)
    ensures
        r@ == operations_of(round_count),
{
    let round = if round_count == 0 {
        GoalOperation::SubmitNewRound
    } else {
        GoalOperation::EditLatestRound
    };
    let r = vec![GoalOperation::EditMetadata, round, GoalOperation::ReorderInFeature];
    assert(r@ =~= operations_of(round_count));
    r
}

fn check_naming(request: &GoalAuthoringRequest, context: &AuthoringContext) -> (r: Option<
    RefineError,
>)
    ensures
        crate::errors::error_view(r) == naming_refusal(*request, *context),
{
    let goal_id = filled_text(&request.goal_id);
    if goal_id.is_some() && filled_text(&request.id).is_some() {
        return Some(
            RefineError::InvalidInput("id cannot be supplied when editing a Goal".to_owned()),
        );
    }
    if goal_id.is_none() && filled_text(&request.name).is_none() && context.derived_name.is_none() {
        return Some(RefineError::InvalidInput("Goal name is required".to_owned()));
    }
    None
}

fn check_people(request: &GoalAuthoringRequest, feature_inline: bool) -> (r: Option<RefineError>)
    ensures
        crate::errors::error_view(r) == people_stage(*request, feature_inline),
{
    let reporter = match FileWorkItemService::validate_goal_reporter(&request.reporter) {
        Ok(reporter) => reporter,
        Err(e) => {
            return Some(e);
        },
    };
    if feature_inline && (reporter.is_empty() || trim(request.prompt.as_str()).is_empty()) {
        return Some(RefineError::InvalidInput("reporter and prompt are required".to_owned()));
    }
    if GoalPriority::parse_wire(trim(request.priority.as_str())).is_none() {
        proof {
            let priority = crate::text::trimmed(request.priority@);
            assert(priority != crate::model::priority_name(GoalPriority::Low));
            assert(priority != crate::model::priority_name(GoalPriority::Medium));
            assert(priority != crate::model::priority_name(GoalPriority::High));
        }
        return Some(
            RefineError::InvalidInput("priority must be one of low, medium, or high".to_owned()),
        );
    }
    if let Some(assignee) = &request.assignee {
        if let Err(e) = FileWorkItemService::validate_goal_assignee(assignee) {
            return Some(e);
        }
    }
    None
}

fn check_placement(request: &GoalAuthoringRequest, context: &AuthoringContext) -> (r: Option<
    RefineError,
>)
    ensures
        crate::errors::error_view(r) == placement_stage(*request, *context),
{
    match filled_text(&request.feature_id) {
        Some(feature) => match FileWorkItemService::validate_feature_goal_placement(
            feature,
            filled_text(&request.goal_id),
            &request.placement,
            &context.prerequisite,
        ) {
            Ok(_) => None,
            Err(e) => Some(e),
        },
        None => match &request.placement {
            FeatureGoalPlacement::Unordered => None,
            _ => Some(RefineError::InvalidInput("Goal placement requires a Feature".to_owned())),
        },
    }
}

fn asked_assignee(request: &GoalAuthoringRequest) -> (r: Option<&str>)
    ensures
        crate::text::borrowed_view(r) == assignee_of(*request),
{
    match &request.assignee {
        Some(a) => {
            let name = trim(a.text.as_str());
            if name.is_empty() {
                None
            } else {
                Some(name)
            }
        },
        None => None,
    }
}

fn named_duplicate(
    duplicate: GoalAuthoringDuplicate,
    action: Option<&str>,
    move_result: Option<GoalAuthoringDuplicateMove>,
) -> (r: GoalAuthoringResult)
    ensures
        r@ == duplicate_result(
            duplicate@,
            crate::text::borrowed_view(action),
            match move_result {
                Some(m) => Some(m@),
                None => None,
            },
        ),
{
    GoalAuthoringResult {
        created: false,
        goal: None,
        requires_duplicate_decision: action.is_none(),
        duplicate_action: owned_text(action),
        duplicate: Some(duplicate),
        move_result,
    }
}

fn move_back(duplicate: &GoalAuthoringDuplicate, moved: bool) -> (r: GoalAuthoringDuplicateMove)
    ensures
        r@ == moved_back(duplicate@, moved),
{
    if duplicate.status == GoalStatus::Backlog {
        GoalAuthoringDuplicateMove {
            moved: false,
            from: duplicate.status,
            to: GoalStatus::Backlog,
            reason: Some("already_backlog".to_owned()),
        }
    } else {
        let reason = if moved {
            None
        } else {
            Some("protected_status".to_owned())
        };
        GoalAuthoringDuplicateMove {
            moved,
            from: duplicate.status,
            to: GoalStatus::Backlog,
            reason,
        }
    }
}

/// What came of a request whose duplicate was to go back to the backlog.
pub fn original_moved(duplicate: GoalAuthoringDuplicate, moved: bool) -> (r: GoalAuthoringResult)
    ensures
        r@ == duplicate_result(
            duplicate@,
            Some("move_original_to_backlog"@),
            Some(moved_back(duplicate@, moved)),
        ),
{
    let result = move_back(&duplicate, moved);
    named_duplicate(duplicate, Some("move_original_to_backlog"), Some(result))
}

/// What came of a request that wrote a goal down.
pub fn goal_written(plan: &AuthoringPlan, saved: GoalIndexProjection) -> (r: GoalAuthoringResult)
    ensures
        r@ == (AuthoringResultView {
            created: !(plan is Edit),
            goal: Some(saved),
            duplicate_action: None,
            duplicate: None,
            move_result: None,
            requires_duplicate_decision: false,
        }),
{
    let created = match plan {
        AuthoringPlan::Edit(_) => false,
        _ => true,
    };
    GoalAuthoringResult {
        created,
        goal: Some(saved),
        duplicate_action: None,
        duplicate: None,
        move_result: None,
        requires_duplicate_decision: false,
    }
}

fn decide(
    duplicate: GoalAuthoringDuplicate,
    decision: &str,
    snapshot: &ProjectionSnapshot,
    direct: bool,
) -> (r: RefineResult<Option<AuthoringPlan>>)
    ensures
        match r {
            Ok(Some(plan)) => decided(duplicate@, decision@, snapshot.goals@, direct) == Ok::<
                _,
                crate::errors::ErrorView,
            >(Some(plan@)),
            Ok(None) => decided(duplicate@, decision@, snapshot.goals@, direct) == Ok::<
                Option<PlanView>,
                crate::errors::ErrorView,
            >(None),
            Err(e) => decided(duplicate@, decision@, snapshot.goals@, direct) == Err::<
                Option<PlanView>,
                _,
            >(e@),
        },
{
    if decision.is_empty() {
        Ok(Some(AuthoringPlan::Finished(named_duplicate(duplicate, None, None))))
    } else if text_eq(decision, "duplicate") {
        Ok(Some(AuthoringPlan::Finished(named_duplicate(duplicate, Some("duplicate"), None))))
    } else if text_eq(decision, "move_original_to_backlog") {
        if duplicate.status == GoalStatus::Backlog || (direct && !snapshot.goals.contains_key(
            duplicate.id.as_str(),
        )) {
            Ok(Some(AuthoringPlan::Finished(original_moved(duplicate, false))))
        } else {
            Ok(Some(AuthoringPlan::MoveOriginal(duplicate)))
        }
    } else if text_eq(decision, "original") {
        Ok(None)
    } else {
        let mut m = "unknown duplicate_decision: ".to_owned();
        m.append(decision);
        Err(RefineError::InvalidInput(m))
    }
}

impl FileWorkItemService {
    /// Whether a goal can be authored, by what the workflow says in its status
    /// of the operations that authoring it takes. The first of them that is
    /// refused gives the reason.
    pub fn feature_goal_authoring_capability(
        goal: &GoalSummaryProjection,
        decisions: &AuthoringDecisions,
    ) -> (r: FeatureGoalAuthoringCapability)
        ensures
            match first_denial(authoring_decisions(*decisions, goal.goal.round_count)) {
                Some(d) => !r.editable && r.reason == d.reason,
                None => r.editable && r.reason is None,
            },
    {
        match find_denial(decisions, goal.goal.round_count) {
            Some(d) => FeatureGoalAuthoringCapability { editable: false, reason: d.reason.clone() },
            None => FeatureGoalAuthoringCapability { editable: true, reason: None },
        }
    }

    fn check_feature(
        &self,
        request: &GoalAuthoringRequest,
        snapshot: &ProjectionSnapshot,
        context: &AuthoringContext,
    ) -> (r: Option<RefineError>)
        ensures
            crate::errors::error_view(r) == feature_stage(
                *self,
                *request,
                *snapshot,
                *context,
            ),
    {
        match filled_text(&request.feature_id) {
            None => None,
            Some(id) => match snapshot.features.get(id) {
                Some(feature) => match self.ensure_feature_owned(
                    &feature.feature,
                    &context.registered_node,
                ) {
                    Ok(_) => None,
                    Err(e) => Some(e),
                },
                None => Some(feature_not_found_error(id)),
            },
        }
    }

    fn check_current(
        &self,
        request: &GoalAuthoringRequest,
        snapshot: &ProjectionSnapshot,
        context: &AuthoringContext,
    ) -> (r: Option<RefineError>)
        ensures
            crate::errors::error_view(r) == current_stage(
                *self,
                *request,
                *snapshot,
                *context,
            ),
    {
        let id = match filled_text(&request.goal_id) {
            Some(id) => id,
            None => {
                return None;
            },
        };
        let current = match snapshot.goals.get(id) {
            Some(current) => current,
            None => {
                return Some(goal_not_found_error(id));
            },
        };
        let goal = &current.goal;
        if let Err(e) = self.ensure_goal_index_owned(goal, &context.registered_node) {
            return Some(e);
        }
        let feature = filled_text(&request.feature_id);
        if !same_text(&goal.feature_id, feature) {
            let shown = match feature {
                Some(f) => f,
                None => "",
            };
            let mut m = "Goal ".to_owned();
            m.append(goal.id.as_str());
            m.append(" is not assigned to Feature ");
            m.append(shown);
            return Some(RefineError::Conflict(m));
        }
        let capability = FileWorkItemService::feature_goal_authoring_capability(
            current,
            &context.decisions,
        );
        if !capability.editable {
            return Some(
                RefineError::InvalidInput(
                    match capability.reason {
                        Some(reason) => reason,
                        None => "Goal cannot be authored in its current status".to_owned(),
                    },
                ),
            );
        }
        if filled_text(&request.name).is_none() {
            return Some(RefineError::InvalidInput("Goal name is required when editing".to_owned()));
        }
        None
    }

    fn check_authoring(
        &self,
        request: &GoalAuthoringRequest,
        feature_inline: bool,
        snapshot: &ProjectionSnapshot,
        context: &AuthoringContext,
    ) -> (r: Option<RefineError>)
        ensures
            crate::errors::error_view(r) == authoring_refusal(
                *self,
                *request,
                feature_inline,
                *snapshot,
                *context,
            ),
    {
        if let Some(e) = check_naming(request, context) {
            return Some(e);
        }
        if let Some(e) = self.check_feature(request, snapshot, context) {
            return Some(e);
        }
        if let Some(e) = check_people(request, feature_inline) {
            return Some(e);
        }
        if let Some(e) = self.check_current(request, snapshot, context) {
            return Some(e);
        }
        check_placement(request, context)
    }

    /// What a request to write a goal down leads to.
    pub fn author_goal_with_context(
        &self,
        request: &GoalAuthoringRequest,
        feature_inline: bool,
        snapshot: &ProjectionSnapshot,
        direct_create: bool,
        context: &AuthoringContext,
    ) -> (r: RefineResult<AuthoringPlan>)
        ensures
            crate::errors::viewed(r) == authoring_plan(
                *self,
                *request,
                feature_inline,
                *snapshot,
                direct_create,
                *context,
            ),
    {
        if let Some(e) = self.check_authoring(request, feature_inline, snapshot, context) {
            return Err(e);
        }
        let prompt = trim(request.prompt.as_str());
        let priority = trim(request.priority.as_str());
        let reporter = trim(request.reporter.text.as_str());
        let assignee = asked_assignee(request);
        let feature_id = owned_text(filled_text(&request.feature_id));
        if let Some(id) = filled_text(&request.goal_id) {
            match snapshot.goals.get(id) {
                Some(goal) => {
                    let goal = &goal.goal;
                    let assignee = match assignee {
                        Some(a) => a,
                        None => match &goal.assignee {
                            Some(a) => a.as_str(),
                            None => reporter,
                        },
                    };
                    return Ok(
                        AuthoringPlan::Edit(
                            AuthoredEdit {
                                goal_id: goal.id.clone(),
                                name: request.name.clone(),
                                priority: priority.to_owned(),
                                reporter: reporter.to_owned(),
                                assignee: assignee.to_owned(),
                                prompt: prompt.to_owned(),
                                first_round: goal.round_count == 0,
                                feature_id,
                            },
                        ),
                    );
                },
                None => {
                    return Err(goal_not_found_error(id));
                },
            }
        }
        let id = filled_text(&request.id);
        if id.is_none() {
            if let Some(duplicate) = FileWorkItemService::latest_round_duplicate_in_snapshot(
                snapshot,
                prompt,
            ) {
                let decision = trim(request.duplicate_decision.as_str());
                match decide(duplicate, decision, snapshot, direct_create) {
                    Err(e) => {
                        return Err(e);
                    },
                    Ok(Some(plan)) => {
                        return Ok(plan);
                    },
                    Ok(None) => {},
                }
            }
        }
        let name = match filled_text(&request.name) {
            Some(name) => name.to_owned(),
            None => match &context.derived_name {
                Some(name) => name.clone(),
                None => {
                    return Err(RefineError::InvalidInput("Goal name is required".to_owned()));
                },
            },
        };
        let goal = AuthoredGoal {
            name,
            id: owned_text(id),
            priority: priority.to_owned(),
            reporter: reporter.to_owned(),
            assignee: owned_text(assignee),
            prompt: prompt.to_owned(),
            feature_id,
        };
        if direct_create {
            Ok(AuthoringPlan::CreateDirect(goal))
        } else {
            Ok(AuthoringPlan::Create(goal))
        }
    }

    /// What a request to write a goal of a feature down leads to.
    pub fn author_feature_goal(
        &self,
        feature_id: &str,
        request: FeatureGoalAuthoringRequest,
        snapshot: &ProjectionSnapshot,
        context: &AuthoringContext,
    ) -> (r: RefineResult<AuthoringPlan>)
        ensures
            exists|made: GoalAuthoringRequest| #[trigger]
                inline_request(feature_id@, request, made)
                    && crate::errors::viewed(r) == authoring_plan(
                    *self,
                    made,
                    true,
                    *snapshot,
                    false,
                    *context,
                ),
    {
        let made = GoalAuthoringRequest {
            goal_id: request.goal_id,
            id: None,
            name: request.name,
            prompt: request.prompt,
            reporter: request.reporter,
            assignee: request.assignee,
            priority: request.priority,
            feature_id: Some(feature_id.to_owned()),
            placement: request.placement,
            duplicate_decision: request.duplicate_decision,
        };
        assert(inline_request(feature_id@, request, made));
        self.author_goal_with_context(&made, true, snapshot, false, context)
    }

    /// What a request to write a goal down leads to.
    pub fn author_goal(
        &self,
        request: &GoalAuthoringRequest,
        snapshot: &ProjectionSnapshot,
        context: &AuthoringContext,
    ) -> (r: RefineResult<AuthoringPlan>)
        ensures
            crate::errors::viewed(r) == authoring_plan(
                *self,
                *request,
                false,
                *snapshot,
                false,
                *context,
            ),
    {
        self.author_goal_with_context(request, false, snapshot, false, context)
    }

    /// What a request to write a goal down leads to, judged by a projection
    /// that the caller keeps. A new goal is created in one write.
    pub fn author_goal_from_projection(
        &self,
        request: &GoalAuthoringRequest,
        snapshot: &ProjectionSnapshot,
        context: &AuthoringContext,
    ) -> (r: RefineResult<AuthoringPlan>)
        ensures
            crate::errors::viewed(r) == authoring_plan(
                *self,
                *request,
                false,
                *snapshot,
                true,
                *context,
            ),
    {
        self.author_goal_with_context(request, false, snapshot, true, context)
    }

    /// The first goal whose latest round asks for the same.
    pub fn latest_round_duplicate(&self, snapshot: &ProjectionSnapshot, prompt: &str) -> (r: Option<
        GoalAuthoringDuplicate,
    >)
        ensures
            match r {
                Some(d) => duplicate_of(*snapshot, prompt@) == Some(d@),
                None => duplicate_of(*snapshot, prompt@) is None,
            },
    {
        FileWorkItemService::latest_round_duplicate_in_snapshot(snapshot, prompt)
    }

    /// The first goal of a projection whose latest round asks for the same.
    pub fn latest_round_duplicate_in_snapshot(snapshot: &ProjectionSnapshot, prompt: &str) -> (r:
        Option<GoalAuthoringDuplicate>)
        ensures
            match r {
                Some(d) => duplicate_of(*snapshot, prompt@) == Some(d@),
                None => duplicate_of(*snapshot, prompt@) is None,
            },
    {
        if prompt.is_empty() {
            return None;
        }
        let n: usize = snapshot.goals.len();
        let ghost values = snapshot.goals.values();
        let ghost p = asks_for(prompt@);
        let mut i: usize = 0;
        assert(values.skip(0) =~= values);
        while i < n
            invariant
                i <= n == snapshot.goals.keys().len() == snapshot.goals.values().len(),
                values == snapshot.goals.values(),
                p == asks_for(prompt@),
                prompt@.len() > 0,
                crate::lists::first_match(values.skip(i as int), p) == crate::lists::first_match(
                    values,
                    p,
                ),
            decreases n - i,
        {
            proof {
                crate::lists::first_match_steps(values, p, i as int);
            }
            let goal = snapshot.goals.value_at(i);
            if same_text(&goal.latest_round_prompt, Some(prompt)) {
                return Some(
                    GoalAuthoringDuplicate {
                        id: goal.goal.id.clone(),
                        name: goal.goal.name.clone(),
                        status: goal.goal.status,
                        node_id: goal.goal.node_id.clone(),
                        node_display_name: goal.node_display_name.clone(),
                        prompt: prompt.to_owned(),
                    },
                );
            }
            i = i + 1;
        }
        None
    }
}

/// A goal that is created in one write.
pub struct AuthoredRecord {
    pub goal: NewGoal,
    /// What the projection will hold of the goal.
    pub projection: RefineResult<GoalSummaryProjection>,
}

/// An authored goal starts with a round where it has a reporter and a prompt.
pub open spec fn starts_with_round(goal: AuthoredView) -> bool {
    goal.reporter.len() > 0 && goal.prompt.len() > 0
}

/// Who is to do the first round.
pub open spec fn round_assignee(goal: AuthoredView) -> Seq<char> {
    match goal.assignee {
        Some(a) => a,
        None => goal.reporter,
    }
}

/// The changes to a new goal that is created step by step.
#[derive(Debug)]
pub struct CreationSteps {
    pub metadata: MetadataEdit,
    /// The first round, where the goal starts with one.
    pub round: Option<RoundInput>,
}

/// The changes that an authored change makes.
#[derive(Debug)]
pub struct EditSteps {
    pub metadata: MetadataEdit,
    /// The first round, where the goal has none yet.
    pub append: Option<RoundInput>,
    /// The change to the latest round, where the goal has one.
    pub rewrite: Option<RoundEdit>,
}

/// The metadata that a change sets.
pub open spec fn sets_metadata(
    edit: MetadataEdit,
    name: Option<Seq<char>>,
    priority: Option<Seq<char>>,
    reporter: Seq<char>,
) -> bool {
    &&& crate::text::maybe_view(edit.name) == name
    &&& crate::text::maybe_view(edit.priority) == priority
    &&& edit.reporter matches Some(person) && person.text@ == reporter && person.acceptable
    &&& edit.assignee is None
}

/// The parts of a round that is appended.
pub open spec fn gives_round(
    input: RoundInput,
    reporter: Seq<char>,
    assignee: Seq<char>,
    acceptable: bool,
    prompt: Seq<char>,
) -> bool {
    &&& input.reporter.text@ == reporter
    &&& input.reporter.acceptable
    &&& input.prompt@ == prompt
    &&& input.assignee matches Some(person) && person.text@ == assignee && person.acceptable
        == acceptable
}

/// What follows the creation of a goal: the priority is set unless it is the
/// one that new goals have, the reporter is set, and the first round is
/// appended.
pub open spec fn follows_creation(goal: AuthoredView, steps: CreationSteps) -> bool {
    &&& sets_metadata(
        steps.metadata,
        None,
        if goal.priority == "low"@ {
            None
        } else {
            Some(goal.priority)
        },
        goal.reporter,
    )
    &&& match steps.round {
        Some(input) => starts_with_round(goal) && gives_round(
            input,
            goal.reporter,
            round_assignee(goal),
            true,
            goal.prompt,
        ),
        None => !starts_with_round(goal),
    }
}

/// What an authored change leads to: the metadata is set, and the first round
/// is appended or the latest one rewritten.
pub open spec fn makes_change(edit: EditView, acceptable: bool, steps: EditSteps) -> bool {
    &&& sets_metadata(steps.metadata, edit.name, Some(edit.priority), edit.reporter)
    &&& match steps.append {
        Some(input) => edit.first_round && gives_round(
            input,
            edit.reporter,
            edit.assignee,
            acceptable,
            edit.prompt,
        ),
        None => !edit.first_round,
    }
    &&& match steps.rewrite {
        Some(rewrite) => !edit.first_round && rewrites_round(rewrite, edit, acceptable),
        None => edit.first_round,
    }
}

/// The change to a round sets its reporter, its assignee and its prompt.
pub open spec fn rewrites_round(rewrite: RoundEdit, edit: EditView, acceptable: bool) -> bool {
    &&& rewrite.reporter matches Some(person) && person.text@ == edit.reporter && person.acceptable
    &&& rewrite.assignee matches Some(other) && other.text@ == edit.assignee && other.acceptable
        == acceptable
    &&& crate::text::maybe_view(rewrite.prompt) == Some(edit.prompt)
}

fn named_person(text: &str, acceptable: bool) -> (r: PersonName)
    ensures
        r.text@ == text@,
        r.acceptable == acceptable,
{
    PersonName { text: text.to_owned(), acceptable }
}

/// The changes to a new goal that is created step by step.
pub fn creation_steps(goal: &AuthoredGoal) -> (r: CreationSteps)
    ensures
        follows_creation(goal@, r),
{
    let priority = if text_eq(goal.priority.as_str(), "low") {
        None
    } else {
        Some(goal.priority.as_str().to_owned())
    };
    let metadata = MetadataEdit {
        name: None,
        priority,
        reporter: Some(named_person(goal.reporter.as_str(), true)),
        assignee: None,
    };
    let round = if !goal.reporter.as_str().is_empty() && !goal.prompt.as_str().is_empty() {
        let assignee = match &goal.assignee {
            Some(a) => a.as_str(),
            None => goal.reporter.as_str(),
        };
        Some(
            RoundInput {
                reporter: named_person(goal.reporter.as_str(), true),
                assignee: Some(named_person(assignee, true)),
                prompt: goal.prompt.as_str().to_owned(),
            },
        )
    } else {
        None
    };
    CreationSteps { metadata, round }
}

/// The changes that an authored change makes. `acceptable` says whether the
/// naming rules accept the assignee, who may come from the stored goal.
pub fn edit_steps(edit: &AuthoredEdit, acceptable: bool) -> (r: EditSteps)
    ensures
        makes_change(edit@, acceptable, r),
{
    let name = match &edit.name {
        Some(n) => Some(n.as_str().to_owned()),
        None => None,
    };
    let metadata = MetadataEdit {
        name,
        priority: Some(edit.priority.as_str().to_owned()),
        reporter: Some(named_person(edit.reporter.as_str(), true)),
        assignee: None,
    };
    let reporter = named_person(edit.reporter.as_str(), true);
    let assignee = Some(named_person(edit.assignee.as_str(), acceptable));
    let prompt = edit.prompt.as_str().to_owned();
    if edit.first_round {
        EditSteps {
            metadata,
            append: Some(RoundInput { reporter, assignee, prompt }),
            rewrite: None,
        }
    } else {
        EditSteps {
            metadata,
            append: None,
            rewrite: Some(
                RoundEdit { reporter: Some(reporter), assignee, prompt: Some(prompt) },
            ),
        }
    }
}

/// The parts of an authored goal's first round.
pub open spec fn first_round(goal: AuthoredView) -> crate::work_items::rounds::NewRoundView {
    crate::work_items::rounds::NewRoundView {
        reporter: goal.reporter,
        assignee: round_assignee(goal),
        prompt: goal.prompt,
    }
}

/// The record of an authored goal. `round` holds what a round starts out with
/// besides its parts.
pub open spec fn authored_goal(
    service: FileWorkItemService,
    goal: AuthoredView,
    generated: Seq<char>,
    taken: bool,
    registered: RefineResult<String>,
    round: crate::json::JsonView,
    now: Seq<char>,
) -> Result<crate::work_items::queries::NewGoalView, crate::errors::ErrorView> {
    match crate::work_items::queries::goal_id_of(goal.id, generated) {
        Err(e) => Err(e),
        Ok(id) => if taken {
            Err(crate::work_items::queries::id_taken(id))
        } else {
            match crate::work_items::active_node(service, registered) {
                Err(e) => Err(e),
                Ok(node) => Ok(
                    crate::work_items::queries::NewGoalView {
                        id,
                        path: crate::paths::joined(
                            service.refine_dir@,
                            crate::work_items::queries::relative_path(id),
                        ),
                        json_path: crate::text::replaced_all(
                            crate::work_items::queries::relative_path(id),
                            "\\"@,
                            "/"@,
                        ),
                        record: crate::work_items::queries::first_record(
                            id,
                            goal.name,
                            goal.priority,
                            crate::work_items::records::text_or_null(goal.reporter),
                            match goal.feature_id {
                                Some(f) => crate::json::JsonView::Text(f),
                                None => crate::json::JsonView::Null,
                            },
                            node,
                            now,
                            if starts_with_round(goal) {
                                seq![
                                    crate::work_items::rounds::round_value(
                                        round,
                                        first_round(goal),
                                    ),
                                ]
                            } else {
                                Seq::empty()
                            },
                        ),
                    },
                ),
            }
        },
    }
}

/// The lines of an authored goal's searchable text.
pub open spec fn searchable_lines(goal: AuthoredView) -> Seq<Seq<char>> {
    if starts_with_round(goal) {
        seq![goal.name, goal.reporter, round_assignee(goal), goal.prompt]
    } else {
        seq![goal.name, goal.reporter]
    }
}

/// What the projection holds of an authored goal.
pub open spec fn projects_authored(
    goal: AuthoredView,
    made: crate::work_items::queries::NewGoalView,
    node: Seq<char>,
    now: Seq<char>,
    p: GoalSummaryProjection,
) -> bool {
    let round = starts_with_round(goal);
    &&& p.goal.id@ == made.id
    &&& p.goal.name@ == goal.name
    &&& p.goal.status == GoalStatus::Backlog
    &&& crate::model::priority_name(p.goal.priority) == goal.priority
    &&& crate::text::maybe_view(p.goal.reporter) == if goal.reporter.len() == 0 {
        None
    } else {
        Some(goal.reporter)
    }
    &&& crate::text::maybe_view(p.goal.assignee) == if round {
        Some(round_assignee(goal))
    } else {
        None
    }
    &&& p.goal.round_count == if round {
        1int
    } else {
        0
    }
    &&& p.goal.created@ == now
    &&& p.goal.updated@ == now
    &&& p.goal.branch_name is None
    &&& crate::text::maybe_view(p.goal.node_id) == Some(node)
    &&& crate::text::maybe_view(p.goal.feature_id) == goal.feature_id
    &&& p.goal.feature_order is None
    &&& p.goal.json_path@ == made.json_path
    &&& p.node_display_name is None
    &&& crate::text::maybe_view(p.latest_round_prompt) == if round {
        Some(goal.prompt)
    } else {
        None
    }
    &&& p.searchable_text@ == crate::text::joined_lines(searchable_lines(goal))
    &&& p.activity_ids@.len() == 0
}

/// A created goal: its record, and what the projection will hold of it.
pub open spec fn creates(
    service: FileWorkItemService,
    goal: AuthoredView,
    generated: Seq<char>,
    taken: bool,
    registered: RefineResult<String>,
    round: crate::json::JsonView,
    now: Seq<char>,
    r: RefineResult<AuthoredRecord>,
) -> bool {
    let made = authored_goal(service, goal, generated, taken, registered, round, now);
    match r {
        Err(e) => made == Err::<crate::work_items::queries::NewGoalView, _>(e@),
        Ok(a) => {
            &&& made == Ok::<_, crate::errors::ErrorView>(a.goal@)
            &&& match a.projection {
                Ok(p) => crate::work_items::rounds::is_priority(goal.priority)
                    && projects_authored(
                    goal,
                    a.goal@,
                    crate::work_items::active_node(service, registered)->Ok_0,
                    now,
                    p,
                ),
                Err(e) => !crate::work_items::rounds::is_priority(goal.priority) && e@
                    == crate::work_items::rounds::unknown_priority(),
            }
        },
    }
}

impl FileWorkItemService {
    /// A goal that is created in one write, as of a given time. `taken` tells
    /// whether a record is already stored under its id, and `round` holds what
    /// a round starts out with besides its reporter, assignee and prompt.
    pub fn create_authored_goal_at(
        &self,
        goal: &AuthoredGoal,
        generated_id: &str,
        taken: bool,
        registered: &RefineResult<String>,
        round: &Json,
        now: &str,
    ) -> (r: RefineResult<AuthoredRecord>)
        ensures
            creates(*self, goal@, generated_id@, taken, *registered, round@, now@, r),
    {
        let id = match &goal.id {
            Some(id) => Some(id.as_str()),
            None => None,
        };
        let goal_id = match resolve_goal_id(id, generated_id) {
            Ok(goal_id) => goal_id,
            Err(e) => {
                return Err(e);
            },
        };
        if taken {
            return Err(id_taken_error(goal_id.as_str()));
        }
        let node_id = match self.active_node_id(registered) {
            Ok(node_id) => node_id,
            Err(e) => {
                return Err(e);
            },
        };
        let reporter = goal.reporter.as_str();
        let assignee = match &goal.assignee {
            Some(a) => a.as_str(),
            None => reporter,
        };
        let with_round = !reporter.is_empty() && !goal.prompt.as_str().is_empty();
        let mut rounds: Vec<Json> = Vec::new();
        if with_round {
            let parts = NewRound {
                reporter: reporter.to_owned(),
                assignee: assignee.to_owned(),
                prompt: goal.prompt.clone(),
            };
            rounds.push(new_round_value(round, &parts));
        }
        assert(crate::json::json_views(rounds@) =~= if with_round {
            seq![crate::work_items::rounds::round_value(round@, first_round(goal@))]
        } else {
            Seq::empty()
        });
        let feature = match &goal.feature_id {
            Some(f) => Json::text(f.as_str()),
            None => Json::null(),
        };
        let record = new_record(
            goal_id.as_str(),
            goal.name.as_str(),
            goal.priority.as_str(),
            text_or_null_value(reporter),
            feature,
            node_id.as_str(),
            now,
            rounds,
        );
        let path = goal_json_path(self.refine_dir.as_str(), goal_id.as_str());
        let json_path = normal_json_path(goal_id.as_str());
        let made = NewGoal {
            id: goal_id.clone(),
            path,
            json_path: json_path.clone(),
            record,
        };
        let priority = match GoalPriority::parse_wire(goal.priority.as_str()) {
            Some(priority) => priority,
            None => {
                proof {
                    assert(goal.priority@ != crate::model::priority_name(GoalPriority::Low));
                    assert(goal.priority@ != crate::model::priority_name(GoalPriority::Medium));
                    assert(goal.priority@ != crate::model::priority_name(GoalPriority::High));
                }
                return Ok(
                    AuthoredRecord {
                        goal: made,
                        projection: Err(
                            RefineError::InvalidInput(
                                "priority must be one of low, medium, or high".to_owned(),
                            ),
                        ),
                    },
                );
            },
        };
        let mut lines: Vec<String> = vec![goal.name.clone(), reporter.to_owned()];
        if with_round {
            lines.push(assignee.to_owned());
            lines.push(goal.prompt.clone());
        }
        assert(crate::text::views(lines@) =~= searchable_lines(goal@));
        let shown_reporter = if reporter.is_empty() {
            None
        } else {
            Some(reporter.to_owned())
        };
        let shown_assignee = if with_round {
            Some(assignee.to_owned())
        } else {
            None
        };
        let latest_round_prompt = if with_round {
            Some(goal.prompt.clone())
        } else {
            None
        };
        let round_count: usize = if with_round { 1 } else { 0 };
        let projection = GoalSummaryProjection {
            goal: GoalIndexProjection {
                id: goal_id,
                name: goal.name.clone(),
                status: GoalStatus::Backlog,
                priority,
                reporter: shown_reporter,
                assignee: shown_assignee,
                round_count,
                created: now.to_owned(),
                updated: now.to_owned(),
                branch_name: None,
                node_id: Some(node_id),
                feature_id: goal.feature_id.clone(),
                feature_order: None,
                json_path,
            },
            node_display_name: None,
            latest_round_prompt,
            searchable_text: join_lines(&lines),
            activity_ids: Vec::new(),
        };
        Ok(AuthoredRecord { goal: made, projection: Ok(projection) })
    }

    /// A goal that is created in one write.
    pub fn create_authored_goal(
        &self,
        goal: &AuthoredGoal,
        generated_id: &str,
        taken: bool,
        registered: &RefineResult<String>,
        round: &Json,
    ) -> (r: RefineResult<AuthoredRecord>)
        ensures
            exists|now: Seq<char>| #[trigger]
                creates(*self, goal@, generated_id@, taken, *registered, round@, now, r),
    {
        let now = timestamp();
        self.create_authored_goal_at(goal, generated_id, taken, registered, round, now.as_str())
    }
}

/// A goal that asks for the same as another is created only under an id of its
/// own, or where the request says that it is an original.
pub proof fn duplicates_are_not_created_unasked(
    service: FileWorkItemService,
    request: GoalAuthoringRequest,
    feature_inline: bool,
    snapshot: ProjectionSnapshot,
    direct: bool,
    context: AuthoringContext,
)
    requires
        duplicate_of(snapshot, crate::text::trimmed(request.prompt@)) is Some,
        authoring_plan(service, request, feature_inline, snapshot, direct, context) is Ok,
        ({
            let plan = authoring_plan(
                service,
                request,
                feature_inline,
                snapshot,
                direct,
                context,
            )->Ok_0;
            plan is Create || plan is CreateDirect
        }),
    ensures
        filled(request.id) is Some || crate::text::trimmed(request.duplicate_decision@)
            == "original"@,
{
}

/// No request writes a goal into a feature that another node owns.
pub proof fn foreign_features_get_no_goals(
    service: FileWorkItemService,
    request: GoalAuthoringRequest,
    feature_inline: bool,
    snapshot: ProjectionSnapshot,
    direct: bool,
    context: AuthoringContext,
    node: Seq<char>,
)
    requires
        filled(request.feature_id) matches Some(id) && snapshot.features@.contains_key(id)
            && crate::model::effective_owner(snapshot.features@[id].feature.node_id) != node,
        crate::work_items::active_node(service, context.registered_node) == Ok::<
            _,
            crate::errors::ErrorView,
        >(node),
    ensures
        authoring_plan(service, request, feature_inline, snapshot, direct, context) is Err,
{
}

/// A change to a goal keeps it in the feature it belongs to, and is only
/// planned for a goal that the active node owns.
pub proof fn edits_stay_in_their_feature(
    service: FileWorkItemService,
    request: GoalAuthoringRequest,
    feature_inline: bool,
    snapshot: ProjectionSnapshot,
    direct: bool,
    context: AuthoringContext,
)
    requires
        authoring_plan(service, request, feature_inline, snapshot, direct, context) is Ok,
        authoring_plan(service, request, feature_inline, snapshot, direct, context)->Ok_0 is Edit,
    ensures
        ({
            let edit = authoring_plan(
                service,
                request,
                feature_inline,
                snapshot,
                direct,
                context,
            )->Ok_0->Edit_0;
            let goal = snapshot.goals@[filled(request.goal_id)->0].goal;
            &&& filled(request.goal_id) is Some
            &&& snapshot.goals@.contains_key(filled(request.goal_id)->0)
            &&& edit.feature_id == crate::text::maybe_view(goal.feature_id)
            &&& crate::work_items::active_node(service, context.registered_node) == Ok::<
                _,
                crate::errors::ErrorView,
            >(crate::model::effective_owner(goal.node_id))
        }),
{
}

} // verus!

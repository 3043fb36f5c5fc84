//! What a request to write a goal down leads to.
use vstd::prelude::*;

use crate::errors::RefineResult;
use crate::model::{GoalIndexProjection, GoalSummaryProjection, ProjectionSnapshot};
use crate::work_items::authoring::{
    AuthoredRecord, AuthoringContext, AuthoringDecisions, CreationSteps, EditSteps,
    FeatureGoalAuthoringRequest, GoalAuthoringRequest,
};
use crate::work_items::FileWorkItemService;

verus! {

/// A request gives a text: it is there and holds more than white space.
pub open spec fn gives(text: Option<String>) -> bool {
    text is Some && !crate::laws::texts::only_spaces((text->0)@)
}

/// A given text without the white space around it.
pub open spec fn given(text: Option<String>) -> Seq<char> {
    crate::text::trimmed((text->0)@)
}

/// The workflow lets a goal with so many rounds be authored: its metadata may be
/// edited, its first round submitted or its latest one edited, and it may be
/// moved in its feature.
pub open spec fn may_be_authored(decisions: AuthoringDecisions, round_count: usize) -> bool {
    &&& decisions.edit_metadata.allowed
    &&& round_count == 0 ==> decisions.submit_new_round.allowed
    &&& round_count > 0 ==> decisions.edit_latest_round.allowed
    &&& decisions.reorder_in_feature.allowed
}

/// The goal of a feature or of none is the one that a request names.
pub open spec fn same_feature(feature: Option<String>, asked: Option<String>) -> bool {
    if gives(asked) {
        feature is Some && (feature->0)@ == given(asked)
    } else {
        feature is None
    }
}

/// The ids and the name of a request fit together.
pub open spec fn is_named(request: GoalAuthoringRequest, context: AuthoringContext) -> bool {
    &&& !(gives(request.goal_id) && gives(request.id))
    &&& gives(request.goal_id) || gives(request.name) || context.derived_name is Some
}

/// The feature of a request is known and belongs to the node.
pub open spec fn feature_is_open(
    request: GoalAuthoringRequest,
    snapshot: ProjectionSnapshot,
    node: Seq<char>,
) -> bool {
    gives(request.feature_id) ==> snapshot.features@.contains_key(given(request.feature_id))
        && crate::laws::owning::belongs_to_node(
        snapshot.features@[given(request.feature_id)].feature.node_id,
        node,
    )
}

/// The people and the priority of a request are such; a goal that is written in
/// its feature needs a reporter and a prompt.
pub open spec fn people_fit(request: GoalAuthoringRequest, feature_inline: bool) -> bool {
    let priority = crate::text::trimmed(request.priority@);
    &&& crate::laws::editing::is_a_name(request.reporter)
    &&& feature_inline ==> !crate::laws::texts::only_spaces(request.reporter.text@)
        && !crate::laws::texts::only_spaces(request.prompt@)
    &&& priority == "low"@ || priority == "medium"@ || priority == "high"@
    &&& request.assignee is None || crate::laws::editing::is_a_name(request.assignee->0)
}

/// A goal that is to be changed is known, belongs to the node, is in the named
/// feature and may be authored, and the request names it anew.
pub open spec fn goal_is_open(
    request: GoalAuthoringRequest,
    snapshot: ProjectionSnapshot,
    context: AuthoringContext,
    node: Seq<char>,
) -> bool {
    gives(request.goal_id) ==> {
        let goal = snapshot.goals@[given(request.goal_id)].goal;
        &&& snapshot.goals@.contains_key(given(request.goal_id))
        &&& crate::laws::owning::belongs_to_node(goal.node_id, node)
        &&& same_feature(goal.feature_id, request.feature_id)
        &&& may_be_authored(context.decisions, goal.round_count)
        &&& gives(request.name)
    }
}

/// The placement of a request is possible; without a feature there is none.
pub open spec fn placement_fits(request: GoalAuthoringRequest, context: AuthoringContext) -> bool {
    if gives(request.feature_id) {
        request.placement is After ==> {
            let asked = request.placement->After_0@;
            &&& !crate::laws::texts::only_spaces(asked)
            &&& !(gives(request.goal_id) && given(request.goal_id) == crate::text::trimmed(asked))
            &&& context.prerequisite is Some && context.prerequisite->0.ordered
            &&& crate::laws::placing::is_in(
                context.prerequisite->0.summary.goal.feature_id,
                given(request.feature_id),
            )
        }
    } else {
        request.placement is Unordered
    }
}

/// A request is accepted by its parts.
pub open spec fn is_accepted(
    request: GoalAuthoringRequest,
    feature_inline: bool,
    snapshot: ProjectionSnapshot,
    context: AuthoringContext,
    node: Seq<char>,
) -> bool {
    &&& is_named(request, context)
    &&& feature_is_open(request, snapshot, node)
    &&& people_fit(request, feature_inline)
    &&& goal_is_open(request, snapshot, context, node)
    &&& placement_fits(request, context)
}

proof fn texts_are_given(text: Option<String>)
    ensures
        gives(text) ==> crate::work_items::authoring::filled(text) == Some(given(text)),
        !gives(text) ==> crate::work_items::authoring::filled(text) is None,
{
    if text is Some {
        crate::laws::texts::blank_texts_hold_only_white_space((text->0)@);
    }
}

proof fn denials_are_found(decisions: AuthoringDecisions, round_count: usize)
    ensures
        (crate::work_items::authoring::first_denial(crate::work_items::authoring::authoring_decisions(decisions, round_count)) is None) == may_be_authored(
            decisions,
            round_count,
        ),
{
    reveal_with_fuel(crate::lists::first_match, 5);
    let asked = crate::work_items::authoring::authoring_decisions(decisions, round_count);
    assert(asked.len() == 3);
    assert(asked[0] == decisions.edit_metadata);
    assert(asked[2] == decisions.reorder_in_feature);
    let b = asked.drop_first();
    let c = b.drop_first();
    let d = c.drop_first();
    assert(b.first() == asked[1]);
    assert(c.first() == asked[2]);
    assert(asked.first() == asked[0]);
    assert(d.len() == 0);
}

/// A request is refused exactly where one of its parts is.
pub proof fn requests_are_accepted_by_their_parts(
    service: FileWorkItemService,
    request: GoalAuthoringRequest,
    feature_inline: bool,
    snapshot: ProjectionSnapshot,
    context: AuthoringContext,
    node: Seq<char>,
)
    requires
        crate::laws::owning::checked_against(service, context.registered_node, node),
    ensures
        (crate::work_items::authoring::authoring_refusal(service, request, feature_inline, snapshot, context) is None)
            == is_accepted(request, feature_inline, snapshot, context, node),
{
    texts_are_given(request.goal_id);
    texts_are_given(request.id);
    texts_are_given(request.name);
    texts_are_given(request.feature_id);
    crate::laws::editing::only_accepted_names_are_taken(request.reporter);
    crate::laws::texts::blank_texts_hold_only_white_space(request.reporter.text@);
    crate::laws::texts::blank_texts_hold_only_white_space(request.prompt@);
    if request.assignee is Some {
        crate::laws::editing::only_accepted_names_are_taken(request.assignee->0);
    }
    if gives(request.goal_id) {
        denials_are_found(
            context.decisions,
            snapshot.goals@[given(request.goal_id)].goal.round_count,
        );
    }
    if request.placement is After {
        crate::laws::texts::blank_texts_hold_only_white_space(request.placement->After_0@);
    }
}

/// The first goal whose latest round asks for the same.
pub open spec fn is_first_duplicate(
    goals: Seq<GoalSummaryProjection>,
    prompt: Seq<char>,
    at: int,
) -> bool {
    &&& 0 <= at < goals.len()
    &&& asks_the_same(goals[at], prompt)
    &&& forall|i: int| 0 <= i < at ==> !asks_the_same(#[trigger] goals[i], prompt)
}

/// The latest round of a goal asks for this.
pub open spec fn asks_the_same(goal: GoalSummaryProjection, prompt: Seq<char>) -> bool {
    goal.latest_round_prompt is Some && (goal.latest_round_prompt->0)@ == prompt
}

/// Some goal's latest round asks for this.
pub open spec fn is_asked_already(goals: Seq<GoalSummaryProjection>, prompt: Seq<char>) -> bool {
    exists|i: int| 0 <= i < goals.len() && asks_the_same(#[trigger] goals[i], prompt)
}

proof fn first_matches_come_first<T>(s: Seq<T>, p: spec_fn(T) -> bool, at: int)
    requires
        0 <= at < s.len(),
        p(s[at]),
        forall|i: int| 0 <= i < at ==> !p(#[trigger] s[i]),
    ensures
        crate::lists::first_match(s, p) == Some(s[at]),
    decreases at,
{
    if at > 0 {
        let rest = s.drop_first();
        assert(!p(s[0]));
        assert forall|i: int| 0 <= i < at - 1 implies !p(#[trigger] rest[i]) by {
            assert(rest[i] == s[i + 1]);
        }
        assert(rest[at - 1] == s[at]);
        first_matches_come_first(rest, p, at - 1);
    }
}

/// A request is a duplicate exactly where it asks for something and some goal's
/// latest round asks for the same; the first such goal is told as it is.
pub proof fn the_first_duplicate_is_told(snapshot: ProjectionSnapshot, prompt: Seq<char>, at: int)
    ensures
        crate::work_items::authoring::duplicate_of(snapshot, prompt) is Some == (prompt.len() > 0 && is_asked_already(
            snapshot.goals.values(),
            prompt,
        )),
        prompt.len() > 0 && is_first_duplicate(snapshot.goals.values(), prompt, at) ==> ({
            let told = crate::work_items::authoring::duplicate_of(snapshot, prompt)->0;
            let goal = snapshot.goals.values()[at];
            &&& told.id == goal.goal.id@ && told.name == goal.goal.name@ && told.status
                == goal.goal.status && told.prompt == prompt
            &&& told.node_id == crate::text::maybe_view(goal.goal.node_id)
            &&& told.node_display_name == crate::text::maybe_view(goal.node_display_name)
        }),
{
    let goals = snapshot.goals.values();
    let p = crate::work_items::authoring::asks_for(prompt);
    crate::lists::first_match_is_complete(goals, p);
    assert forall|i: int| 0 <= i < goals.len() implies p(#[trigger] goals[i]) == asks_the_same(
        goals[i],
        prompt,
    ) by {}
    if is_asked_already(goals, prompt) {
        let i = choose|i: int| 0 <= i < goals.len() && asks_the_same(#[trigger] goals[i], prompt);
        assert(p(goals[i]));
    }
    if crate::lists::first_match(goals, p) is Some {
        let found = crate::lists::first_match(goals, p)->0;
        let i = goals.index_of(found);
        assert(asks_the_same(goals[i], prompt));
    }
    if is_first_duplicate(goals, prompt, at) {
        assert forall|i: int| 0 <= i < at implies !p(#[trigger] goals[i]) by {
            assert(!asks_the_same(goals[i], prompt));
        }
        first_matches_come_first(goals, p, at);
    }
}

/// A goal is written as its request gives it.
pub open spec fn is_written_as_given(
    made: crate::work_items::authoring::AuthoredView,
    request: GoalAuthoringRequest,
    context: AuthoringContext,
) -> bool {
    &&& gives(request.name) ==> made.name == given(request.name)
    &&& !gives(request.name) && context.derived_name is Some ==> made.name == (
    context.derived_name->0)@
    &&& gives(request.id) ==> made.id == Some(given(request.id))
    &&& !gives(request.id) ==> made.id is None
    &&& made.priority == crate::text::trimmed(request.priority@)
    &&& made.reporter == crate::text::trimmed(request.reporter.text@)
    &&& made.prompt == crate::text::trimmed(request.prompt@)
    &&& gives(request.feature_id) ==> made.feature_id == Some(given(request.feature_id))
    &&& !gives(request.feature_id) ==> made.feature_id is None
    &&& has_assignee(request) ==> made.assignee == Some(
        crate::text::trimmed((request.assignee->0).text@),
    )
    &&& !has_assignee(request) ==> made.assignee is None
}

/// A request names an assignee.
pub open spec fn has_assignee(request: GoalAuthoringRequest) -> bool {
    request.assignee is Some && !crate::laws::texts::only_spaces((request.assignee->0).text@)
}

/// A goal is changed as its request gives it; its assignee stays where none is
/// named, and is the reporter where it has none.
pub open spec fn is_changed_as_given(
    made: crate::work_items::authoring::EditView,
    request: GoalAuthoringRequest,
    goal: GoalIndexProjection,
) -> bool {
    &&& made.goal_id == goal.id@
    &&& made.name == crate::text::maybe_view(request.name)
    &&& made.priority == crate::text::trimmed(request.priority@)
    &&& made.reporter == crate::text::trimmed(request.reporter.text@)
    &&& made.prompt == crate::text::trimmed(request.prompt@)
    &&& made.first_round == (goal.round_count == 0)
    &&& gives(request.feature_id) ==> made.feature_id == Some(given(request.feature_id))
    &&& !gives(request.feature_id) ==> made.feature_id is None
    &&& has_assignee(request) ==> made.assignee == crate::text::trimmed(
        (request.assignee->0).text@,
    )
    &&& !has_assignee(request) && goal.assignee is Some ==> made.assignee == (goal.assignee->0)@
    &&& !has_assignee(request) && goal.assignee is None ==> made.assignee
        == crate::text::trimmed(request.reporter.text@)
}

proof fn parts_are_given(request: GoalAuthoringRequest)
    ensures
        gives(request.goal_id) ==> crate::work_items::authoring::filled(request.goal_id) == Some(given(request.goal_id)),
        !gives(request.goal_id) ==> crate::work_items::authoring::filled(request.goal_id) is None,
        gives(request.id) ==> crate::work_items::authoring::filled(request.id) == Some(given(request.id)),
        !gives(request.id) ==> crate::work_items::authoring::filled(request.id) is None,
        gives(request.name) ==> crate::work_items::authoring::filled(request.name) == Some(given(request.name)),
        !gives(request.name) ==> crate::work_items::authoring::filled(request.name) is None,
        gives(request.feature_id) ==> crate::work_items::authoring::filled(request.feature_id) == Some(
            given(request.feature_id),
        ),
        !gives(request.feature_id) ==> crate::work_items::authoring::filled(request.feature_id) is None,
        has_assignee(request) ==> crate::work_items::authoring::assignee_of(request) == Some(
            crate::text::trimmed((request.assignee->0).text@),
        ),
        !has_assignee(request) ==> crate::work_items::authoring::assignee_of(request) is None,
{
    texts_are_given(request.goal_id);
    texts_are_given(request.id);
    texts_are_given(request.name);
    texts_are_given(request.feature_id);
    if request.assignee is Some {
        crate::laws::texts::blank_texts_hold_only_white_space((request.assignee->0).text@);
    }
}

/// An accepted request that names a goal changes that goal.
pub proof fn named_goals_are_changed(
    service: FileWorkItemService,
    request: GoalAuthoringRequest,
    feature_inline: bool,
    snapshot: ProjectionSnapshot,
    direct: bool,
    context: AuthoringContext,
    node: Seq<char>,
)
    requires
        crate::laws::owning::checked_against(service, context.registered_node, node),
        gives(request.goal_id),
    ensures
        ({
            let plan = crate::work_items::authoring::authoring_plan(
                service,
                request,
                feature_inline,
                snapshot,
                direct,
                context,
            );
            &&& plan is Ok == is_accepted(request, feature_inline, snapshot, context, node)
            &&& plan is Ok ==> plan->Ok_0 is Edit && is_changed_as_given(
                plan->Ok_0->Edit_0,
                request,
                snapshot.goals@[given(request.goal_id)].goal,
            )
        }),
{
    requests_are_accepted_by_their_parts(
        service,
        request,
        feature_inline,
        snapshot,
        context,
        node,
    );
    parts_are_given(request);
}

/// An accepted request for a new goal that asks for something new, or brings its
/// own id, creates that goal, in one write where that is asked for.
pub proof fn new_goals_are_created(
    service: FileWorkItemService,
    request: GoalAuthoringRequest,
    feature_inline: bool,
    snapshot: ProjectionSnapshot,
    direct: bool,
    context: AuthoringContext,
    node: Seq<char>,
)
    requires
        crate::laws::owning::checked_against(service, context.registered_node, node),
        !gives(request.goal_id),
        gives(request.id) || crate::laws::texts::only_spaces(request.prompt@)
            || !is_asked_already(
            snapshot.goals.values(),
            crate::text::trimmed(request.prompt@),
        ),
    ensures
        ({
            let plan = crate::work_items::authoring::authoring_plan(
                service,
                request,
                feature_inline,
                snapshot,
                direct,
                context,
            );
            &&& plan is Ok == is_accepted(request, feature_inline, snapshot, context, node)
            &&& plan is Ok && direct ==> plan->Ok_0 is CreateDirect && is_written_as_given(
                plan->Ok_0->CreateDirect_0,
                request,
                context,
            )
            &&& plan is Ok && !direct ==> plan->Ok_0 is Create && is_written_as_given(
                plan->Ok_0->Create_0,
                request,
                context,
            )
        }),
{
    requests_are_accepted_by_their_parts(
        service,
        request,
        feature_inline,
        snapshot,
        context,
        node,
    );
    parts_are_given(request);
    the_first_duplicate_is_told(snapshot, crate::text::trimmed(request.prompt@), 0);
    crate::laws::texts::blank_texts_hold_only_white_space(request.prompt@);
}

proof fn decisions_differ()
    ensures
        "duplicate"@ != "move_original_to_backlog"@,
        "duplicate"@ != "original"@,
        "move_original_to_backlog"@ != "original"@,
{
    reveal_strlit("duplicate");
    reveal_strlit("move_original_to_backlog");
    reveal_strlit("original");
    assert("duplicate"@.len() == 9);
    assert("move_original_to_backlog"@.len() == 24);
    assert("original"@.len() == 8);
}

/// A request for a new goal that asks for the same as another is decided by its
/// decision: without one the duplicate is told and a decision asked for, the
/// duplicate may stand for it or go back to the backlog, the goal may be written
/// all the same, and any other decision is refused.
pub proof fn duplicates_are_decided(
    service: FileWorkItemService,
    request: GoalAuthoringRequest,
    feature_inline: bool,
    snapshot: ProjectionSnapshot,
    direct: bool,
    context: AuthoringContext,
    node: Seq<char>,
    at: int,
)
    requires
        crate::laws::owning::checked_against(service, context.registered_node, node),
        is_accepted(request, feature_inline, snapshot, context, node),
        !gives(request.goal_id),
        !gives(request.id),
        !crate::laws::texts::only_spaces(request.prompt@),
        is_first_duplicate(
            snapshot.goals.values(),
            crate::text::trimmed(request.prompt@),
            at,
        ),
    ensures
        ({
            let plan = crate::work_items::authoring::authoring_plan(
                service,
                request,
                feature_inline,
                snapshot,
                direct,
                context,
            );
            let decision = crate::text::trimmed(request.duplicate_decision@);
            let duplicate = snapshot.goals.values()[at].goal;
            let told = plan->Ok_0->Finished_0;
            let is_told = plan is Ok && plan->Ok_0 is Finished && !told.created
                && told.goal is None && told.duplicate is Some && told.duplicate->0.id
                == duplicate.id@ && told.duplicate->0.status == duplicate.status;
            &&& decision.len() == 0 ==> is_told && told.requires_duplicate_decision
                && told.duplicate_action is None && told.move_result is None
            &&& decision == "duplicate"@ ==> is_told && !told.requires_duplicate_decision
                && told.duplicate_action == Some("duplicate"@) && told.move_result is None
            &&& decision == "original"@ ==> plan is Ok && (direct ==> plan->Ok_0 is CreateDirect
                && is_written_as_given(plan->Ok_0->CreateDirect_0, request, context)) && (!direct
                ==> plan->Ok_0 is Create && is_written_as_given(
                plan->Ok_0->Create_0,
                request,
                context,
            ))
            &&& decision == "move_original_to_backlog"@ && duplicate.status is Backlog ==> is_told
                && told.move_result is Some && !told.move_result->0.moved
                && told.move_result->0.reason == Some("already_backlog"@)
            &&& decision == "move_original_to_backlog"@ && !(duplicate.status is Backlog)
                && (!direct || snapshot.goals@.contains_key(duplicate.id@)) ==> plan is Ok
                && plan->Ok_0 is MoveOriginal && plan->Ok_0->MoveOriginal_0.id == duplicate.id@
            &&& decision == "move_original_to_backlog"@ && !(duplicate.status is Backlog) && direct
                && !snapshot.goals@.contains_key(duplicate.id@) ==> is_told
                && told.move_result is Some && !told.move_result->0.moved
                && told.move_result->0.from == duplicate.status
                && told.move_result->0.to is Backlog && told.move_result->0.reason == Some(
                "protected_status"@,
            )
            &&& decision.len() > 0 && decision != "duplicate"@ && decision != "original"@
                && decision != "move_original_to_backlog"@ ==> plan is Err
                && plan->Err_0 is InvalidInput
        }),
{
    requests_are_accepted_by_their_parts(
        service,
        request,
        feature_inline,
        snapshot,
        context,
        node,
    );
    parts_are_given(request);
    decisions_differ();
    reveal_strlit("duplicate");
    reveal_strlit("original");
    reveal_strlit("move_original_to_backlog");
    assert("duplicate"@.len() == 9 && "original"@.len() == 8);
    assert("move_original_to_backlog"@.len() == 24);
    the_first_duplicate_is_told(snapshot, crate::text::trimmed(request.prompt@), at);
    crate::laws::texts::blank_texts_hold_only_white_space(request.prompt@);
    assert(asks_the_same(
        snapshot.goals.values()[at],
        crate::text::trimmed(request.prompt@),
    ));
}

/// A duplicate that was to go back to the backlog was moved, was protected by
/// its status, or was there already.
pub proof fn moves_to_the_backlog_are_told(duplicate: crate::work_items::authoring::DuplicateView, moved: bool)
    ensures
        ({
            let told = crate::work_items::authoring::moved_back(duplicate, moved);
            &&& told.from == duplicate.status && told.to is Backlog
            &&& duplicate.status is Backlog ==> !told.moved && told.reason == Some(
                "already_backlog"@,
            )
            &&& !(duplicate.status is Backlog) && moved ==> told.moved && told.reason is None
            &&& !(duplicate.status is Backlog) && !moved ==> !told.moved && told.reason == Some(
                "protected_status"@,
            )
        }),
{
}

/// An authored goal starts with a round exactly where it has a reporter and a
/// prompt; the assignee is to do it, or the reporter where there is none.
pub proof fn authored_goals_start_with_a_round(goal: crate::work_items::authoring::AuthoredView)
    ensures
        crate::work_items::authoring::starts_with_round(goal) == (goal.reporter.len() > 0 && goal.prompt.len() > 0),
        goal.assignee is Some ==> crate::work_items::authoring::first_round(goal).assignee == goal.assignee->0,
        goal.assignee is None ==> crate::work_items::authoring::first_round(goal).assignee == goal.reporter,
        crate::work_items::authoring::first_round(goal).reporter == goal.reporter,
        crate::work_items::authoring::first_round(goal).prompt == goal.prompt,
{
}

proof fn record_keys_differ()
    ensures
        "id"@ != "name"@,
        "id"@ != "status"@,
        "id"@ != "priority"@,
        "id"@ != "reporter"@,
        "id"@ != "branch_name"@,
        "id"@ != "target_branch"@,
        "id"@ != "base_commit"@,
        "id"@ != "candidate_commit"@,
        "id"@ != "feature_id"@,
        "id"@ != "feature_order"@,
        "id"@ != "node_id"@,
        "id"@ != "created"@,
        "id"@ != "updated"@,
        "id"@ != "notes"@,
        "id"@ != "rounds"@,
        "name"@ != "status"@,
        "name"@ != "priority"@,
        "name"@ != "reporter"@,
        "name"@ != "branch_name"@,
        "name"@ != "target_branch"@,
        "name"@ != "base_commit"@,
        "name"@ != "candidate_commit"@,
        "name"@ != "feature_id"@,
        "name"@ != "feature_order"@,
        "name"@ != "node_id"@,
        "name"@ != "created"@,
        "name"@ != "updated"@,
        "name"@ != "notes"@,
        "name"@ != "rounds"@,
        "status"@ != "priority"@,
        "status"@ != "reporter"@,
        "status"@ != "branch_name"@,
        "status"@ != "target_branch"@,
        "status"@ != "base_commit"@,
        "status"@ != "candidate_commit"@,
        "status"@ != "feature_id"@,
        "status"@ != "feature_order"@,
        "status"@ != "node_id"@,
        "status"@ != "created"@,
        "status"@ != "updated"@,
        "status"@ != "notes"@,
        "status"@ != "rounds"@,
        "priority"@ != "reporter"@,
        "priority"@ != "branch_name"@,
        "priority"@ != "target_branch"@,
        "priority"@ != "base_commit"@,
        "priority"@ != "candidate_commit"@,
        "priority"@ != "feature_id"@,
        "priority"@ != "feature_order"@,
        "priority"@ != "node_id"@,
        "priority"@ != "created"@,
        "priority"@ != "updated"@,
        "priority"@ != "notes"@,
        "priority"@ != "rounds"@,
        "reporter"@ != "branch_name"@,
        "reporter"@ != "target_branch"@,
        "reporter"@ != "base_commit"@,
        "reporter"@ != "candidate_commit"@,
        "reporter"@ != "feature_id"@,
        "reporter"@ != "feature_order"@,
        "reporter"@ != "node_id"@,
        "reporter"@ != "created"@,
        "reporter"@ != "updated"@,
        "reporter"@ != "notes"@,
        "reporter"@ != "rounds"@,
        "branch_name"@ != "target_branch"@,
        "branch_name"@ != "base_commit"@,
        "branch_name"@ != "candidate_commit"@,
        "branch_name"@ != "feature_id"@,
        "branch_name"@ != "feature_order"@,
        "branch_name"@ != "node_id"@,
        "branch_name"@ != "created"@,
        "branch_name"@ != "updated"@,
        "branch_name"@ != "notes"@,
        "branch_name"@ != "rounds"@,
        "target_branch"@ != "base_commit"@,
        "target_branch"@ != "candidate_commit"@,
        "target_branch"@ != "feature_id"@,
        "target_branch"@ != "feature_order"@,
        "target_branch"@ != "node_id"@,
        "target_branch"@ != "created"@,
        "target_branch"@ != "updated"@,
        "target_branch"@ != "notes"@,
        "target_branch"@ != "rounds"@,
        "base_commit"@ != "candidate_commit"@,
        "base_commit"@ != "feature_id"@,
        "base_commit"@ != "feature_order"@,
        "base_commit"@ != "node_id"@,
        "base_commit"@ != "created"@,
        "base_commit"@ != "updated"@,
        "base_commit"@ != "notes"@,
        "base_commit"@ != "rounds"@,
        "candidate_commit"@ != "feature_id"@,
        "candidate_commit"@ != "feature_order"@,
        "candidate_commit"@ != "node_id"@,
        "candidate_commit"@ != "created"@,
        "candidate_commit"@ != "updated"@,
        "candidate_commit"@ != "notes"@,
        "candidate_commit"@ != "rounds"@,
        "feature_id"@ != "feature_order"@,
        "feature_id"@ != "node_id"@,
        "feature_id"@ != "created"@,
        "feature_id"@ != "updated"@,
        "feature_id"@ != "notes"@,
        "feature_id"@ != "rounds"@,
        "feature_order"@ != "node_id"@,
        "feature_order"@ != "created"@,
        "feature_order"@ != "updated"@,
        "feature_order"@ != "notes"@,
        "feature_order"@ != "rounds"@,
        "node_id"@ != "created"@,
        "node_id"@ != "updated"@,
        "node_id"@ != "notes"@,
        "node_id"@ != "rounds"@,
        "created"@ != "updated"@,
        "created"@ != "notes"@,
        "created"@ != "rounds"@,
        "updated"@ != "notes"@,
        "updated"@ != "rounds"@,
        "notes"@ != "rounds"@,
{
    reveal_strlit("id");
    reveal_strlit("name");
    reveal_strlit("status");
    reveal_strlit("priority");
    reveal_strlit("reporter");
    reveal_strlit("branch_name");
    reveal_strlit("target_branch");
    reveal_strlit("base_commit");
    reveal_strlit("candidate_commit");
    reveal_strlit("feature_id");
    reveal_strlit("feature_order");
    reveal_strlit("node_id");
    reveal_strlit("created");
    reveal_strlit("updated");
    reveal_strlit("notes");
    reveal_strlit("rounds");
    assert("id"@.len() == 2);
    assert("name"@.len() == 4);
    assert("status"@.len() == 6);
    assert("priority"@.len() == 8);
    assert("reporter"@.len() == 8);
    assert("branch_name"@.len() == 11);
    assert("target_branch"@.len() == 13);
    assert("base_commit"@.len() == 11);
    assert("candidate_commit"@.len() == 16);
    assert("feature_id"@.len() == 10);
    assert("feature_order"@.len() == 13);
    assert("node_id"@.len() == 7);
    assert("created"@.len() == 7);
    assert("updated"@.len() == 7);
    assert("notes"@.len() == 5);
    assert("rounds"@.len() == 6);
    assert("status"@[0] == 's');
    assert("priority"@[0] == 'p');
    assert("reporter"@[0] == 'r');
    assert("branch_name"@[1] == 'r');
    assert("target_branch"@[0] == 't');
    assert("base_commit"@[1] == 'a');
    assert("feature_order"@[0] == 'f');
    assert("node_id"@[0] == 'n');
    assert("created"@[0] == 'c');
    assert("updated"@[0] == 'u');
    assert("rounds"@[0] == 'r');
}

/// The record of a new goal: it waits in the backlog, belongs to a node, and has
/// no branch, no notes and no place yet.
pub open spec fn is_a_new_record(
    record: crate::json::JsonView,
    id: Seq<char>,
    name: Seq<char>,
    priority: Seq<char>,
    node: Seq<char>,
    now: Seq<char>,
) -> bool {
    let null = crate::json::JsonView::Null;
    &&& crate::laws::values::says(record, "id"@, id) && crate::laws::values::says(record, "name"@, name)
    &&& crate::laws::values::says(record, "status"@, "backlog"@) && crate::laws::values::says(record, "priority"@, priority)
    &&& crate::laws::values::holds(record, "branch_name"@, null) && crate::laws::values::holds(record, "target_branch"@, null)
    &&& crate::laws::values::holds(record, "base_commit"@, null) && crate::laws::values::holds(record, "candidate_commit"@, null)
    &&& crate::laws::values::holds(record, "feature_order"@, null) && crate::laws::values::says(record, "node_id"@, node)
    &&& crate::laws::values::says(record, "created"@, now) && crate::laws::values::says(record, "updated"@, now)
    &&& crate::laws::values::holds(record, "notes"@, crate::json::JsonView::Array(Seq::empty()))
}

/// A goal is created by its name exactly where it has one, its id is long enough
/// and free, and the node is known.
pub proof fn goals_are_created_by_name(
    service: FileWorkItemService,
    name: Seq<char>,
    id: Option<Seq<char>>,
    generated: Seq<char>,
    taken: bool,
    registered: RefineResult<String>,
    now: Seq<char>,
    node: Seq<char>,
)
    requires
        crate::laws::owning::checked_against(service, registered, node),
    ensures
        ({
            let made = crate::work_items::queries::created_goal(
                service,
                name,
                id,
                generated,
                taken,
                registered,
                now,
            );
            let named = !crate::laws::texts::only_spaces(name);
            let chosen = crate::work_items::queries::goal_id_of(id, generated);
            let record = made->Ok_0.record;
            &&& made is Ok == (named && chosen is Ok && !taken)
            &&& !named ==> made->Err_0 is InvalidInput
            &&& named && chosen is Ok && taken ==> made->Err_0 is Conflict
            &&& made is Ok ==> made->Ok_0.id == chosen->Ok_0 && is_a_new_record(
                record,
                chosen->Ok_0,
                crate::text::trimmed(name),
                "low"@,
                node,
                now,
            ) && crate::laws::values::holds(record, "reporter"@, crate::json::JsonView::Null) && crate::laws::values::holds(
                record,
                "feature_id"@,
                crate::json::JsonView::Null,
            ) && crate::laws::values::holds(record, "rounds"@, crate::json::JsonView::Array(Seq::empty()))
        }),
{
    record_keys_differ();
    crate::laws::texts::blank_texts_hold_only_white_space(name);
}

/// A text takes at least three bytes, as far as a machine counts them.
pub open spec fn has_three_bytes(text: Seq<char>) -> bool {
    vstd::utf8::encode_utf8(text).len() as usize >= 3
}

/// The id of a new goal is the one that is asked for, in upper case, or the
/// generated one where none is, and has at least three bytes.
pub proof fn ids_are_asked_for_or_generated(id: Option<Seq<char>>, generated: Seq<char>)
    ensures
        ({
            let chosen = crate::work_items::queries::goal_id_of(id, generated);
            let asked = crate::text::uppercased(crate::text::trimmed(id->0));
            &&& chosen is Err ==> chosen->Err_0 is InvalidInput
            &&& id is None ==> chosen is Ok == has_three_bytes(generated)
            &&& id is None && chosen is Ok ==> chosen->Ok_0 == generated
            &&& id is Some && asked.len() > 0 ==> chosen is Ok
                == has_three_bytes(asked)
            &&& id is Some && asked.len() > 0 && chosen is Ok ==> chosen->Ok_0 == asked
            &&& id is Some && asked.len() == 0 && chosen is Ok ==> chosen->Ok_0 == generated
        }),
{
}

/// The record of a goal is spread over two directories by its first two
/// characters.
pub proof fn records_are_spread_by_their_id(a: char, b: char, rest: Seq<char>)
    ensures
        crate::work_items::queries::relative_path(seq![a, b] + rest) == "goals/"@ + seq![a, b]
            + "/"@ + rest + "/goal.json"@,
{
    let id = seq![a, b] + rest;
    assert(id.take(2) =~= seq![a, b]);
    assert(id.skip(2) =~= rest);
}

/// An authored goal is recorded as it was authored, with its first round where
/// it starts with one.
pub proof fn authored_goals_are_recorded(
    service: FileWorkItemService,
    goal: crate::work_items::authoring::AuthoredView,
    generated: Seq<char>,
    taken: bool,
    registered: RefineResult<String>,
    round: crate::json::JsonView,
    now: Seq<char>,
    node: Seq<char>,
)
    requires
        crate::laws::owning::checked_against(service, registered, node),
    ensures
        ({
            let made = crate::work_items::authoring::authored_goal(service, goal, generated, taken, registered, round, now);
            let chosen = crate::work_items::queries::goal_id_of(goal.id, generated);
            let record = made->Ok_0.record;
            let starts = goal.reporter.len() > 0 && goal.prompt.len() > 0;
            let first = crate::laws::values::list_of(record, "rounds"@)[0];
            &&& made is Ok == (chosen is Ok && !taken)
            &&& made is Ok ==> made->Ok_0.id == chosen->Ok_0 && is_a_new_record(
                record,
                chosen->Ok_0,
                goal.name,
                goal.priority,
                node,
                now,
            )
            &&& made is Ok && goal.reporter.len() > 0 ==> crate::laws::values::says(
                record,
                "reporter"@,
                goal.reporter,
            )
            &&& made is Ok && goal.reporter.len() == 0 ==> crate::laws::values::holds(
                record,
                "reporter"@,
                crate::json::JsonView::Null,
            )
            &&& made is Ok && goal.feature_id is Some ==> crate::laws::values::says(
                record,
                "feature_id"@,
                goal.feature_id->0,
            )
            &&& made is Ok && goal.feature_id is None ==> crate::laws::values::holds(
                record,
                "feature_id"@,
                crate::json::JsonView::Null,
            )
            &&& made is Ok && !starts ==> crate::laws::values::holds(
                record,
                "rounds"@,
                crate::json::JsonView::Array(Seq::empty()),
            )
            &&& made is Ok && starts ==> crate::laws::values::has_list(record, "rounds"@) && crate::laws::values::list_of(
                record,
                "rounds"@,
            ).len() == 1 && crate::laws::values::says(first, "reporter"@, goal.reporter) && crate::laws::values::says(
                first,
                "prompt"@,
                goal.prompt,
            )
            &&& made is Ok && starts && goal.assignee is Some ==> crate::laws::values::says(
                first,
                "assignee"@,
                goal.assignee->0,
            )
            &&& made is Ok && starts && goal.assignee is None ==> crate::laws::values::says(
                first,
                "assignee"@,
                goal.reporter,
            )
        }),
{
    record_keys_differ();
    round_keys_differ();
}

proof fn round_keys_differ()
    ensures
        "reporter"@ != "assignee"@,
        "reporter"@ != "prompt"@,
        "assignee"@ != "prompt"@,
{
    reveal_strlit("reporter");
    reveal_strlit("assignee");
    reveal_strlit("prompt");
    assert("reporter"@.len() == 8);
    assert("assignee"@.len() == 8);
    assert("prompt"@.len() == 6);
    assert("reporter"@[0] == 'r');
    assert("assignee"@[0] == 'a');
}

/// The request that writes a goal of a feature down asks for the same as the
/// feature's request, in that feature, under no id of its own.
pub proof fn goals_of_a_feature_are_asked_for_alike(
    feature_id: Seq<char>,
    request: FeatureGoalAuthoringRequest,
    made: GoalAuthoringRequest,
)
    requires
        crate::work_items::authoring::inline_request(feature_id, request, made),
    ensures
        made.goal_id == request.goal_id,
        made.id is None,
        made.name == request.name,
        made.prompt == request.prompt,
        made.reporter == request.reporter,
        made.assignee == request.assignee,
        made.priority == request.priority,
        made.feature_id is Some,
        (made.feature_id->0)@ == feature_id,
        made.placement == request.placement,
        made.duplicate_decision == request.duplicate_decision,
{
}

/// The projection holds of a new goal what its record holds: its id and name, the
/// backlog, its priority and people, its node and feature, and one round where it
/// starts with one.
pub proof fn new_goals_are_projected_as_recorded(
    goal: crate::work_items::authoring::AuthoredView,
    made: crate::work_items::queries::NewGoalView,
    node: Seq<char>,
    now: Seq<char>,
    p: GoalSummaryProjection,
)
    requires
        crate::work_items::authoring::projects_authored(goal, made, node, now, p),
    ensures
        ({
            let round = goal.reporter.len() > 0 && goal.prompt.len() > 0;
            let assignee = if goal.assignee is Some { goal.assignee->0 } else { goal.reporter };
            &&& p.goal.id@ == made.id && p.goal.name@ == goal.name && p.goal.status is Backlog
            &&& crate::model::priority_name(p.goal.priority) == goal.priority
            &&& p.goal.reporter is Some == (goal.reporter.len() > 0)
            &&& p.goal.reporter is Some ==> (p.goal.reporter->0)@ == goal.reporter
            &&& p.goal.assignee is Some == round
            &&& round ==> (p.goal.assignee->0)@ == assignee
            &&& p.goal.round_count == if round { 1int } else { 0 }
            &&& p.goal.created@ == now && p.goal.updated@ == now
            &&& p.goal.branch_name is None && p.goal.feature_order is None
            &&& p.goal.node_id is Some && (p.goal.node_id->0)@ == node
            &&& p.goal.feature_id is Some == goal.feature_id is Some
            &&& p.goal.feature_id is Some ==> (p.goal.feature_id->0)@ == goal.feature_id->0
            &&& p.goal.json_path@ == made.json_path
            &&& p.node_display_name is None && p.activity_ids@.len() == 0
            &&& p.latest_round_prompt is Some == round
            &&& round ==> (p.latest_round_prompt->0)@ == goal.prompt
            &&& !round ==> p.searchable_text@ == goal.name + "\n"@ + goal.reporter
            &&& round ==> p.searchable_text@ == goal.name + "\n"@ + goal.reporter + "\n"@ + assignee
                + "\n"@ + goal.prompt
        }),
{
    reveal_with_fuel(crate::text::joined_lines, 5);
    let assignee = if goal.assignee is Some { goal.assignee->0 } else { goal.reporter };
    let two = seq![goal.name, goal.reporter];
    let four = seq![goal.name, goal.reporter, assignee, goal.prompt];
    assert(two.drop_last() =~= seq![goal.name]);
    assert(four.drop_last() =~= seq![goal.name, goal.reporter, assignee]);
    assert(four.drop_last().drop_last() =~= two);
}

/// A created goal has a projection exactly where its priority is one of the three.
pub proof fn created_goals_are_projected_with_a_known_priority(
    service: FileWorkItemService,
    goal: crate::work_items::authoring::AuthoredView,
    generated: Seq<char>,
    taken: bool,
    registered: RefineResult<String>,
    round: crate::json::JsonView,
    now: Seq<char>,
    created: RefineResult<AuthoredRecord>,
)
    requires
        crate::work_items::authoring::creates(
            service,
            goal,
            generated,
            taken,
            registered,
            round,
            now,
            created,
        ),
    ensures
        created is Ok == crate::work_items::authoring::authored_goal(
            service,
            goal,
            generated,
            taken,
            registered,
            round,
            now,
        ) is Ok,
        created is Ok ==> created->Ok_0.projection is Ok == (goal.priority == "low"@
            || goal.priority == "medium"@ || goal.priority == "high"@),
        created is Ok && created->Ok_0.projection is Ok
            ==> created->Ok_0.projection->Ok_0.goal.id@ == created->Ok_0.goal.id@
            && created->Ok_0.projection->Ok_0.goal.name@ == goal.name
            && created->Ok_0.projection->Ok_0.goal.json_path@ == created->Ok_0.goal.json_path@,
        created is Ok && created->Ok_0.projection is Err ==> created->Ok_0.projection->Err_0
            is InvalidInput,
{
}

/// After a goal is created its reporter is set, and its priority unless it is the
/// one that new goals have; the first round is appended exactly where the goal has
/// a reporter and a prompt, for its assignee or else its reporter.
pub proof fn new_goals_are_completed_step_by_step(
    goal: crate::work_items::authoring::AuthoredView,
    steps: CreationSteps,
)
    requires
        crate::work_items::authoring::follows_creation(goal, steps),
    ensures
        ({
            let metadata = steps.metadata;
            let round = steps.round->0;
            let assignee = if goal.assignee is Some { goal.assignee->0 } else { goal.reporter };
            &&& metadata.name is None && metadata.assignee is None
            &&& metadata.priority is None == (goal.priority == "low"@)
            &&& metadata.priority is Some ==> (metadata.priority->0)@ == goal.priority
            &&& metadata.reporter is Some && metadata.reporter->0.text@ == goal.reporter
            &&& metadata.reporter->0.acceptable
            &&& steps.round is Some == (goal.reporter.len() > 0 && goal.prompt.len() > 0)
            &&& steps.round is Some ==> round.reporter.text@ == goal.reporter
                && round.reporter.acceptable && round.prompt@ == goal.prompt
                && round.assignee is Some && round.assignee->0.text@ == assignee
                && round.assignee->0.acceptable
        }),
{
}

/// A change sets the name where one is given, the priority and the reporter; then
/// the first round is appended, or else the latest one rewritten, with the
/// reporter, the assignee and the prompt of the change.
pub proof fn changed_goals_are_changed_step_by_step(
    edit: crate::work_items::authoring::EditView,
    acceptable: bool,
    steps: EditSteps,
)
    requires
        crate::work_items::authoring::makes_change(edit, acceptable, steps),
    ensures
        ({
            let metadata = steps.metadata;
            let first = steps.append->0;
            let latest = steps.rewrite->0;
            &&& metadata.name is Some == edit.name is Some
            &&& metadata.name is Some ==> (metadata.name->0)@ == edit.name->0
            &&& metadata.priority is Some && (metadata.priority->0)@ == edit.priority
            &&& metadata.reporter is Some && metadata.reporter->0.text@ == edit.reporter
            &&& metadata.reporter->0.acceptable && metadata.assignee is None
            &&& steps.append is Some == edit.first_round
            &&& steps.rewrite is Some == !edit.first_round
            &&& steps.append is Some ==> first.reporter.text@ == edit.reporter
                && first.reporter.acceptable && first.prompt@ == edit.prompt
                && first.assignee is Some && first.assignee->0.text@ == edit.assignee
                && first.assignee->0.acceptable == acceptable
            &&& steps.rewrite is Some ==> latest.reporter is Some && latest.reporter->0.text@
                == edit.reporter && latest.reporter->0.acceptable && latest.prompt is Some && (
            latest.prompt->0)@ == edit.prompt && latest.assignee is Some
                && latest.assignee->0.text@ == edit.assignee && latest.assignee->0.acceptable
                == acceptable
        }),
{
}

} // verus!

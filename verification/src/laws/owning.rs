//! Who may change a goal, and what a change leaves alone.
use vstd::prelude::*;

use crate::errors::RefineResult;
use crate::model::{FeatureIndexProjection, GoalIndexProjection, GoalStatus};
use crate::work_items::{FileWorkItemService, GoalAccess, OperationDecision};

verus! {

/// A record belongs to a node; one that names none belongs to the default one.
pub open spec fn belongs_to_node(owner: Option<String>, node: Seq<char>) -> bool {
    if owner is Some && (owner->0)@.len() > 0 {
        (owner->0)@ == node
    } else {
        node == "default"@
    }
}

/// The node that ownership is checked against: the service's own where it has
/// one, and the registered one otherwise.
pub open spec fn checked_against(
    service: FileWorkItemService,
    registered: RefineResult<String>,
    node: Seq<char>,
) -> bool {
    if service.active_node_id_override is Some {
        (service.active_node_id_override->0)@ == node
    } else {
        registered is Ok && (registered->Ok_0)@ == node
    }
}

/// No node can be told.
pub open spec fn no_node_is_told(
    service: FileWorkItemService,
    registered: RefineResult<String>,
) -> bool {
    service.active_node_id_override is None && registered is Err
}

/// A goal or feature may be changed exactly where the node that is checked
/// against owns it; another node is refused with a conflict, and where no node
/// can be told the reason is passed on.
pub proof fn only_the_owner_may_change(
    service: FileWorkItemService,
    registered: RefineResult<String>,
    goal: GoalIndexProjection,
    feature: FeatureIndexProjection,
    node: Seq<char>,
)
    requires
        checked_against(service, registered, node),
    ensures
        ({
            let active = crate::work_items::active_node(service, registered);
            let goal_refused = crate::work_items::goal_refusal(goal, active);
            let feature_refused = crate::work_items::feature_refusal(feature, active);
            &&& goal_refused is None == belongs_to_node(goal.node_id, node)
            &&& !belongs_to_node(goal.node_id, node) ==> goal_refused->0 is Conflict
            &&& feature_refused is None == belongs_to_node(feature.node_id, node)
            &&& !belongs_to_node(feature.node_id, node) ==> feature_refused->0 is Conflict
        }),
{
}

/// Where no node can be told, nothing may be changed.
pub proof fn without_a_node_nothing_may_be_changed(
    service: FileWorkItemService,
    registered: RefineResult<String>,
    goal: GoalIndexProjection,
    feature: FeatureIndexProjection,
)
    requires
        no_node_is_told(service, registered),
    ensures
        ({
            let active = crate::work_items::active_node(service, registered);
            &&& crate::work_items::goal_refusal(goal, active) == Some((registered->Err_0)@)
            &&& crate::work_items::feature_refusal(feature, active) == Some((registered->Err_0)@)
        }),
{
}

/// The record of a goal is read for a change exactly where the goal is known,
/// the node owns it, and the record could be read and is an object; then it is
/// that record.
pub proof fn records_are_read_for_their_owner(
    service: FileWorkItemService,
    access: GoalAccess,
    node: Seq<char>,
)
    requires
        checked_against(service, access.registered_node, node),
    ensures
        ({
            let read = crate::work_items::owned_record(service, access);
            let owned = access.summary is Some && belongs_to_node(
                access.summary->0.node_id,
                node,
            );
            let usable = access.record is Ok && (access.record->Ok_0)@ is Object;
            &&& read is Ok == (owned && usable)
            &&& read is Ok ==> read->Ok_0 == (access.record->Ok_0)@
            &&& access.summary is None ==> read->Err_0 is NotFound
            &&& access.summary is Some && !owned ==> read->Err_0 is Conflict
            &&& owned && access.record is Err ==> read->Err_0 == (access.record->Err_0)@
            &&& owned && access.record is Ok && !usable ==> read->Err_0 is Serialization
        }),
{
}

/// The record of a goal is read whoever owns it, where that is asked for.
pub proof fn records_are_read_for_anyone(service: FileWorkItemService, access: GoalAccess)
    ensures
        ({
            let read = crate::work_items::read_record(service, access);
            let usable = access.record is Ok && (access.record->Ok_0)@ is Object;
            &&& read is Ok == (access.summary is Some && usable)
            &&& read is Ok ==> read->Ok_0 == (access.record->Ok_0)@
            &&& access.summary is None ==> read->Err_0 is NotFound
        }),
{
}

/// An operation is refused where the goal is not known, and otherwise exactly
/// where the workflow refuses it.
pub proof fn the_workflow_may_refuse(access: GoalAccess)
    ensures
        ({
            let refused = crate::work_items::edit_gate(access);
            &&& access.summary is None ==> refused is Some && refused->0 is NotFound
            &&& access.summary is Some && access.refusal is None ==> refused is None
            &&& access.summary is Some && access.refusal is Some ==> refused == Some(
                (access.refusal->0)@,
            )
        }),
{
}

/// A transition that a user asks for is made exactly where it is allowed; a
/// refusal says why.
pub proof fn users_move_goals_where_they_may(decision: OperationDecision)
    ensures
        ({
            let result = crate::work_items::manual_transition(decision);
            &&& result is Ok == decision.allowed
            &&& !decision.allowed && decision.reason is Some ==> result->Err_0
                == crate::errors::ErrorView::InvalidInput((decision.reason->0)@)
            &&& !decision.allowed && decision.reason is None ==> result->Err_0
                == crate::errors::ErrorView::InvalidInput("transition is not allowed"@)
        }),
{
}

/// A pair of statuses.
pub open spec fn moves(
    from: GoalStatus,
    to: GoalStatus,
    before: GoalStatus,
    after: GoalStatus,
) -> bool {
    from == before && to == after
}

/// Automation moves a goal along the workflow and nowhere else.
pub proof fn automation_moves_goals_along_the_workflow(from: GoalStatus, to: GoalStatus)
    ensures
        crate::work_items::automation_may(from, to) == ({
            ||| moves(from, to, GoalStatus::Todo, GoalStatus::InProgress)
            ||| moves(from, to, GoalStatus::Todo, GoalStatus::Qa)
            ||| moves(from, to, GoalStatus::InProgress, GoalStatus::Qa)
            ||| moves(from, to, GoalStatus::InProgress, GoalStatus::ReadyMerge)
            ||| moves(from, to, GoalStatus::InProgress, GoalStatus::Failed)
            ||| moves(from, to, GoalStatus::Qa, GoalStatus::ReadyMerge)
            ||| moves(from, to, GoalStatus::Qa, GoalStatus::Review)
            ||| moves(from, to, GoalStatus::Qa, GoalStatus::Build)
            ||| moves(from, to, GoalStatus::Qa, GoalStatus::Done)
            ||| moves(from, to, GoalStatus::Qa, GoalStatus::Failed)
            ||| moves(from, to, GoalStatus::ReadyMerge, GoalStatus::Build)
            ||| moves(from, to, GoalStatus::ReadyMerge, GoalStatus::Qa)
            ||| moves(from, to, GoalStatus::ReadyMerge, GoalStatus::Todo)
            ||| moves(from, to, GoalStatus::ReadyMerge, GoalStatus::Failed)
            ||| moves(from, to, GoalStatus::Build, GoalStatus::Qa)
            ||| moves(from, to, GoalStatus::Build, GoalStatus::Review)
            ||| moves(from, to, GoalStatus::Build, GoalStatus::Failed)
        }),
{
}

/// Expecting a record at a revision changes its revision and nothing else.
pub proof fn only_the_revision_is_expected_anew(
    record: crate::json::JsonView,
    revision: u64,
    key: Seq<char>,
)
    ensures
        ({
            let expected = crate::work_items::expected_at(record, revision);
            &&& expected is Ok == record is Object
            &&& record is Object ==> crate::laws::values::counts(
                expected->Ok_0,
                "workflow_revision"@,
                revision,
            )
            &&& record is Object && key != "workflow_revision"@ ==> crate::laws::values::agree(
                expected->Ok_0,
                record,
                key,
            )
            &&& !(record is Object) ==> expected->Err_0 is Serialization
        }),
{
}

/// A write is one revision further, as far as revisions go.
pub proof fn revisions_grow_by_one(revision: u64)
    ensures
        revision < u64::MAX ==> crate::work_items::next_revision(revision) == revision + 1,
        revision == u64::MAX ==> crate::work_items::next_revision(revision) == revision,
{
}

/// The record of a goal stands where its path says, under the directory of the
/// project.
pub proof fn records_stand_under_their_project(
    service: FileWorkItemService,
    goal: GoalIndexProjection,
)
    ensures
        crate::work_items::record_path(service, goal) == crate::paths::joined(
            service.refine_dir@,
            goal.json_path@,
        ),
{
}

/// Every status is stored under its own name.
pub proof fn statuses_are_stored_by_name(status: GoalStatus)
    ensures
        ({
            let name = crate::model::status_name(status);
            &&& status is Backlog == (name == "backlog"@)
            &&& status is Todo == (name == "todo"@)
            &&& status is InProgress == (name == "in-progress"@)
            &&& status is Qa == (name == "qa"@)
            &&& status is ReadyMerge == (name == "ready-merge"@)
            &&& status is Build == (name == "build"@)
            &&& status is Review == (name == "review"@)
            &&& status is Done == (name == "done"@)
            &&& status is Failed == (name == "failed"@)
            &&& status is Cancelled == (name == "cancelled"@)
        }),
{
    crate::model::status_names_are_distinct(status, GoalStatus::Backlog);
    crate::model::status_names_are_distinct(status, GoalStatus::Todo);
    crate::model::status_names_are_distinct(status, GoalStatus::InProgress);
    crate::model::status_names_are_distinct(status, GoalStatus::Qa);
    crate::model::status_names_are_distinct(status, GoalStatus::ReadyMerge);
    crate::model::status_names_are_distinct(status, GoalStatus::Build);
    crate::model::status_names_are_distinct(status, GoalStatus::Review);
    crate::model::status_names_are_distinct(status, GoalStatus::Done);
    crate::model::status_names_are_distinct(status, GoalStatus::Failed);
    crate::model::status_names_are_distinct(status, GoalStatus::Cancelled);
}

} // verus!

//! What changes to a goal's record change, and what they leave alone.
use vstd::prelude::*;

use crate::errors::RefineResult;
use crate::json::Json;
use crate::model::{GoalIndexProjection, GoalStatus};
use crate::work_items::records::PersonName;
use crate::work_items::rounds::{GitRefs, GoalDeletion, MetadataEdit, RoundEdit, RoundInput};
use crate::work_items::{FileWorkItemService, GoalAccess};

verus! {

/// A goal's record can be changed: the goal is known, the node owns it, and the
/// record could be read and is an object.
pub open spec fn is_ready(
    service: FileWorkItemService,
    access: GoalAccess,
    node: Seq<char>,
) -> bool {
    &&& access.summary is Some
    &&& crate::laws::owning::belongs_to_node(access.summary->0.node_id, node)
    &&& access.record is Ok
    &&& (access.record->Ok_0)@ is Object
}

/// The workflow lets a known goal be changed.
pub open spec fn is_allowed(access: GoalAccess) -> bool {
    access.summary is Some && access.refusal is None
}

/// The record of a goal as it was read.
pub open spec fn record_of(access: GoalAccess) -> crate::json::JsonView {
    (access.record->Ok_0)@
}

/// A name is empty or accepted by the naming rules.
pub open spec fn is_a_name(name: PersonName) -> bool {
    crate::laws::texts::only_spaces(name.text@) || name.acceptable
}

/// A field holds a name without the white space around it, or null where the
/// name is empty.
pub open spec fn holds_name(
    record: crate::json::JsonView,
    key: Seq<char>,
    name: Seq<char>,
) -> bool {
    if crate::laws::texts::only_spaces(name) {
        crate::laws::values::holds(record, key, crate::json::JsonView::Null)
    } else {
        crate::laws::values::says(record, key, crate::text::trimmed(name))
    }
}

/// A round is the latest of a list that is an object.
pub open spec fn is_latest(rounds: Seq<crate::json::JsonView>, at: int) -> bool {
    &&& 0 <= at < rounds.len()
    &&& rounds[at] is Object
    &&& forall|i: int| at < i < rounds.len() ==> !((#[trigger] rounds[i]) is Object)
}

/// A record has a round that is an object.
pub open spec fn has_round(record: crate::json::JsonView) -> bool {
    crate::laws::values::has_list(record, "rounds"@) && exists|i: int|
        0 <= i < crate::laws::values::list_of(record, "rounds"@).len() && (#[trigger] crate::laws::values::list_of(
            record,
            "rounds"@,
        )[i]) is Object
}

/// Two records hold the same rounds but at one position.
pub open spec fn only_round_changed(
    before: crate::json::JsonView,
    after: crate::json::JsonView,
    at: int,
) -> bool {
    &&& crate::laws::values::has_list(before, "rounds"@) && crate::laws::values::has_list(after, "rounds"@)
    &&& crate::laws::values::list_of(after, "rounds"@).len() == crate::laws::values::list_of(before, "rounds"@).len()
    &&& 0 <= at < crate::laws::values::list_of(before, "rounds"@).len()
    &&& forall|i: int|
        0 <= i < crate::laws::values::list_of(before, "rounds"@).len() && i != at ==> (#[trigger] crate::laws::values::list_of(
            after,
            "rounds"@,
        )[i]) == crate::laws::values::list_of(before, "rounds"@)[i]
}

proof fn latest_rounds_are_found(rounds: Seq<crate::json::JsonView>)
    ensures
        forall|at: int| #[trigger]
            is_latest(rounds, at) ==> crate::lists::last_position(rounds, crate::work_items::records::is_object()) == Some(at),
        crate::lists::last_position(rounds, crate::work_items::records::is_object()) is Some ==> is_latest(
            rounds,
            crate::lists::last_position(rounds, crate::work_items::records::is_object())->0,
        ),
        crate::lists::last_position(rounds, crate::work_items::records::is_object()) is None ==> forall|i: int|
            0 <= i < rounds.len() ==> !((#[trigger] rounds[i]) is Object),
    decreases rounds.len(),
{
    if rounds.len() > 0 {
        let rest = rounds.drop_last();
        let last: int = rounds.len() - 1;
        latest_rounds_are_found(rest);
        assert(rounds[last] == rounds.last());
        if rounds[last] is Object {
            assert(is_latest(rounds, last));
            assert forall|at: int| #[trigger] is_latest(rounds, at) implies at == last by {
                if at < last {
                    assert(!(rounds[last] is Object));
                }
            }
        } else {
            assert forall|at: int| #[trigger] is_latest(
                rounds,
                at,
            ) implies crate::lists::last_position(rounds, crate::work_items::records::is_object()) == Some(at) by {
                assert forall|i: int| at < i < rest.len() implies !((
                #[trigger] rest[i]) is Object) by {
                    assert(rest[i] == rounds[i]);
                }
                assert(is_latest(rest, at));
            }
            if crate::lists::last_position(rest, crate::work_items::records::is_object()) is Some {
                let at = crate::lists::last_position(rest, crate::work_items::records::is_object())->0;
                assert forall|i: int| at < i < rounds.len() implies !((
                #[trigger] rounds[i]) is Object) by {
                    if i < last {
                        assert(rest[i] == rounds[i]);
                    }
                }
                assert(is_latest(rounds, at));
            } else {
                assert forall|i: int| 0 <= i < rounds.len() implies !((
                #[trigger] rounds[i]) is Object) by {
                    if i < last {
                        assert(rest[i] == rounds[i]);
                    }
                }
            }
        }
    }
}

/// The latest round of a record is the last of its rounds that is an object;
/// without one it is not found.
pub proof fn the_latest_round_is_the_last_object(
    record: crate::json::JsonView,
    goal_id: Seq<char>,
)
    ensures
        crate::work_items::records::latest_round(record, goal_id) is Ok == has_round(record),
        has_round(record) ==> ({
            let (at, round) = crate::work_items::records::latest_round(record, goal_id)->Ok_0;
            is_latest(crate::laws::values::list_of(record, "rounds"@), at) && round == crate::laws::values::list_of(record, "rounds"@)[at]
        }),
        !has_round(record) ==> crate::work_items::records::latest_round(record, goal_id)->Err_0 is NotFound,
        forall|at: int| #[trigger]
            is_latest(crate::laws::values::list_of(record, "rounds"@), at) && crate::laws::values::has_list(record, "rounds"@)
                ==> has_round(record) && crate::work_items::records::latest_round(record, goal_id)->Ok_0.0 == at,
{
    if crate::laws::values::has_list(record, "rounds"@) {
        let rounds = crate::laws::values::list_of(record, "rounds"@);
        latest_rounds_are_found(rounds);
        if crate::lists::last_position(rounds, crate::work_items::records::is_object()) is Some {
            let at = crate::lists::last_position(rounds, crate::work_items::records::is_object())->0;
            assert(rounds[at] is Object);
        }
        assert forall|at: int| #[trigger] is_latest(rounds, at) implies has_round(record) by {
            assert(rounds[at] is Object);
        }
    }
}

proof fn record_keys_differ()
    ensures
        "name"@ != "priority"@,
        "name"@ != "reporter"@,
        "name"@ != "updated"@,
        "name"@ != "status"@,
        "name"@ != "rounds"@,
        "name"@ != "notes"@,
        "name"@ != "branch_name"@,
        "name"@ != "target_branch"@,
        "name"@ != "base_commit"@,
        "name"@ != "candidate_commit"@,
        "name"@ != "feature_id"@,
        "name"@ != "feature_order"@,
        "name"@ != "node_id"@,
        "priority"@ != "reporter"@,
        "priority"@ != "updated"@,
        "priority"@ != "status"@,
        "priority"@ != "rounds"@,
        "priority"@ != "notes"@,
        "priority"@ != "branch_name"@,
        "priority"@ != "target_branch"@,
        "priority"@ != "base_commit"@,
        "priority"@ != "candidate_commit"@,
        "priority"@ != "feature_id"@,
        "priority"@ != "feature_order"@,
        "priority"@ != "node_id"@,
        "reporter"@ != "updated"@,
        "reporter"@ != "status"@,
        "reporter"@ != "rounds"@,
        "reporter"@ != "notes"@,
        "reporter"@ != "branch_name"@,
        "reporter"@ != "target_branch"@,
        "reporter"@ != "base_commit"@,
        "reporter"@ != "candidate_commit"@,
        "reporter"@ != "feature_id"@,
        "reporter"@ != "feature_order"@,
        "reporter"@ != "node_id"@,
        "updated"@ != "status"@,
        "updated"@ != "rounds"@,
        "updated"@ != "notes"@,
        "updated"@ != "branch_name"@,
        "updated"@ != "target_branch"@,
        "updated"@ != "base_commit"@,
        "updated"@ != "candidate_commit"@,
        "updated"@ != "feature_id"@,
        "updated"@ != "feature_order"@,
        "updated"@ != "node_id"@,
        "status"@ != "rounds"@,
        "status"@ != "notes"@,
        "status"@ != "branch_name"@,
        "status"@ != "target_branch"@,
        "status"@ != "base_commit"@,
        "status"@ != "candidate_commit"@,
        "status"@ != "feature_id"@,
        "status"@ != "feature_order"@,
        "status"@ != "node_id"@,
        "rounds"@ != "notes"@,
        "rounds"@ != "branch_name"@,
        "rounds"@ != "target_branch"@,
        "rounds"@ != "base_commit"@,
        "rounds"@ != "candidate_commit"@,
        "rounds"@ != "feature_id"@,
        "rounds"@ != "feature_order"@,
        "rounds"@ != "node_id"@,
        "notes"@ != "branch_name"@,
        "notes"@ != "target_branch"@,
        "notes"@ != "base_commit"@,
        "notes"@ != "candidate_commit"@,
        "notes"@ != "feature_id"@,
        "notes"@ != "feature_order"@,
        "notes"@ != "node_id"@,
        "branch_name"@ != "target_branch"@,
        "branch_name"@ != "base_commit"@,
        "branch_name"@ != "candidate_commit"@,
        "branch_name"@ != "feature_id"@,
        "branch_name"@ != "feature_order"@,
        "branch_name"@ != "node_id"@,
        "target_branch"@ != "base_commit"@,
        "target_branch"@ != "candidate_commit"@,
        "target_branch"@ != "feature_id"@,
        "target_branch"@ != "feature_order"@,
        "target_branch"@ != "node_id"@,
        "base_commit"@ != "candidate_commit"@,
        "base_commit"@ != "feature_id"@,
        "base_commit"@ != "feature_order"@,
        "base_commit"@ != "node_id"@,
        "candidate_commit"@ != "feature_id"@,
        "candidate_commit"@ != "feature_order"@,
        "candidate_commit"@ != "node_id"@,
        "feature_id"@ != "feature_order"@,
        "feature_id"@ != "node_id"@,
        "feature_order"@ != "node_id"@,
{
    reveal_strlit("name");
    reveal_strlit("priority");
    reveal_strlit("reporter");
    reveal_strlit("updated");
    reveal_strlit("status");
    reveal_strlit("rounds");
    reveal_strlit("notes");
    reveal_strlit("branch_name");
    reveal_strlit("target_branch");
    reveal_strlit("base_commit");
    reveal_strlit("candidate_commit");
    reveal_strlit("feature_id");
    reveal_strlit("feature_order");
    reveal_strlit("node_id");
    assert("name"@.len() == 4);
    assert("priority"@.len() == 8);
    assert("reporter"@.len() == 8);
    assert("updated"@.len() == 7);
    assert("status"@.len() == 6);
    assert("rounds"@.len() == 6);
    assert("notes"@.len() == 5);
    assert("branch_name"@.len() == 11);
    assert("target_branch"@.len() == 13);
    assert("base_commit"@.len() == 11);
    assert("candidate_commit"@.len() == 16);
    assert("feature_id"@.len() == 10);
    assert("feature_order"@.len() == 13);
    assert("node_id"@.len() == 7);
    assert("priority"@[0] == 'p');
    assert("reporter"@[0] == 'r');
    assert("updated"@[0] == 'u');
    assert("status"@[0] == 's');
    assert("rounds"@[0] == 'r');
    assert("branch_name"@[1] == 'r');
    assert("target_branch"@[0] == 't');
    assert("base_commit"@[1] == 'a');
    assert("feature_order"@[0] == 'f');
    assert("node_id"@[0] == 'n');
}

proof fn round_keys_differ()
    ensures
        "reporter"@ != "assignee"@,
        "reporter"@ != "prompt"@,
        "reporter"@ != "updated"@,
        "reporter"@ != "failure_category"@,
        "reporter"@ != "failure_message"@,
        "reporter"@ != "failure_at"@,
        "reporter"@ != "implementation_report"@,
        "reporter"@ != "implementation_reported_at"@,
        "assignee"@ != "prompt"@,
        "assignee"@ != "updated"@,
        "assignee"@ != "failure_category"@,
        "assignee"@ != "failure_message"@,
        "assignee"@ != "failure_at"@,
        "assignee"@ != "implementation_report"@,
        "assignee"@ != "implementation_reported_at"@,
        "prompt"@ != "updated"@,
        "prompt"@ != "failure_category"@,
        "prompt"@ != "failure_message"@,
        "prompt"@ != "failure_at"@,
        "prompt"@ != "implementation_report"@,
        "prompt"@ != "implementation_reported_at"@,
        "updated"@ != "failure_category"@,
        "updated"@ != "failure_message"@,
        "updated"@ != "failure_at"@,
        "updated"@ != "implementation_report"@,
        "updated"@ != "implementation_reported_at"@,
        "failure_category"@ != "failure_message"@,
        "failure_category"@ != "failure_at"@,
        "failure_category"@ != "implementation_report"@,
        "failure_category"@ != "implementation_reported_at"@,
        "failure_message"@ != "failure_at"@,
        "failure_message"@ != "implementation_report"@,
        "failure_message"@ != "implementation_reported_at"@,
        "failure_at"@ != "implementation_report"@,
        "failure_at"@ != "implementation_reported_at"@,
        "implementation_report"@ != "implementation_reported_at"@,
{
    reveal_strlit("reporter");
    reveal_strlit("assignee");
    reveal_strlit("prompt");
    reveal_strlit("updated");
    reveal_strlit("failure_category");
    reveal_strlit("failure_message");
    reveal_strlit("failure_at");
    reveal_strlit("implementation_report");
    reveal_strlit("implementation_reported_at");
    assert("reporter"@.len() == 8);
    assert("assignee"@.len() == 8);
    assert("prompt"@.len() == 6);
    assert("updated"@.len() == 7);
    assert("failure_category"@.len() == 16);
    assert("failure_message"@.len() == 15);
    assert("failure_at"@.len() == 10);
    assert("implementation_report"@.len() == 21);
    assert("implementation_reported_at"@.len() == 26);
    assert("reporter"@[0] == 'r');
    assert("assignee"@[0] == 'a');
}

proof fn note_keys_differ()
    ensures
        "id"@ != "author"@,
        "id"@ != "body"@,
        "id"@ != "created"@,
        "id"@ != "updated"@,
        "author"@ != "body"@,
        "author"@ != "created"@,
        "author"@ != "updated"@,
        "body"@ != "created"@,
        "body"@ != "updated"@,
        "created"@ != "updated"@,
{
    reveal_strlit("id");
    reveal_strlit("author");
    reveal_strlit("body");
    reveal_strlit("created");
    reveal_strlit("updated");
    assert("id"@.len() == 2);
    assert("author"@.len() == 6);
    assert("body"@.len() == 4);
    assert("created"@.len() == 7);
    assert("updated"@.len() == 7);
    assert("created"@[0] == 'c');
    assert("updated"@[0] == 'u');
}

proof fn names_are_checked(name: PersonName)
    ensures
        crate::work_items::records::checked_reporter(name) is Ok == is_a_name(name),
        crate::work_items::records::checked_assignee(name) is Ok == is_a_name(name),
        is_a_name(name) ==> crate::work_items::records::checked_reporter(name)->Ok_0 == crate::text::trimmed(name.text@),
        is_a_name(name) ==> crate::work_items::records::checked_assignee(name)->Ok_0 == crate::text::trimmed(name.text@),
        !is_a_name(name) ==> crate::work_items::records::checked_reporter(name)->Err_0 is InvalidInput
            && crate::work_items::records::checked_assignee(name)->Err_0 is InvalidInput,
        (crate::text::trimmed(name.text@).len() == 0) == crate::laws::texts::only_spaces(name.text@),
{
    crate::laws::texts::blank_texts_hold_only_white_space(name.text@);
}

/// Names are taken without the white space around them; one that is not empty
/// has to be accepted by the naming rules.
pub proof fn only_accepted_names_are_taken(name: PersonName)
    ensures
        crate::work_items::records::checked_reporter(name) is Ok == is_a_name(name),
        crate::work_items::records::checked_assignee(name) is Ok == is_a_name(name),
        is_a_name(name) ==> crate::work_items::records::checked_reporter(name)->Ok_0 == crate::text::trimmed(name.text@)
            && crate::work_items::records::checked_assignee(name)->Ok_0 == crate::text::trimmed(name.text@),
        !is_a_name(name) ==> crate::work_items::records::checked_reporter(name)->Err_0 is InvalidInput
            && crate::work_items::records::checked_assignee(name)->Err_0 is InvalidInput,
{
    names_are_checked(name);
}

proof fn ready_records_are_read(service: FileWorkItemService, access: GoalAccess, node: Seq<char>)
    requires
        crate::laws::owning::checked_against(service, access.registered_node, node),
    ensures
        crate::work_items::owned_record(service, access) is Ok == is_ready(service, access, node),
        is_ready(service, access, node) ==> crate::work_items::owned_record(service, access)->Ok_0 == record_of(
            access,
        ),
        (crate::work_items::edit_gate(access) is None) == is_allowed(access),
{
    crate::laws::owning::records_are_read_for_their_owner(service, access, node);
}

/// A goal is put into a status exactly where its record can be changed. The
/// status and the time are set and nothing else changes, but that the latest
/// round of a goal that did not fail carries no failure.
pub proof fn a_status_is_set_where_the_record_is_ready(
    service: FileWorkItemService,
    access: GoalAccess,
    node: Seq<char>,
    status: GoalStatus,
    now: Seq<char>,
    key: Seq<char>,
    at: int,
)
    requires
        crate::laws::owning::checked_against(service, access.registered_node, node),
    ensures
        ({
            let result = crate::work_items::records::status_set(service, access, status, now);
            let before = record_of(access);
            let after = result->Ok_0;
            &&& result is Ok == is_ready(service, access, node)
            &&& result is Ok ==> crate::laws::values::says(after, "updated"@, now)
            &&& result is Ok ==> crate::laws::values::says(after, "status"@, crate::model::status_name(status))
            &&& result is Ok && key != "status"@ && key != "updated"@ && key != "rounds"@
                ==> crate::laws::values::agree(after, before, key)
            &&& result is Ok && (status is Failed || !has_round(before)) ==> crate::laws::values::agree(
                after,
                before,
                "rounds"@,
            )
            &&& result is Ok && !(status is Failed) && crate::laws::values::has_list(before, "rounds"@) && is_latest(
                crate::laws::values::list_of(before, "rounds"@),
                at,
            ) ==> {
                let round = crate::laws::values::list_of(after, "rounds"@)[at];
                &&& only_round_changed(before, after, at)
                &&& crate::laws::values::says(round, "failure_category"@, ""@)
                &&& crate::laws::values::says(round, "failure_message"@, ""@)
                &&& crate::laws::values::says(round, "failure_at"@, ""@)
                &&& key != "failure_category"@ && key != "failure_message"@ && key
                    != "failure_at"@ ==> crate::laws::values::agree(round, crate::laws::values::list_of(before, "rounds"@)[at], key)
            }
        }),
{
    ready_records_are_read(service, access, node);
    record_keys_differ();
    round_keys_differ();
    let moved = crate::work_items::records::with_text(record_of(access), "status"@, crate::model::status_name(status));
    the_latest_round_is_the_last_object(moved, Seq::empty());
    if is_ready(service, access, node) && crate::laws::values::has_list(record_of(access), "rounds"@) {
        assert(crate::laws::values::list_of(moved, "rounds"@) == crate::laws::values::list_of(record_of(access), "rounds"@));
        assert(has_round(moved) == has_round(record_of(access)));
    }
}

/// A goal is moved to a place of a feature, or out of it, and nothing else of it
/// changes.
pub proof fn a_membership_is_set_where_the_record_is_ready(
    service: FileWorkItemService,
    access: GoalAccess,
    node: Seq<char>,
    feature_id: Option<Seq<char>>,
    order: Option<i64>,
    now: Seq<char>,
    key: Seq<char>,
)
    requires
        crate::laws::owning::checked_against(service, access.registered_node, node),
    ensures
        ({
            let result = crate::work_items::records::membership_set(service, access, feature_id, order, now);
            let after = result->Ok_0;
            &&& result is Ok == is_ready(service, access, node)
            &&& result is Ok ==> crate::laws::values::says(after, "updated"@, now)
            &&& result is Ok && feature_id is Some ==> crate::laws::values::says(after, "feature_id"@, feature_id->0)
            &&& result is Ok && feature_id is None ==> crate::laws::values::holds(
                after,
                "feature_id"@,
                crate::json::JsonView::Null,
            )
            &&& result is Ok && order is Some && order->0 >= 0 ==> crate::laws::values::counts(
                after,
                "feature_order"@,
                order->0 as u64,
            )
            &&& result is Ok && order is None ==> crate::laws::values::holds(
                after,
                "feature_order"@,
                crate::json::JsonView::Null,
            )
            &&& result is Ok && key != "feature_id"@ && key != "feature_order"@ && key
                != "updated"@ ==> crate::laws::values::agree(after, record_of(access), key)
        }),
{
    ready_records_are_read(service, access, node);
    record_keys_differ();
}

/// A goal gets a priority or a reporter, and nothing else of it changes.
pub proof fn a_priority_or_reporter_is_set_where_the_record_is_ready(
    service: FileWorkItemService,
    access: GoalAccess,
    node: Seq<char>,
    priority: Seq<char>,
    reporter: PersonName,
    now: Seq<char>,
    key: Seq<char>,
)
    requires
        crate::laws::owning::checked_against(service, access.registered_node, node),
    ensures
        ({
            let ranked = crate::work_items::records::priority_set(service, access, priority, now);
            let reported = crate::work_items::records::reporter_set(service, access, reporter, now);
            &&& ranked is Ok == is_ready(service, access, node)
            &&& ranked is Ok ==> crate::laws::values::says(ranked->Ok_0, "priority"@, priority) && crate::laws::values::says(
                ranked->Ok_0,
                "updated"@,
                now,
            )
            &&& ranked is Ok && key != "priority"@ && key != "updated"@ ==> crate::laws::values::agree(
                ranked->Ok_0,
                record_of(access),
                key,
            )
            &&& reported is Ok == (is_a_name(reporter) && is_ready(service, access, node))
            &&& reported is Ok ==> holds_name(reported->Ok_0, "reporter"@, reporter.text@)
                && crate::laws::values::says(reported->Ok_0, "updated"@, now)
            &&& reported is Ok && key != "reporter"@ && key != "updated"@ ==> crate::laws::values::agree(
                reported->Ok_0,
                record_of(access),
                key,
            )
            &&& crate::work_items::rounds::reporter_updated(service, access, reporter, now) is Ok == (is_allowed(access)
                && reported is Ok)
            &&& is_allowed(access) ==> crate::work_items::rounds::reporter_updated(service, access, reporter, now)
                == reported
        }),
{
    ready_records_are_read(service, access, node);
    record_keys_differ();
    names_are_checked(reporter);
}

/// A goal or feature is given to a node whoever owns it, and nothing else of it
/// changes.
pub proof fn a_node_is_set_whoever_owns_the_record(
    service: FileWorkItemService,
    access: GoalAccess,
    path: Seq<char>,
    record: RefineResult<Json>,
    target: Seq<char>,
    now: Seq<char>,
    key: Seq<char>,
)
    ensures
        ({
            let goal = crate::work_items::records::node_set(service, access, target, now);
            let feature = crate::work_items::records::feature_node_set(path, record, target, now);
            &&& goal is Ok == (access.summary is Some && access.record is Ok && record_of(
                access,
            ) is Object)
            &&& goal is Ok ==> crate::laws::values::says(goal->Ok_0, "node_id"@, target) && crate::laws::values::says(
                goal->Ok_0,
                "updated"@,
                now,
            )
            &&& goal is Ok && key != "node_id"@ && key != "updated"@ ==> crate::laws::values::agree(
                goal->Ok_0,
                record_of(access),
                key,
            )
            &&& feature is Ok == (record is Ok && (record->Ok_0)@ is Object)
            &&& feature is Ok ==> crate::laws::values::says(feature->Ok_0, "node_id"@, target) && crate::laws::values::says(
                feature->Ok_0,
                "updated"@,
                now,
            )
            &&& feature is Ok && key != "node_id"@ && key != "updated"@ ==> crate::laws::values::agree(
                feature->Ok_0,
                (record->Ok_0)@,
                key,
            )
        }),
{
    record_keys_differ();
}

/// The latest round of a goal gets an assignee, and nothing else of the goal
/// changes.
pub proof fn an_assignee_is_set_on_the_latest_round(
    service: FileWorkItemService,
    access: GoalAccess,
    node: Seq<char>,
    assignee: PersonName,
    now: Seq<char>,
    key: Seq<char>,
    at: int,
)
    requires
        crate::laws::owning::checked_against(service, access.registered_node, node),
    ensures
        ({
            let result = crate::work_items::records::assignee_set(service, access, assignee, now);
            let before = record_of(access);
            let after = result->Ok_0;
            &&& result is Ok == (is_a_name(assignee) && is_ready(service, access, node)
                && has_round(before))
            &&& result is Ok ==> crate::laws::values::says(after, "updated"@, now)
            &&& result is Ok && key != "rounds"@ && key != "updated"@ ==> crate::laws::values::agree(
                after,
                before,
                key,
            )
            &&& result is Ok && is_latest(crate::laws::values::list_of(before, "rounds"@), at) ==> {
                let round = crate::laws::values::list_of(after, "rounds"@)[at];
                &&& only_round_changed(before, after, at)
                &&& holds_name(round, "assignee"@, assignee.text@)
                &&& crate::laws::values::says(round, "updated"@, now)
                &&& key != "assignee"@ && key != "updated"@ ==> crate::laws::values::agree(
                    round,
                    crate::laws::values::list_of(before, "rounds"@)[at],
                    key,
                )
            }
            &&& crate::work_items::rounds::assignee_updated(service, access, assignee, now) is Ok == (is_allowed(access)
                && result is Ok)
            &&& is_allowed(access) ==> crate::work_items::rounds::assignee_updated(service, access, assignee, now)
                == result
        }),
{
    ready_records_are_read(service, access, node);
    record_keys_differ();
    round_keys_differ();
    names_are_checked(assignee);
    if access.record is Ok {
        the_latest_round_is_the_last_object(record_of(access), access.goal_id@);
    }
}

/// A metadata edit sets what it gives and nothing else. It is made exactly where
/// the workflow allows it, the record can be changed, the name is not blank, the
/// priority is a priority and the reporter is a name.
pub proof fn metadata_edits_set_what_they_give(
    service: FileWorkItemService,
    access: GoalAccess,
    node: Seq<char>,
    edit: MetadataEdit,
    now: Seq<char>,
    key: Seq<char>,
)
    requires
        crate::laws::owning::checked_against(service, access.registered_node, node),
    ensures
        ({
            let result = crate::work_items::rounds::metadata_edited(service, access, edit, now);
            let before = record_of(access);
            let after = result->Ok_0;
            let ranks = edit.priority is None || (edit.priority->0)@ == "low"@ || (
            edit.priority->0)@ == "medium"@ || (edit.priority->0)@ == "high"@;
            &&& result is Ok == (is_allowed(access) && is_ready(service, access, node) && ranks && (
            edit.name is None || !crate::laws::texts::only_spaces((edit.name->0)@)) && (
            edit.reporter is None || is_a_name(edit.reporter->0)))
            &&& result is Ok ==> crate::laws::values::says(after, "updated"@, now)
            &&& result is Ok && edit.name is Some ==> crate::laws::values::says(
                after,
                "name"@,
                crate::text::trimmed((edit.name->0)@),
            )
            &&& result is Ok && edit.name is None ==> crate::laws::values::agree(after, before, "name"@)
            &&& result is Ok && edit.priority is Some ==> crate::laws::values::says(
                after,
                "priority"@,
                (edit.priority->0)@,
            )
            &&& result is Ok && edit.priority is None ==> crate::laws::values::agree(after, before, "priority"@)
            &&& result is Ok && edit.reporter is Some ==> holds_name(
                after,
                "reporter"@,
                (edit.reporter->0).text@,
            )
            &&& result is Ok && edit.reporter is None ==> crate::laws::values::agree(after, before, "reporter"@)
            &&& result is Ok && key != "name"@ && key != "priority"@ && key != "reporter"@ && key
                != "updated"@ ==> crate::laws::values::agree(after, before, key)
        }),
{
    ready_records_are_read(service, access, node);
    record_keys_differ();
    if edit.reporter is Some {
        names_are_checked(edit.reporter->0);
    }
    if edit.name is Some {
        crate::laws::texts::blank_texts_hold_only_white_space((edit.name->0)@);
    }
}

/// Where an assignee is given too, the latest round of the edited record gets
/// it, or the refusal is told beside the edit, which stands.
pub proof fn metadata_edits_stand_whatever_becomes_of_the_assignee(
    service: FileWorkItemService,
    access: GoalAccess,
    edit: MetadataEdit,
    now: Seq<char>,
    then: Seq<char>,
)
    ensures
        ({
            let first = crate::work_items::rounds::metadata_edited(service, access, edit, now);
            let both = crate::work_items::rounds::metadata_changed(service, access, edit, now, then);
            &&& both is Ok == first is Ok
            &&& first is Err ==> both->Err_0 == first->Err_0
            &&& both is Ok ==> both->Ok_0.metadata == first->Ok_0
            &&& both is Ok && edit.assignee is None ==> both->Ok_0.assigned is None
            &&& both is Ok && edit.assignee is Some ==> both->Ok_0.assigned is Some
                && both->Ok_0.assigned->0 is Ok == (is_a_name(edit.assignee->0) && has_round(
                first->Ok_0,
            ))
        }),
{
    if edit.assignee is Some {
        names_are_checked(edit.assignee->0);
    }
    if crate::work_items::rounds::metadata_edited(service, access, edit, now) is Ok {
        the_latest_round_is_the_last_object(
            crate::work_items::rounds::metadata_edited(service, access, edit, now)->Ok_0,
            access.goal_id@,
        );
    }
}

/// A note of a goal holds its parts.
pub open spec fn is_note(
    note: crate::json::JsonView,
    id: Seq<char>,
    author: Seq<char>,
    body: Seq<char>,
    created: Seq<char>,
    updated: Seq<char>,
) -> bool {
    crate::laws::values::says(note, "id"@, id) && crate::laws::values::says(note, "author"@, author) && crate::laws::values::says(note, "body"@, body)
        && crate::laws::values::says(note, "created"@, created) && crate::laws::values::says(note, "updated"@, updated)
}

/// A note is added behind those that are there, exactly where it is allowed, the
/// record can be changed and the note says something.
pub proof fn notes_are_added_behind_the_others(
    service: FileWorkItemService,
    access: GoalAccess,
    node: Seq<char>,
    author: Seq<char>,
    body: Seq<char>,
    id: Seq<char>,
    now: Seq<char>,
    key: Seq<char>,
)
    requires
        crate::laws::owning::checked_against(service, access.registered_node, node),
    ensures
        ({
            let result = crate::work_items::rounds::note_added(service, access, author, body, id, now);
            let before = record_of(access);
            let after = result->Ok_0;
            let old_notes = if crate::laws::values::has_list(before, "notes"@) {
                crate::laws::values::list_of(before, "notes"@)
            } else {
                Seq::empty()
            };
            &&& result is Ok == (is_allowed(access) && is_ready(service, access, node)
                && !crate::laws::texts::only_spaces(body))
            &&& result is Ok ==> crate::laws::values::says(after, "updated"@, now) && crate::laws::values::has_list(after, "notes"@)
            &&& result is Ok ==> crate::laws::values::list_of(after, "notes"@).len() == old_notes.len() + 1
                && crate::laws::values::list_of(after, "notes"@).take(old_notes.len() as int) == old_notes && is_note(
                crate::laws::values::list_of(after, "notes"@)[old_notes.len() as int],
                id,
                crate::text::trimmed(author),
                crate::text::trimmed(body),
                now,
                now,
            )
            &&& result is Ok && key != "notes"@ && key != "updated"@ ==> crate::laws::values::agree(
                after,
                before,
                key,
            )
        }),
{
    ready_records_are_read(service, access, node);
    record_keys_differ();
    note_keys_differ();
    crate::laws::texts::blank_texts_hold_only_white_space(body);
    if crate::work_items::rounds::note_added(service, access, author, body, id, now) is Ok {
        let before = record_of(access);
        let after = crate::work_items::rounds::note_added(service, access, author, body, id, now)->Ok_0;
        let old_notes = if crate::laws::values::has_list(before, "notes"@) {
            crate::laws::values::list_of(before, "notes"@)
        } else {
            Seq::empty()
        };
        assert(crate::laws::values::list_of(after, "notes"@).take(old_notes.len() as int) =~= old_notes);
    }
}

/// A text that a note brings, or another where it brings none.
pub open spec fn brought_or(
    note: crate::json::JsonView,
    key: Seq<char>,
    other: Seq<char>,
) -> Seq<char> {
    if crate::laws::values::names_something(note, key) {
        crate::laws::values::text_of(note, key)
    } else {
        other
    }
}

/// A note is stored exactly where it is an object that says something; it keeps
/// its id, its author and its time, and gets what it lacks.
pub proof fn notes_are_stored_with_what_they_bring(
    note: crate::json::JsonView,
    fresh: Seq<char>,
    now: Seq<char>,
)
    ensures
        ({
            let stored = crate::work_items::rounds::cleaned_note(note, fresh, now);
            &&& stored is Ok == (note is Object && crate::laws::values::names_something(note, "body"@))
            &&& stored is Err ==> stored->Err_0 is InvalidInput
            &&& stored is Ok && crate::laws::values::has_text(note, "author"@) ==> is_note(
                stored->Ok_0,
                brought_or(note, "id"@, fresh),
                crate::text::trimmed(crate::laws::values::text_of(note, "author"@)),
                crate::text::trimmed(crate::laws::values::text_of(note, "body"@)),
                brought_or(note, "created"@, now),
                now,
            )
            &&& stored is Ok && !crate::laws::values::has_text(note, "author"@) ==> is_note(
                stored->Ok_0,
                brought_or(note, "id"@, fresh),
                ""@,
                crate::text::trimmed(crate::laws::values::text_of(note, "body"@)),
                brought_or(note, "created"@, now),
                now,
            )
        }),
{
    note_keys_differ();
    reveal_strlit("");
    if crate::laws::values::has_text(note, "body"@) {
        crate::laws::texts::blank_texts_hold_only_white_space(crate::laws::values::text_of(note, "body"@));
    }
    if crate::laws::values::has_text(note, "id"@) {
        crate::laws::texts::blank_texts_hold_only_white_space(crate::laws::values::text_of(note, "id"@));
    }
    if crate::laws::values::has_text(note, "created"@) {
        crate::laws::texts::blank_texts_hold_only_white_space(crate::laws::values::text_of(note, "created"@));
    }
}

/// The notes of a goal are replaced as a whole, exactly where each of them can
/// be stored; each is stored at its own place.
pub proof fn notes_are_replaced_together(
    notes: Seq<crate::json::JsonView>,
    fresh: Seq<Seq<char>>,
    now: Seq<char>,
)
    ensures
        ({
            let stored = crate::work_items::rounds::cleaned_notes(notes, fresh, now);
            &&& stored is Ok == forall|i: int|
                0 <= i < notes.len() ==> crate::work_items::rounds::cleaned_note(#[trigger] notes[i], fresh[i], now) is Ok
            &&& stored is Ok ==> stored->Ok_0.len() == notes.len() && forall|i: int|
                0 <= i < notes.len() ==> #[trigger] stored->Ok_0[i] == crate::work_items::rounds::cleaned_note(
                    notes[i],
                    fresh[i],
                    now,
                )->Ok_0
        }),
    decreases notes.len(),
{
    if notes.len() > 0 {
        let rest = notes.drop_last();
        let last: int = notes.len() - 1;
        notes_are_replaced_together(rest, fresh, now);
        assert(notes[last] == notes.last());
        let stored = crate::work_items::rounds::cleaned_notes(notes, fresh, now);
        if stored is Ok {
            let before = crate::work_items::rounds::cleaned_notes(rest, fresh, now)->Ok_0;
            assert forall|i: int| 0 <= i < notes.len() implies crate::work_items::rounds::cleaned_note(
                #[trigger] notes[i],
                fresh[i],
                now,
            ) is Ok by {
                if i < last {
                    assert(rest[i] == notes[i]);
                    assert(crate::work_items::rounds::cleaned_note(rest[i], fresh[i], now) is Ok);
                }
            }
            assert forall|i: int| 0 <= i < notes.len() implies #[trigger] stored->Ok_0[i]
                == crate::work_items::rounds::cleaned_note(notes[i], fresh[i], now)->Ok_0 by {
                if i < last {
                    assert(stored->Ok_0[i] == before[i]);
                    assert(rest[i] == notes[i]);
                }
            }
        } else if forall|i: int|
            0 <= i < notes.len() ==> crate::work_items::rounds::cleaned_note(#[trigger] notes[i], fresh[i], now) is Ok {
            assert(crate::work_items::rounds::cleaned_note(notes[last], fresh[last], now) is Ok);
            assert forall|i: int| 0 <= i < rest.len() implies crate::work_items::rounds::cleaned_note(
                #[trigger] rest[i],
                fresh[i],
                now,
            ) is Ok by {
                assert(rest[i] == notes[i]);
            }
        }
    }
}

/// Replaced notes stand in the record, and nothing else of it changes.
pub proof fn replaced_notes_stand_in_the_record(
    service: FileWorkItemService,
    access: GoalAccess,
    node: Seq<char>,
    notes: Seq<crate::json::JsonView>,
    fresh: Seq<Seq<char>>,
    now: Seq<char>,
    key: Seq<char>,
)
    requires
        crate::laws::owning::checked_against(service, access.registered_node, node),
    ensures
        ({
            let stored = crate::work_items::rounds::cleaned_notes(notes, fresh, now);
            let result = crate::work_items::rounds::notes_replaced(service, access, notes, fresh, now);
            &&& result is Ok == (is_allowed(access) && stored is Ok && is_ready(
                service,
                access,
                node,
            ))
            &&& result is Ok ==> crate::laws::values::holds(
                result->Ok_0,
                "notes"@,
                crate::json::JsonView::Array(stored->Ok_0),
            ) && crate::laws::values::says(result->Ok_0, "updated"@, now)
            &&& result is Ok && key != "notes"@ && key != "updated"@ ==> crate::laws::values::agree(
                result->Ok_0,
                record_of(access),
                key,
            )
        }),
{
    ready_records_are_read(service, access, node);
    record_keys_differ();
}

/// A round can be made exactly where it has a reporter and a prompt and both
/// people are names; where no assignee is given the reporter is to do it.
pub proof fn rounds_need_a_reporter_and_a_prompt(input: RoundInput)
    ensures
        ({
            let round = crate::work_items::rounds::checked_round(input);
            let given = input.assignee is Some && !crate::laws::texts::only_spaces(
                (input.assignee->0).text@,
            );
            &&& round is Ok == (is_a_name(input.reporter) && (input.assignee is None || is_a_name(
                input.assignee->0,
            )) && !crate::laws::texts::only_spaces(input.reporter.text@)
                && !crate::laws::texts::only_spaces(input.prompt@))
            &&& round is Err ==> round->Err_0 is InvalidInput
            &&& round is Ok ==> round->Ok_0.reporter == crate::text::trimmed(input.reporter.text@)
                && round->Ok_0.prompt == crate::text::trimmed(input.prompt@)
            &&& round is Ok && given ==> round->Ok_0.assignee == crate::text::trimmed(
                (input.assignee->0).text@,
            )
            &&& round is Ok && !given ==> round->Ok_0.assignee == crate::text::trimmed(
                input.reporter.text@,
            )
        }),
{
    names_are_checked(input.reporter);
    crate::laws::texts::blank_texts_hold_only_white_space(input.prompt@);
    if input.assignee is Some {
        names_are_checked(input.assignee->0);
    }
}

/// A round is added behind those that are there, with its parts; a goal in
/// review is to be done again, and any other stays in its status.
pub proof fn rounds_are_added_behind_the_others(
    service: FileWorkItemService,
    access: GoalAccess,
    node: Seq<char>,
    input: RoundInput,
    base: crate::json::JsonView,
    now: Seq<char>,
    key: Seq<char>,
)
    requires
        crate::laws::owning::checked_against(service, access.registered_node, node),
    ensures
        ({
            let result = crate::work_items::rounds::round_appended(service, access, input, base, now);
            let parts = crate::work_items::rounds::checked_round(input)->Ok_0;
            let before = record_of(access);
            let after = result->Ok_0;
            let old_rounds = if crate::laws::values::has_list(before, "rounds"@) {
                crate::laws::values::list_of(before, "rounds"@)
            } else {
                Seq::empty()
            };
            let round = crate::laws::values::list_of(after, "rounds"@)[old_rounds.len() as int];
            &&& result is Ok == (crate::work_items::rounds::checked_round(input) is Ok && is_allowed(access) && is_ready(
                service,
                access,
                node,
            ))
            &&& result is Ok ==> crate::laws::values::says(after, "updated"@, now) && crate::laws::values::has_list(after, "rounds"@)
                && crate::laws::values::list_of(after, "rounds"@).len() == old_rounds.len() + 1 && crate::laws::values::list_of(
                after,
                "rounds"@,
            ).take(old_rounds.len() as int) == old_rounds
            &&& result is Ok ==> crate::laws::values::says(round, "reporter"@, parts.reporter) && crate::laws::values::says(
                round,
                "assignee"@,
                parts.assignee,
            ) && crate::laws::values::says(round, "prompt"@, parts.prompt)
            &&& result is Ok && base is Object && key != "reporter"@ && key != "assignee"@ && key
                != "prompt"@ ==> crate::laws::values::agree(round, base, key)
            &&& result is Ok && access.summary->0.status is Review ==> crate::laws::values::says(
                after,
                "status"@,
                "todo"@,
            )
            &&& result is Ok && !(access.summary->0.status is Review) ==> crate::laws::values::agree(
                after,
                before,
                "status"@,
            )
            &&& result is Ok && key != "rounds"@ && key != "status"@ && key != "updated"@
                ==> crate::laws::values::agree(after, before, key)
        }),
{
    ready_records_are_read(service, access, node);
    record_keys_differ();
    round_keys_differ();
    if crate::work_items::rounds::round_appended(service, access, input, base, now) is Ok {
        let before = record_of(access);
        let after = crate::work_items::rounds::round_appended(service, access, input, base, now)->Ok_0;
        let old_rounds = if crate::laws::values::has_list(before, "rounds"@) {
            crate::laws::values::list_of(before, "rounds"@)
        } else {
            Seq::empty()
        };
        assert(crate::laws::values::list_of(after, "rounds"@).take(old_rounds.len() as int) =~= old_rounds);
    }
}

/// The latest round is edited in what is given and nothing else.
pub proof fn round_edits_set_what_they_give(
    service: FileWorkItemService,
    access: GoalAccess,
    node: Seq<char>,
    edit: RoundEdit,
    now: Seq<char>,
    key: Seq<char>,
    at: int,
)
    requires
        crate::laws::owning::checked_against(service, access.registered_node, node),
    ensures
        ({
            let result = crate::work_items::rounds::latest_round_edited(service, access, edit, now);
            let before = record_of(access);
            let after = result->Ok_0;
            &&& result is Ok == (is_allowed(access) && is_ready(service, access, node) && has_round(
                before,
            ) && (edit.reporter is None || is_a_name(edit.reporter->0)) && (edit.assignee is None
                || is_a_name(edit.assignee->0)))
            &&& result is Ok ==> crate::laws::values::says(after, "updated"@, now)
            &&& result is Ok && key != "rounds"@ && key != "updated"@ ==> crate::laws::values::agree(
                after,
                before,
                key,
            )
            &&& result is Ok && is_latest(crate::laws::values::list_of(before, "rounds"@), at) ==> {
                let old_round = crate::laws::values::list_of(before, "rounds"@)[at];
                let round = crate::laws::values::list_of(after, "rounds"@)[at];
                &&& only_round_changed(before, after, at)
                &&& crate::laws::values::says(round, "updated"@, now)
                &&& edit.reporter is Some ==> crate::laws::values::says(
                    round,
                    "reporter"@,
                    crate::text::trimmed((edit.reporter->0).text@),
                )
                &&& edit.reporter is None ==> crate::laws::values::agree(round, old_round, "reporter"@)
                &&& edit.assignee is Some ==> holds_name(
                    round,
                    "assignee"@,
                    (edit.assignee->0).text@,
                )
                &&& edit.assignee is None ==> crate::laws::values::agree(round, old_round, "assignee"@)
                &&& edit.prompt is Some ==> crate::laws::values::says(
                    round,
                    "prompt"@,
                    crate::text::trimmed((edit.prompt->0)@),
                )
                &&& edit.prompt is None ==> crate::laws::values::agree(round, old_round, "prompt"@)
                &&& key != "reporter"@ && key != "assignee"@ && key != "prompt"@ && key
                    != "updated"@ ==> crate::laws::values::agree(round, old_round, key)
            }
        }),
{
    ready_records_are_read(service, access, node);
    record_keys_differ();
    round_keys_differ();
    if edit.reporter is Some {
        names_are_checked(edit.reporter->0);
    }
    if edit.assignee is Some {
        names_are_checked(edit.assignee->0);
    }
    if access.record is Ok {
        the_latest_round_is_the_last_object(record_of(access), access.goal_id@);
    }
}

/// A text or nothing is kept without the white space around it, and as null
/// where it is blank.
pub open spec fn holds_text_or_null(
    record: crate::json::JsonView,
    key: Seq<char>,
    text: Option<Seq<char>>,
) -> bool {
    if text is Some && !crate::laws::texts::only_spaces(text->0) {
        crate::laws::values::says(record, key, crate::text::trimmed(text->0))
    } else {
        crate::laws::values::holds(record, key, crate::json::JsonView::Null)
    }
}

/// A goal gets its branch, its references or its candidate, each without the
/// white space around it, and nothing else of it changes.
pub proof fn references_are_set_where_the_record_is_ready(
    service: FileWorkItemService,
    access: GoalAccess,
    node: Seq<char>,
    branch: Option<Seq<char>>,
    refs: GitRefs,
    candidate: Seq<char>,
    now: Seq<char>,
    key: Seq<char>,
)
    requires
        crate::laws::owning::checked_against(service, access.registered_node, node),
    ensures
        ({
            let ready = is_ready(service, access, node);
            let before = record_of(access);
            let named = crate::work_items::rounds::branch_named(service, access, branch, now);
            let set = crate::work_items::rounds::refs_set(service, access, refs, now);
            let chosen = crate::work_items::rounds::candidate_set(service, access, candidate, now);
            &&& named is Ok == ready
            &&& named is Ok ==> holds_text_or_null(named->Ok_0, "branch_name"@, branch) && crate::laws::values::says(
                named->Ok_0,
                "updated"@,
                now,
            )
            &&& named is Ok && key != "branch_name"@ && key != "updated"@ ==> crate::laws::values::agree(
                named->Ok_0,
                before,
                key,
            )
            &&& set is Ok == (ready && !crate::laws::texts::only_spaces(refs.branch_name@)
                && !crate::laws::texts::only_spaces(refs.target_branch@)
                && !crate::laws::texts::only_spaces(refs.base_commit@))
            &&& set is Ok ==> crate::laws::values::says(
                set->Ok_0,
                "branch_name"@,
                crate::text::trimmed(refs.branch_name@),
            ) && crate::laws::values::says(
                set->Ok_0,
                "target_branch"@,
                crate::text::trimmed(refs.target_branch@),
            ) && crate::laws::values::says(set->Ok_0, "base_commit"@, crate::text::trimmed(refs.base_commit@))
                && holds_text_or_null(
                set->Ok_0,
                "candidate_commit"@,
                crate::text::maybe_view(refs.candidate_commit),
            ) && crate::laws::values::says(set->Ok_0, "updated"@, now)
            &&& set is Ok && key != "branch_name"@ && key != "target_branch"@ && key
                != "base_commit"@ && key != "candidate_commit"@ && key != "updated"@ ==> crate::laws::values::agree(
                set->Ok_0,
                before,
                key,
            )
            &&& chosen is Ok == (ready && !crate::laws::texts::only_spaces(candidate))
            &&& chosen is Ok ==> crate::laws::values::says(
                chosen->Ok_0,
                "candidate_commit"@,
                crate::text::trimmed(candidate),
            ) && crate::laws::values::says(chosen->Ok_0, "updated"@, now)
            &&& chosen is Ok && key != "candidate_commit"@ && key != "updated"@ ==> crate::laws::values::agree(
                chosen->Ok_0,
                before,
                key,
            )
        }),
{
    ready_records_are_read(service, access, node);
    record_keys_differ();
    crate::laws::texts::blank_texts_hold_only_white_space(candidate);
    crate::laws::texts::blank_texts_hold_only_white_space(refs.branch_name@);
    crate::laws::texts::blank_texts_hold_only_white_space(refs.target_branch@);
    crate::laws::texts::blank_texts_hold_only_white_space(refs.base_commit@);
    if branch is Some {
        crate::laws::texts::blank_texts_hold_only_white_space(branch->0);
    }
    if refs.candidate_commit is Some {
        crate::laws::texts::blank_texts_hold_only_white_space((refs.candidate_commit->0)@);
    }
}

/// A report is set on the latest round with its time, and nothing else of the
/// goal changes.
pub proof fn reports_are_set_on_the_latest_round(
    service: FileWorkItemService,
    access: GoalAccess,
    node: Seq<char>,
    report: Seq<char>,
    now: Seq<char>,
    key: Seq<char>,
    at: int,
)
    requires
        crate::laws::owning::checked_against(service, access.registered_node, node),
    ensures
        ({
            let result = crate::work_items::rounds::report_set(service, access, report, now);
            let before = record_of(access);
            let after = result->Ok_0;
            &&& result is Ok == (!crate::laws::texts::only_spaces(report) && is_ready(
                service,
                access,
                node,
            ) && has_round(before))
            &&& result is Ok && key != "rounds"@ && key != "updated"@ ==> crate::laws::values::agree(
                after,
                before,
                key,
            )
            &&& result is Ok && is_latest(crate::laws::values::list_of(before, "rounds"@), at) ==> {
                let round = crate::laws::values::list_of(after, "rounds"@)[at];
                &&& only_round_changed(before, after, at)
                &&& crate::laws::values::says(round, "implementation_report"@, crate::text::trimmed(report))
                &&& crate::laws::values::says(round, "implementation_reported_at"@, now)
                &&& crate::laws::values::says(round, "updated"@, now)
                &&& key != "implementation_report"@ && key != "implementation_reported_at"@ && key
                    != "updated"@ ==> crate::laws::values::agree(round, crate::laws::values::list_of(before, "rounds"@)[at], key)
            }
        }),
{
    ready_records_are_read(service, access, node);
    record_keys_differ();
    round_keys_differ();
    crate::laws::texts::blank_texts_hold_only_white_space(report);
    if access.record is Ok {
        the_latest_round_is_the_last_object(record_of(access), access.goal_id@);
    }
}

proof fn evaluations_are_taken_over(
    round: crate::json::JsonView,
    evaluation: crate::json::JsonView,
    keys: Seq<Seq<char>>,
    key: Seq<char>,
)
    requires
        round is Object,
    ensures
        crate::work_items::rounds::with_evaluation(round, evaluation, keys) is Object,
        keys.contains(key) && crate::laws::values::has_key(evaluation, key) ==> crate::laws::values::agree(
            crate::work_items::rounds::with_evaluation(round, evaluation, keys),
            evaluation,
            key,
        ),
        !keys.contains(key) || !crate::laws::values::has_key(evaluation, key) ==> crate::laws::values::agree(
            crate::work_items::rounds::with_evaluation(round, evaluation, keys),
            round,
            key,
        ),
    decreases keys.len(),
{
    if keys.len() > 0 {
        let rest = keys.drop_last();
        evaluations_are_taken_over(round, evaluation, rest, key);
        assert(keys[keys.len() - 1] == keys.last());
        if rest.contains(key) {
            let i = rest.index_of(key);
            assert(keys[i] == key);
        }
        if keys.contains(key) && key != keys.last() {
            let i = keys.index_of(key);
            assert(rest[i] == key);
        }
    }
}

/// An evaluation sets on its round what it gives among the fields that a round
/// takes over, and nothing else of the goal changes.
pub proof fn evaluations_are_set_on_their_round(
    service: FileWorkItemService,
    access: GoalAccess,
    node: Seq<char>,
    round_idx: nat,
    evaluation: crate::json::JsonView,
    now: Seq<char>,
    key: Seq<char>,
)
    requires
        crate::laws::owning::checked_against(service, access.registered_node, node),
    ensures
        ({
            let result = crate::work_items::rounds::round_evaluated(service, access, round_idx, evaluation, now);
            let before = record_of(access);
            let after = result->Ok_0;
            let old_round = crate::laws::values::list_of(before, "rounds"@)[round_idx as int];
            let round = crate::laws::values::list_of(after, "rounds"@)[round_idx as int];
            let taken = crate::work_items::rounds::evaluation_fields().contains(key) && crate::laws::values::has_key(evaluation, key);
            &&& result is Ok == (is_ready(service, access, node) && evaluation is Object
                && crate::laws::values::has_list(before, "rounds"@) && round_idx < crate::laws::values::list_of(before, "rounds"@).len()
                && old_round is Object)
            &&& result is Ok ==> only_round_changed(before, after, round_idx as int) && crate::laws::values::says(
                after,
                "updated"@,
                now,
            ) && crate::laws::values::says(round, "updated"@, now)
            &&& result is Ok && key != "updated"@ && taken ==> crate::laws::values::agree(round, evaluation, key)
            &&& result is Ok && key != "updated"@ && !taken ==> crate::laws::values::agree(round, old_round, key)
            &&& result is Ok && key != "rounds"@ && key != "updated"@ ==> crate::laws::values::agree(
                after,
                before,
                key,
            )
        }),
{
    ready_records_are_read(service, access, node);
    record_keys_differ();
    let before = record_of(access);
    if crate::laws::values::has_list(before, "rounds"@) && round_idx < crate::laws::values::list_of(before, "rounds"@).len()
        && crate::laws::values::list_of(before, "rounds"@)[round_idx as int] is Object {
        evaluations_are_taken_over(
            crate::laws::values::list_of(before, "rounds"@)[round_idx as int],
            evaluation,
            crate::work_items::rounds::evaluation_fields(),
            key,
        );
    }
}

/// The fields that a round takes over from its evaluation.
pub proof fn evaluations_carry_these_fields(i: int)
    requires
        0 <= i < 22,
    ensures
        crate::work_items::rounds::evaluation_fields().len() == 22,
        crate::work_items::rounds::evaluation_fields()[i] == seq![
            "agent_context"@,
            "guidance_decision"@,
            "rule_state"@,
            "meta_rule_state"@,
            "product_state"@,
            "constitution_state"@,
            "governance_message"@,
            "governance_details"@,
            "governance_checked_at"@,
            "governance_rule_actions"@,
            "quality_state"@,
            "quality_message"@,
            "quality_details"@,
            "quality_checked_at"@,
            "workflow_quality_timing"@,
            "workflow_git_remote"@,
            "workflow_integration"@,
            "workflow_reconciliation"@,
            "workflow_recovery"@,
            "failure_category"@,
            "failure_message"@,
            "failure_at"@,
        ][i],
{
}

/// The evaluation of the latest round is that of the last round that the
/// projection counts.
pub proof fn the_last_counted_round_is_evaluated(
    service: FileWorkItemService,
    access: GoalAccess,
    evaluation: crate::json::JsonView,
    now: Seq<char>,
)
    ensures
        ({
            let result = crate::work_items::rounds::latest_round_evaluated(service, access, evaluation, now);
            &&& access.summary is None || access.summary->0.round_count == 0 ==> result is Err
                && result->Err_0 is NotFound
            &&& access.summary is Some && access.summary->0.round_count > 0 ==> result
                == crate::work_items::rounds::round_evaluated(
                service,
                access,
                (access.summary->0.round_count - 1) as nat,
                evaluation,
                now,
            )
        }),
{
}

/// A deleted goal loses its record, and the index of live goals drops it.
pub proof fn deleted_goals_are_dropped(
    service: FileWorkItemService,
    goal: GoalIndexProjection,
    deletion: GoalDeletion,
)
    requires
        crate::work_items::rounds::deletes(service, goal, deletion),
    ensures
        deletion.path@ == crate::paths::joined(service.refine_dir@, goal.json_path@),
        deletion.index_record.id@ == goal.id@,
        deletion.index_record.goal is None && deletion.index_record.removed,
{
}

/// A goal is deleted exactly where the node owns it and the workflow allows it.
pub proof fn goals_are_deleted_by_their_owner(
    service: FileWorkItemService,
    access: GoalAccess,
    node: Seq<char>,
)
    requires
        crate::laws::owning::checked_against(service, access.registered_node, node),
    ensures
        (crate::work_items::rounds::deletion_gate(service, access) is None) == (is_allowed(access)
            && crate::laws::owning::belongs_to_node(access.summary->0.node_id, node)),
{
}

} // verus!

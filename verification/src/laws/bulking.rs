//! Which records a change to many takes, and what it makes of them.
use vstd::prelude::*;

use crate::errors::RefineResult;
use crate::model::{
    FeatureSummaryProjection, GoalStatus, GoalSummaryProjection, ProjectionSnapshot,
};
use crate::work_items::bulk::{BulkGoalStatusProtection, BulkSelection, BulkStatusFacts};
use crate::work_items::FileWorkItemService;

verus! {

/// An id as it is compared: without the white space around it, in upper case.
pub open spec fn compared(id: Seq<char>) -> Seq<char> {
    crate::text::uppercased(crate::text::trimmed(id))
}

/// An id is excluded by a selection.
pub open spec fn is_excluded(selection: BulkSelection, id: Seq<char>) -> bool {
    id.len() > 0 && exists|i: int|
        0 <= i < selection.exclude_ids@.len() && compared((#[trigger] selection.exclude_ids@[i])@)
            == id
}

/// A selection names an id.
pub open spec fn is_selected(selection: BulkSelection, id: Seq<char>) -> bool {
    selection.selected_ids is Some && id.len() > 0 && exists|i: int|
        0 <= i < (selection.selected_ids->0)@.len() && compared(
            (#[trigger] (selection.selected_ids->0)@[i])@,
        ) == id
}

/// The filter of a selection matches an id.
pub open spec fn is_matched(selection: BulkSelection, id: Seq<char>) -> bool {
    exists|i: int|
        0 <= i < selection.matching_ids@.len() && (#[trigger] selection.matching_ids@[i])@ == id
}

proof fn ids_are_compared(ids: Seq<String>, id: Seq<char>)
    ensures
        crate::work_items::bulk::plain_ids(ids).contains(id) == exists|i: int|
            0 <= i < ids.len() && compared((#[trigger] ids[i])@) == id,
{
    let plain = crate::work_items::bulk::plain_ids(ids);
    if plain.contains(id) {
        let i = plain.index_of(id);
        assert(compared(ids[i]@) == id);
    }
    if exists|i: int| 0 <= i < ids.len() && compared((#[trigger] ids[i])@) == id {
        let i = choose|i: int| 0 <= i < ids.len() && compared((#[trigger] ids[i])@) == id;
        assert(plain[i] == id);
    }
}

proof fn texts_are_among(texts: Seq<String>, text: Seq<char>)
    ensures
        crate::text::views(texts).contains(text) == exists|i: int|
            0 <= i < texts.len() && (#[trigger] texts[i])@ == text,
{
    let views = crate::text::views(texts);
    if views.contains(text) {
        let i = views.index_of(text);
        assert(texts[i]@ == text);
    }
    if exists|i: int| 0 <= i < texts.len() && (#[trigger] texts[i])@ == text {
        let i = choose|i: int| 0 <= i < texts.len() && (#[trigger] texts[i])@ == text;
        assert(views[i] == text);
    }
}

proof fn named_goals_are_taken(
    goals: Map<Seq<char>, GoalSummaryProjection>,
    ids: Seq<Seq<char>>,
    exclude: Seq<Seq<char>>,
    row: crate::model::GoalSummaryView,
)
    ensures
        ({
            let named = crate::work_items::bulk::named_goals(goals, ids, exclude);
            let asked = |i: int| 0 <= i < ids.len() && ids[i].len() > 0 && !exclude.contains(ids[i]);
            &&& named is Ok == forall|i: int| #[trigger] asked(i) ==> goals.contains_key(ids[i])
            &&& named is Err ==> named->Err_0 is NotFound
            &&& named is Ok ==> named->Ok_0.contains(row) == exists|i: int| #[trigger]
                asked(i) && goals[ids[i]]@ == row
        }),
    decreases ids.len(),
{
    let asked = |i: int| 0 <= i < ids.len() && ids[i].len() > 0 && !exclude.contains(ids[i]);
    if ids.len() > 0 {
        let rest = ids.drop_last();
        let last: int = ids.len() - 1;
        let before_asked = |i: int|
            0 <= i < rest.len() && rest[i].len() > 0 && !exclude.contains(rest[i]);
        named_goals_are_taken(goals, rest, exclude, row);
        let named = crate::work_items::bulk::named_goals(goals, ids, exclude);
        let before = crate::work_items::bulk::named_goals(goals, rest, exclude);
        assert(ids[last] == ids.last());
        assert forall|i: int| 0 <= i < last implies #[trigger] before_asked(i) == asked(i) by {
            assert(rest[i] == ids[i]);
        }
        if named is Ok {
            assert forall|i: int| #[trigger] asked(i) implies goals.contains_key(ids[i]) by {
                if i < last {
                    assert(before_asked(i));
                    assert(rest[i] == ids[i]);
                }
            }
            if named->Ok_0.contains(row) {
                let k = named->Ok_0.index_of(row);
                if before->Ok_0.contains(row) {
                    let i = choose|i: int| #[trigger] before_asked(i) && goals[rest[i]]@ == row;
                    assert(asked(i));
                    assert(rest[i] == ids[i]);
                } else {
                    if k < before->Ok_0.len() {
                        assert(before->Ok_0[k] == row);
                    }
                    assert(asked(last));
                }
            }
            if exists|i: int| #[trigger] asked(i) && goals[ids[i]]@ == row {
                let i = choose|i: int| #[trigger] asked(i) && goals[ids[i]]@ == row;
                if i < last {
                    assert(before_asked(i));
                    assert(rest[i] == ids[i]);
                    let k = before->Ok_0.index_of(row);
                    assert(named->Ok_0[k] == row);
                } else {
                    assert(named->Ok_0[named->Ok_0.len() - 1] == row);
                }
            }
        } else if forall|i: int| #[trigger] asked(i) ==> goals.contains_key(ids[i]) {
            assert forall|i: int| #[trigger] before_asked(i) implies goals.contains_key(
                rest[i],
            ) by {
                assert(asked(i));
                assert(rest[i] == ids[i]);
            }
            if asked(last) {
                assert(goals.contains_key(ids[last]));
            }
        }
    }
}

/// Named goals are taken exactly where every one of them that is not excluded is
/// known; each of these is taken and nothing else.
pub proof fn named_goals_are_taken_together(
    snapshot: ProjectionSnapshot,
    selection: BulkSelection,
    row: crate::model::GoalSummaryView,
)
    requires
        selection.selected_ids is Some,
    ensures
        ({
            let chosen = crate::work_items::bulk::chosen_goals(snapshot, selection);
            let wanted = |id: Seq<char>| is_selected(selection, id) && !is_excluded(selection, id);
            &&& chosen is Ok == forall|id: Seq<char>| #[trigger]
                wanted(id) ==> snapshot.goals@.contains_key(id)
            &&& chosen is Err ==> chosen->Err_0 is NotFound
            &&& chosen is Ok ==> chosen->Ok_0.contains(row) == exists|id: Seq<char>| #[trigger]
                wanted(id) && snapshot.goals@[id]@ == row
        }),
{
    let asked_ids = (selection.selected_ids->0)@;
    let ids = crate::work_items::bulk::plain_ids(asked_ids);
    let exclude = crate::work_items::bulk::plain_ids(selection.exclude_ids@);
    let goals = snapshot.goals@;
    let wanted = |id: Seq<char>| is_selected(selection, id) && !is_excluded(selection, id);
    let asked = |i: int| 0 <= i < ids.len() && ids[i].len() > 0 && !exclude.contains(ids[i]);
    named_goals_are_taken(goals, ids, exclude, row);
    assert forall|i: int| #[trigger] asked(i) implies wanted(ids[i]) by {
        ids_are_compared(selection.exclude_ids@, ids[i]);
        assert(compared(asked_ids[i]@) == ids[i]);
    }
    assert forall|id: Seq<char>| #[trigger] wanted(id) implies exists|i: int| #[trigger]
        asked(i) && ids[i] == id by {
        let i = choose|i: int|
            0 <= i < asked_ids.len() && compared((#[trigger] asked_ids[i])@) == id;
        ids_are_compared(selection.exclude_ids@, id);
        assert(ids[i] == id);
        assert(asked(i));
    }
    let chosen = crate::work_items::bulk::chosen_goals(snapshot, selection);
    if chosen is Ok {
        assert forall|id: Seq<char>| #[trigger] wanted(id) implies goals.contains_key(id) by {
            let i = choose|i: int| #[trigger] asked(i) && ids[i] == id;
            assert(asked(i));
        }
        if exists|id: Seq<char>| #[trigger] wanted(id) && goals[id]@ == row {
            let id = choose|id: Seq<char>| #[trigger] wanted(id) && goals[id]@ == row;
            let i = choose|i: int| #[trigger] asked(i) && ids[i] == id;
            assert(asked(i));
        }
        if exists|i: int| #[trigger] asked(i) && goals[ids[i]]@ == row {
            let i = choose|i: int| #[trigger] asked(i) && goals[ids[i]]@ == row;
            assert(wanted(ids[i]));
        }
    } else if forall|id: Seq<char>| #[trigger] wanted(id) ==> goals.contains_key(id) {
        assert forall|i: int| #[trigger] asked(i) implies goals.contains_key(ids[i]) by {
            assert(wanted(ids[i]));
        }
    }
}

/// Without named goals, those are taken that the filter matches and that are not
/// excluded.
pub proof fn matched_goals_are_taken(
    snapshot: ProjectionSnapshot,
    selection: BulkSelection,
    row: crate::model::GoalSummaryView,
)
    requires
        selection.selected_ids is None,
    ensures
        ({
            let chosen = crate::work_items::bulk::chosen_goals(snapshot, selection);
            &&& chosen is Ok
            &&& chosen->Ok_0.contains(row) == exists|i: int|
                0 <= i < snapshot.goals.values().len() && (#[trigger] snapshot.goals.values()[i])@
                    == row && is_matched(selection, row.goal.id@) && !is_excluded(
                    selection,
                    row.goal.id@,
                )
        }),
{
    broadcast use vstd::seq_lib::group_filter_ensures;

    let values = snapshot.goals.values();
    let keeps = crate::work_items::bulk::goal_taken(
        crate::text::views(selection.matching_ids@),
        crate::work_items::bulk::plain_ids(selection.exclude_ids@),
    );
    let kept = values.filter(keeps);
    let chosen = crate::work_items::bulk::chosen_goals(snapshot, selection)->Ok_0;
    ids_are_compared(selection.exclude_ids@, row.goal.id@);
    texts_are_among(selection.matching_ids@, row.goal.id@);
    if chosen.contains(row) {
        let i = chosen.index_of(row);
        assert(keeps(kept[i]));
        assert(kept.contains(kept[i]));
        values.lemma_filter_contains_rev(keeps, kept[i]);
        let k = values.index_of(kept[i]);
        assert(values[k]@ == row);
    }
    if exists|i: int|
        0 <= i < values.len() && (#[trigger] values[i])@ == row && is_matched(
            selection,
            row.goal.id@,
        ) && !is_excluded(selection, row.goal.id@) {
        let i = choose|i: int|
            0 <= i < values.len() && (#[trigger] values[i])@ == row && is_matched(
                selection,
                row.goal.id@,
            ) && !is_excluded(selection, row.goal.id@);
        assert(keeps(values[i]));
        assert(kept.contains(values[i]));
        let k = kept.index_of(values[i]);
        assert(chosen[k] == row);
    }
}

/// A status is spared by a bulk change: automation owns it, or the workflow does
/// and the goal is in review or done.
pub open spec fn is_spared(
    status: GoalStatus,
    protection: BulkGoalStatusProtection,
    automated: Seq<GoalStatus>,
) -> bool {
    automated.contains(status) || protection is WorkflowOwned && (status is Review
        || status is Done)
}

/// A goal is taken or left alone, never both: an unprotected change takes every
/// goal, and any other leaves the spared ones alone, with their status as the
/// reason.
pub proof fn goals_are_taken_or_left_alone(
    goal: crate::model::GoalSummaryView,
    protection: BulkGoalStatusProtection,
    automated: Seq<GoalStatus>,
)
    ensures
        crate::work_items::bulk::goal_kept(protection, automated)(goal) == (
        protection is Unprotected || !is_spared(goal.goal.status, protection, automated)),
        crate::work_items::bulk::goal_skipped(protection, automated)(goal) == (!(
        protection is Unprotected) && is_spared(goal.goal.status, protection, automated)),
        crate::work_items::bulk::skip_reason(goal) == (
            goal.goal.id@,
            "status:"@ + crate::model::status_name(goal.goal.status),
        ),
{
}

/// The goals of a bulk change stand by their ids, none lost and none added.
pub proof fn goals_of_a_bulk_change_stand_by_id(
    goals: Seq<crate::model::GoalSummaryView>,
    i: int,
    j: int,
)
    requires
        0 <= i < j < goals.len(),
    ensures
        crate::work_items::bulk::by_goal_id(goals).to_multiset() == goals.to_multiset(),
        ({
            let sorted = crate::work_items::bulk::by_goal_id(goals);
            sorted[i].goal.id@ == sorted[j].goal.id@ || crate::text::text_before(
                sorted[i].goal.id@,
                sorted[j].goal.id@,
            )
        }),
{
    let key = crate::work_items::bulk::goal_id_key();
    let sorted = crate::work_items::bulk::by_goal_id(goals);
    crate::project_state::ordering::sorting_permutes_the_rows(goals, goals.map_values(key), true);
    crate::project_state::ordering::orders_keep_every_row(goals.map_values(key), true, goals.len());
    crate::project_state::ordering::sorting_orders_the_rows(goals, key, true, i, j);
    crate::text::text_order_is_total(sorted[i].goal.id@, sorted[j].goal.id@);
}

/// The status of a record is the one that it names; a record that names none is
/// in the backlog.
pub open spec fn is_in_status(record: crate::json::JsonView, status: GoalStatus) -> bool {
    if crate::laws::values::has_text(record, "status"@) && exists|s: GoalStatus|
        #[trigger] crate::model::status_name(s) == crate::laws::values::text_of(
            record,
            "status"@,
        ) {
        crate::laws::values::says(record, "status"@, crate::model::status_name(status))
    } else {
        status is Backlog
    }
}

/// The node of a record is the one that it names, or its instance, or the
/// default one.
pub open spec fn record_belongs_to(record: crate::json::JsonView, node: Seq<char>) -> bool {
    let by_node = crate::laws::values::has_text(record, "node_id"@) && crate::laws::values::text_of(
        record,
        "node_id"@,
    ).len() > 0;
    let by_instance = crate::laws::values::has_text(record, "instance_id"@)
        && crate::laws::values::text_of(record, "instance_id"@).len() > 0;
    if by_node {
        crate::laws::values::text_of(record, "node_id"@) == node
    } else if by_instance {
        crate::laws::values::text_of(record, "instance_id"@) == node
    } else {
        node == "default"@
    }
}

proof fn statuses_are_read(record: crate::json::JsonView, status: GoalStatus)
    ensures
        (crate::work_items::bulk::record_status(record) == status) == is_in_status(record, status),
{
    if crate::laws::values::has_text(record, "status"@) {
        let text = crate::laws::values::text_of(record, "status"@);
        if exists|s: GoalStatus| text == #[trigger] crate::model::status_name(s) {
            let s = choose|s: GoalStatus| text == #[trigger] crate::model::status_name(s);
            crate::model::status_names_are_distinct(s, status);
        }
    }
}

/// A bulk change of status leaves a goal of another node alone, then a spared
/// one, then a claimed one, and moves any other to the asked status; the last
/// workflow status may be asked for, and is written only where it is another.
pub proof fn bulk_changes_move_what_they_may(
    service: FileWorkItemService,
    facts: BulkStatusFacts,
    raw: Seq<char>,
    protection: BulkGoalStatusProtection,
    now: Seq<char>,
    node: Seq<char>,
    status: GoalStatus,
    target: GoalStatus,
)
    requires
        facts.record is Ok,
        (facts.record->Ok_0)@ is Object,
        crate::laws::owning::checked_against(service, facts.registered_node, node),
        is_in_status((facts.record->Ok_0)@, status),
    ensures
        ({
            let made = crate::work_items::bulk::bulk_mutation(
                service,
                facts,
                raw,
                protection,
                now,
            );
            let record = (facts.record->Ok_0)@;
            let own = record_belongs_to(record, node);
            let spared = is_spared(status, protection, facts.automated@);
            let watched = service.active_node_root is Some;
            let claimed = watched && facts.claim is Ok && facts.claim->Ok_0 is Some;
            let unclear = watched && facts.claim is Err;
            let free = own && !spared && !claimed && !unclear;
            let last = raw == "__last_workflow_state"@;
            &&& !own ==> made is Ok && made->Ok_0 is Skipped
            &&& own && spared ==> made is Ok && made->Ok_0
                == crate::work_items::bulk::BulkMutationView::Skipped(
                "status:"@ + crate::model::status_name(status),
            )
            &&& own && !spared && unclear ==> made is Err && made->Err_0 == (facts.claim->Err_0)@
            &&& own && !spared && claimed ==> made is Ok && made->Ok_0
                == crate::work_items::bulk::BulkMutationView::Skipped(
                "claim:"@ + (facts.claim->Ok_0->0)@,
            )
            &&& free && last && facts.last_workflow_status == status ==> made is Ok && made->Ok_0
                == crate::work_items::bulk::BulkMutationView::Updated(None)
            &&& free && last && facts.last_workflow_status != status ==> made is Ok
                && made->Ok_0 is Updated && made->Ok_0->Updated_0 is Some
                && crate::laws::values::says(
                made->Ok_0->Updated_0->0,
                "status"@,
                crate::model::status_name(facts.last_workflow_status),
            )
            &&& free && !last && raw == crate::model::status_name(target) ==> made is Ok
                && made->Ok_0 is Updated && made->Ok_0->Updated_0 is Some
                && crate::laws::values::says(
                made->Ok_0->Updated_0->0,
                "status"@,
                crate::model::status_name(target),
            )
            &&& free && !last && (forall|s: GoalStatus|
                raw != #[trigger] crate::model::status_name(s)) ==> made is Err
                && made->Err_0 is InvalidInput
        }),
{
    statuses_are_read((facts.record->Ok_0)@, status);
    reveal_strlit("status");
    reveal_strlit("updated");
    reveal_strlit("rounds");
    assert("status"@.len() == 6 && "updated"@.len() == 7 && "rounds"@.len() == 6);
    assert("status"@[0] == 's' && "rounds"@[0] == 'r');
    if exists|s: GoalStatus| raw == #[trigger] crate::model::status_name(s) {
        let s = choose|s: GoalStatus| raw == #[trigger] crate::model::status_name(s);
        crate::model::status_names_are_distinct(s, target);
    }
}

proof fn id_is_its_own_column()
    ensures
        "id"@ != "name"@,
        "id"@ != "status"@,
        "id"@ != "reporter"@,
        "id"@ != "assignee"@,
        "id"@ != "node"@,
        "id"@ != "created"@,
        "name"@ != "status"@,
        "name"@ != "reporter"@,
        "name"@ != "assignee"@,
        "name"@ != "node"@,
        "name"@ != "created"@,
        "status"@ != "reporter"@,
        "status"@ != "assignee"@,
        "status"@ != "node"@,
        "status"@ != "created"@,
        "reporter"@ != "assignee"@,
        "reporter"@ != "node"@,
        "reporter"@ != "created"@,
        "assignee"@ != "node"@,
        "assignee"@ != "created"@,
        "node"@ != "created"@,
{
    reveal_strlit("id");
    reveal_strlit("name");
    reveal_strlit("status");
    reveal_strlit("reporter");
    reveal_strlit("assignee");
    reveal_strlit("node");
    reveal_strlit("created");
    assert("id"@.len() == 2);
    assert("name"@.len() == 4);
    assert("status"@.len() == 6);
    assert("reporter"@.len() == 8);
    assert("assignee"@.len() == 8);
    assert("node"@.len() == 4);
    assert("created"@.len() == 7);
    assert("name"@[1] == 'a');
    assert("reporter"@[0] == 'r');
    assert("assignee"@[0] == 'a');
    assert("node"@[1] == 'o');
}

proof fn named_features_are_taken(
    features: Map<Seq<char>, FeatureSummaryProjection>,
    ids: Seq<Seq<char>>,
    exclude: Seq<Seq<char>>,
    row: crate::model::FeatureSummaryView,
)
    ensures
        ({
            let named = crate::work_items::bulk::named_features(features, ids, exclude);
            let asked = |i: int| 0 <= i < ids.len() && ids[i].len() > 0 && !exclude.contains(ids[i]);
            &&& named is Ok == forall|i: int| #[trigger] asked(i) ==> features.contains_key(ids[i])
            &&& named is Err ==> named->Err_0 is NotFound
            &&& named is Ok ==> named->Ok_0.contains(row) == exists|i: int| #[trigger]
                asked(i) && features[ids[i]]@ == row
        }),
    decreases ids.len(),
{
    let asked = |i: int| 0 <= i < ids.len() && ids[i].len() > 0 && !exclude.contains(ids[i]);
    if ids.len() > 0 {
        let rest = ids.drop_last();
        let last: int = ids.len() - 1;
        let before_asked = |i: int|
            0 <= i < rest.len() && rest[i].len() > 0 && !exclude.contains(rest[i]);
        named_features_are_taken(features, rest, exclude, row);
        let named = crate::work_items::bulk::named_features(features, ids, exclude);
        let before = crate::work_items::bulk::named_features(features, rest, exclude);
        assert(ids[last] == ids.last());
        assert forall|i: int| 0 <= i < last implies #[trigger] before_asked(i) == asked(i) by {
            assert(rest[i] == ids[i]);
        }
        if named is Ok {
            assert forall|i: int| #[trigger] asked(i) implies features.contains_key(ids[i]) by {
                if i < last {
                    assert(before_asked(i));
                    assert(rest[i] == ids[i]);
                }
            }
            if named->Ok_0.contains(row) {
                let k = named->Ok_0.index_of(row);
                if before->Ok_0.contains(row) {
                    let i = choose|i: int| #[trigger] before_asked(i) && features[rest[i]]@ == row;
                    assert(asked(i));
                    assert(rest[i] == ids[i]);
                } else {
                    if k < before->Ok_0.len() {
                        assert(before->Ok_0[k] == row);
                    }
                    assert(asked(last));
                }
            }
            if exists|i: int| #[trigger] asked(i) && features[ids[i]]@ == row {
                let i = choose|i: int| #[trigger] asked(i) && features[ids[i]]@ == row;
                if i < last {
                    assert(before_asked(i));
                    assert(rest[i] == ids[i]);
                    let k = before->Ok_0.index_of(row);
                    assert(named->Ok_0[k] == row);
                } else {
                    assert(named->Ok_0[named->Ok_0.len() - 1] == row);
                }
            }
        } else if forall|i: int| #[trigger] asked(i) ==> features.contains_key(ids[i]) {
            assert forall|i: int| #[trigger] before_asked(i) implies features.contains_key(
                rest[i],
            ) by {
                assert(asked(i));
                assert(rest[i] == ids[i]);
            }
            if asked(last) {
                assert(features.contains_key(ids[last]));
            }
        }
    }
}

/// Named features are taken exactly where every one of them that is not excluded is
/// known; each of these is taken and nothing else.
pub proof fn named_features_are_taken_together(
    service: FileWorkItemService,
    registered: RefineResult<String>,
    snapshot: ProjectionSnapshot,
    selection: BulkSelection,
    row: crate::model::FeatureSummaryView,
)
    requires
        selection.selected_ids is Some,
    ensures
        ({
            let chosen = crate::work_items::bulk::chosen_features(service, snapshot, selection, registered);
            let wanted = |id: Seq<char>| is_selected(selection, id) && !is_excluded(selection, id);
            &&& chosen is Ok == forall|id: Seq<char>| #[trigger]
                wanted(id) ==> snapshot.features@.contains_key(id)
            &&& chosen is Err ==> chosen->Err_0 is NotFound
            &&& chosen is Ok ==> chosen->Ok_0.contains(row) == exists|id: Seq<char>| #[trigger]
                wanted(id) && snapshot.features@[id]@ == row
        }),
{
    let asked_ids = (selection.selected_ids->0)@;
    let ids = crate::work_items::bulk::plain_ids(asked_ids);
    let exclude = crate::work_items::bulk::plain_ids(selection.exclude_ids@);
    let features = snapshot.features@;
    let wanted = |id: Seq<char>| is_selected(selection, id) && !is_excluded(selection, id);
    let asked = |i: int| 0 <= i < ids.len() && ids[i].len() > 0 && !exclude.contains(ids[i]);
    named_features_are_taken(features, ids, exclude, row);
    assert forall|i: int| #[trigger] asked(i) implies wanted(ids[i]) by {
        ids_are_compared(selection.exclude_ids@, ids[i]);
        assert(compared(asked_ids[i]@) == ids[i]);
    }
    assert forall|id: Seq<char>| #[trigger] wanted(id) implies exists|i: int| #[trigger]
        asked(i) && ids[i] == id by {
        let i = choose|i: int|
            0 <= i < asked_ids.len() && compared((#[trigger] asked_ids[i])@) == id;
        ids_are_compared(selection.exclude_ids@, id);
        assert(ids[i] == id);
        assert(asked(i));
    }
    let chosen = crate::work_items::bulk::chosen_features(service, snapshot, selection, registered);
    if chosen is Ok {
        assert forall|id: Seq<char>| #[trigger] wanted(id) implies features.contains_key(id) by {
            let i = choose|i: int| #[trigger] asked(i) && ids[i] == id;
            assert(asked(i));
        }
        if exists|id: Seq<char>| #[trigger] wanted(id) && features[id]@ == row {
            let id = choose|id: Seq<char>| #[trigger] wanted(id) && features[id]@ == row;
            let i = choose|i: int| #[trigger] asked(i) && ids[i] == id;
            assert(asked(i));
        }
        if exists|i: int| #[trigger] asked(i) && features[ids[i]]@ == row {
            let i = choose|i: int| #[trigger] asked(i) && features[ids[i]]@ == row;
            assert(wanted(ids[i]));
        }
    } else if forall|id: Seq<char>| #[trigger] wanted(id) ==> features.contains_key(id) {
        assert forall|i: int| #[trigger] asked(i) implies features.contains_key(ids[i]) by {
            assert(wanted(ids[i]));
        }
    }
}

/// Without named features, those are taken that the filter matches and that are
/// not excluded, on a node that is told.
pub proof fn matched_features_are_taken(
    service: FileWorkItemService,
    registered: RefineResult<String>,
    node: Seq<char>,
    snapshot: ProjectionSnapshot,
    selection: BulkSelection,
    row: crate::model::FeatureSummaryView,
)
    requires
        selection.selected_ids is None,
        crate::laws::owning::checked_against(service, registered, node),
    ensures
        ({
            let chosen = crate::work_items::bulk::chosen_features(service, snapshot, selection, registered);
            &&& chosen is Ok
            &&& chosen->Ok_0.contains(row) == exists|i: int|
                0 <= i < snapshot.features.values().len() && (#[trigger] snapshot.features.values()[i])@
                    == row && is_matched(selection, row.feature.id@) && !is_excluded(
                    selection,
                    row.feature.id@,
                )
        }),
{
    broadcast use vstd::seq_lib::group_filter_ensures;

    let values = snapshot.features.values();
    let keeps = crate::work_items::bulk::feature_taken(
        crate::text::views(selection.matching_ids@),
        crate::work_items::bulk::plain_ids(selection.exclude_ids@),
    );
    let kept = values.filter(keeps);
    let chosen = crate::work_items::bulk::chosen_features(service, snapshot, selection, registered)->Ok_0;
    ids_are_compared(selection.exclude_ids@, row.feature.id@);
    texts_are_among(selection.matching_ids@, row.feature.id@);
    if chosen.contains(row) {
        let i = chosen.index_of(row);
        assert(keeps(kept[i]));
        assert(kept.contains(kept[i]));
        values.lemma_filter_contains_rev(keeps, kept[i]);
        let k = values.index_of(kept[i]);
        assert(values[k]@ == row);
    }
    if exists|i: int|
        0 <= i < values.len() && (#[trigger] values[i])@ == row && is_matched(
            selection,
            row.feature.id@,
        ) && !is_excluded(selection, row.feature.id@) {
        let i = choose|i: int|
            0 <= i < values.len() && (#[trigger] values[i])@ == row && is_matched(
                selection,
                row.feature.id@,
            ) && !is_excluded(selection, row.feature.id@);
        assert(keeps(values[i]));
        assert(kept.contains(values[i]));
        let k = kept.index_of(values[i]);
        assert(chosen[k] == row);
    }
}

/// The features of a bulk change stand by their ids, none lost and none added.
pub proof fn features_of_a_bulk_change_stand_by_id(
    features: Seq<crate::model::FeatureSummaryView>,
    i: int,
    j: int,
)
    requires
        0 <= i < j < features.len(),
    ensures
        crate::work_items::bulk::by_feature_id(features).to_multiset() == features.to_multiset(),
        ({
            let sorted = crate::work_items::bulk::by_feature_id(features);
            sorted[i].feature.id@ == sorted[j].feature.id@ || crate::text::text_before(
                sorted[i].feature.id@,
                sorted[j].feature.id@,
            )
        }),
{
    let key = crate::project_state::query::feature_order("id"@);
    let sorted = crate::work_items::bulk::by_feature_id(features);
    id_is_its_own_column();
    crate::project_state::ordering::sorting_permutes_the_rows(
        features,
        features.map_values(key),
        true,
    );
    crate::project_state::ordering::orders_keep_every_row(
        features.map_values(key),
        true,
        features.len(),
    );
    crate::project_state::ordering::sorting_orders_the_rows(features, key, true, i, j);
    crate::text::text_order_is_total(sorted[i].feature.id@, sorted[j].feature.id@);
}

} // verus!

//! Where goals stand in their feature.
use vstd::prelude::*;

use crate::model::GoalIndexProjection;
use crate::work_items::placement::{FeatureGoal, FeatureGoalPlacement};

verus! {

/// A goal is in a feature.
pub open spec fn is_in(feature: Option<String>, feature_id: Seq<char>) -> bool {
    feature is Some && (feature->0)@ == feature_id
}

/// A goal can be placed behind another exactly where that one is named, is
/// another goal, and has a place in the feature; any other placement is always
/// possible.
pub proof fn goals_are_placed_behind_ordered_ones(
    feature_id: Seq<char>,
    goal_id: Option<Seq<char>>,
    placement: FeatureGoalPlacement,
    prerequisite: Option<FeatureGoal>,
)
    ensures
        ({
            let refusal = crate::work_items::placement::placement_refusal(
                feature_id,
                goal_id,
                placement,
                prerequisite,
            );
            let asked = placement->After_0@;
            &&& !(placement is After) ==> refusal is None
            &&& placement is After ==> refusal is None == (!crate::laws::texts::only_spaces(asked)
                && goal_id != Some(crate::text::trimmed(asked)) && prerequisite is Some
                && prerequisite->0.ordered && is_in(
                prerequisite->0.summary.goal.feature_id,
                feature_id,
            ))
            &&& refusal is Some ==> refusal->0 is InvalidInput
        }),
{
    if placement is After {
        crate::laws::texts::blank_texts_hold_only_white_space(placement->After_0@);
    }
}

/// A goal that is to have no place is taken out of the order where it has one;
/// any other is brought into the order first and then to its place.
pub proof fn placing_takes_its_steps(placement: FeatureGoalPlacement, ordered: bool)
    ensures
        ({
            let steps = crate::work_items::placement::steps_of(placement, ordered);
            &&& placement is Unordered ==> steps.unorder == ordered && !steps.order
                && !steps.reorder
            &&& !(placement is Unordered) ==> !steps.unorder && steps.order == !ordered
                && steps.reorder
        }),
{
}

/// The first place is the first one; a place behind another goal is found
/// exactly where both goals have one.
pub proof fn places_are_found_where_both_goals_stand(
    feature_id: Seq<char>,
    goal_id: Seq<char>,
    placement: FeatureGoalPlacement,
    ids: Seq<Seq<char>>,
)
    requires
        ids.no_duplicates(),
        placement is After ==> crate::text::trimmed(placement->After_0@) != goal_id,
    ensures
        ({
            let place = crate::work_items::placement::place_of(feature_id, goal_id, placement, ids);
            let other = crate::text::trimmed(placement->After_0@);
            &&& !(placement is After) ==> place is Ok && place->Ok_0 == 1
            &&& placement is After ==> place is Ok == (ids.contains(goal_id) && ids.contains(other))
            &&& placement is After && !ids.contains(goal_id) ==> place->Err_0 is NotFound
            &&& placement is After && ids.contains(goal_id) && !ids.contains(other)
                ==> place->Err_0 is InvalidInput
            &&& placement is After && place is Ok ==> {
                let at = ids.index_of(other);
                if ids.index_of(goal_id) < at {
                    place->Ok_0 == at + 1
                } else {
                    place->Ok_0 == at + 2
                }
            }
        }),
{
    if placement is After {
        let other = crate::text::trimmed(placement->After_0@);
        ids_are_found(ids, goal_id);
        if ids.contains(goal_id) {
            let from = ids.index_of(goal_id);
            let rest = ids.remove(from);
            assert forall|i: int, j: int| 0 <= i < j < rest.len() implies rest[i] != rest[j] by {
                assert(rest[i] == ids[if i < from {
                    i
                } else {
                    i + 1
                }]);
                assert(rest[j] == ids[if j < from {
                    j
                } else {
                    j + 1
                }]);
            }
            ids_are_found(rest, other);
            if ids.contains(other) {
                let at = ids.index_of(other);
                assert(at != from);
                if at < from {
                    assert(rest[at] == other);
                } else {
                    assert(rest[at - 1] == other);
                }
            }
            if rest.contains(other) {
                let at = rest.index_of(other);
                if at < from {
                    assert(ids[at] == other);
                } else {
                    assert(ids[at + 1] == other);
                }
            }
        }
    }
}

proof fn ids_are_found(ids: Seq<Seq<char>>, id: Seq<char>)
    requires
        ids.no_duplicates(),
    ensures
        crate::work_items::placement::position_in(ids, id) is Some == ids.contains(id),
        ids.contains(id) ==> crate::work_items::placement::position_in(ids, id) == Some(
            ids.index_of(id),
        ),
{
    let same = |x: Seq<char>| x == id;
    if ids.contains(id) {
        let at = ids.index_of(id);
        assert(same(ids[at]));
        assert forall|j: int| 0 <= j < at implies !same(#[trigger] ids[j]) by {}
        crate::lists::first_position_is_least(ids, same, at);
        assert(crate::work_items::placement::position_in(ids, id) == crate::lists::first_position(
            ids,
            same,
        ));
    } else {
        assert forall|i: int| 0 <= i < ids.len() implies #[trigger] ids[i] != id by {}
    }
}

/// The goals of a feature are those that name it, and where only the ordered
/// ones are asked for, those of them that have a place.
pub proof fn goals_are_listed_in_their_feature(
    goals: Seq<FeatureGoal>,
    feature_id: Seq<char>,
    ordered_only: bool,
    goal: FeatureGoal,
)
    ensures
        crate::work_items::placement::feature_order(goals, feature_id, ordered_only).contains(goal)
            == (goals.contains(goal) && is_in(goal.summary.goal.feature_id, feature_id) && (
        !ordered_only || goal.ordered)),
{
    broadcast use vstd::seq_lib::group_filter_ensures;

    let keeps = crate::work_items::placement::feature_member(feature_id, ordered_only);
    let rows = goals.filter(keeps);
    crate::project_state::ordering::sorting_keeps_the_rows(
        rows,
        rows.map_values(crate::work_items::placement::feature_rank()),
        true,
        goal,
    );
    if rows.contains(goal) {
        let i = rows.index_of(goal);
        assert(keeps(rows[i]));
        goals.lemma_filter_contains_rev(keeps, goal);
    }
    if goals.contains(goal) && keeps(goal) {
        assert(rows.contains(goal));
    }
}

/// The goals of a feature stand by their rank, and between equal ones by their
/// id.
pub proof fn goals_stand_by_their_rank(
    goals: Seq<FeatureGoal>,
    feature_id: Seq<char>,
    ordered_only: bool,
    i: int,
    j: int,
)
    requires
        0 <= i < j < crate::work_items::placement::feature_order(
            goals,
            feature_id,
            ordered_only,
        ).len(),
    ensures
        ({
            let listed = crate::work_items::placement::feature_order(
                goals,
                feature_id,
                ordered_only,
            );
            crate::laws::listing::number_above(
                listed[i].rank as int,
                listed[j].rank as int,
                listed[i].summary.goal.id@,
                listed[j].summary.goal.id@,
            )
        }),
{
    let rows = crate::work_items::placement::in_feature(goals, feature_id, ordered_only);
    let key = crate::work_items::placement::feature_rank();
    let listed = crate::work_items::placement::feature_order(goals, feature_id, ordered_only);
    crate::project_state::ordering::orders_keep_every_row(rows.map_values(key), true, rows.len());
    crate::project_state::ordering::sorting_orders_the_rows(rows, key, true, i, j);
    crate::text::text_order_is_total(
        listed[i].summary.goal.id@,
        listed[j].summary.goal.id@,
    );
}

/// The next place of a feature is one behind the last that is taken, and the
/// first where none is.
pub proof fn the_next_place_is_behind_the_last(
    goals: Seq<GoalIndexProjection>,
    feature_id: Seq<char>,
)
    ensures
        ({
            let next = crate::work_items::placement::next_order(goals, feature_id);
            let taken = |i: int|
                0 <= i < goals.len() && is_in(goals[i].feature_id, feature_id)
                    && goals[i].feature_order is Some;
            &&& forall|i: int| #[trigger] taken(i) ==> goals[i].feature_order->0 < next
            &&& (exists|i: int| #[trigger] taken(i)) ==> exists|i: int| #[trigger]
                taken(i) && goals[i].feature_order->0 + 1 == next
            &&& !(exists|i: int| #[trigger] taken(i)) ==> next == 1
        }),
{
    last_places(goals, feature_id);
    let taken = |i: int|
        0 <= i < goals.len() && is_in(goals[i].feature_id, feature_id)
            && goals[i].feature_order is Some;
    assert forall|i: int| #[trigger] taken(i) implies goals[i].feature_order->0
        < crate::work_items::placement::next_order(goals, feature_id) by {
        assert(has_place(goals, feature_id, i));
    }
    if crate::work_items::placement::last_order(goals, feature_id) is Some {
        let i = choose|i: int| #[trigger]
            has_place(goals, feature_id, i) && goals[i].feature_order->0
                == crate::work_items::placement::last_order(goals, feature_id)->0;
        assert(taken(i));
    } else {
        assert forall|i: int| !#[trigger] taken(i) by {
            assert(!has_place(goals, feature_id, i));
        }
    }
}

spec fn has_place(goals: Seq<GoalIndexProjection>, feature_id: Seq<char>, i: int) -> bool {
    0 <= i < goals.len() && is_in(goals[i].feature_id, feature_id)
        && goals[i].feature_order is Some
}

proof fn last_places(goals: Seq<GoalIndexProjection>, feature_id: Seq<char>)
    ensures
        ({
            let last = crate::work_items::placement::last_order(goals, feature_id);
            &&& forall|i: int| #[trigger]
                has_place(goals, feature_id, i) ==> last is Some && goals[i].feature_order->0
                    <= last->0
            &&& last is Some ==> exists|i: int| #[trigger]
                has_place(goals, feature_id, i) && goals[i].feature_order->0 == last->0
        }),
    decreases goals.len(),
{
    if goals.len() > 0 {
        let rest = goals.drop_last();
        let at: int = goals.len() - 1;
        last_places(rest, feature_id);
        let last = crate::work_items::placement::last_order(goals, feature_id);
        let before = crate::work_items::placement::last_order(rest, feature_id);
        assert(goals[at] == goals.last());
        assert forall|i: int| #[trigger] has_place(goals, feature_id, i) implies last is Some
            && goals[i].feature_order->0 <= last->0 by {
            if i < at {
                assert(rest[i] == goals[i]);
                assert(has_place(rest, feature_id, i));
            }
        }
        if last is Some {
            if has_place(goals, feature_id, at) && goals[at].feature_order->0 == last->0 {
            } else {
                let i = choose|i: int| #[trigger]
                    has_place(rest, feature_id, i) && rest[i].feature_order->0 == before->0;
                assert(rest[i] == goals[i]);
                assert(has_place(goals, feature_id, i));
            }
        }
    }
}

} // verus!

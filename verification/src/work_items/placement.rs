//! The order of goals within a feature.
use vstd::prelude::*;

use crate::errors::{RefineError, RefineResult};
use crate::model::{GoalIndexProjection, GoalSummaryProjection};
use crate::nodes::{Node, NodeIdentity};
use crate::project_state::ordering::{sort_positions, SortKey, SortValue};
use crate::text::{cat3, cat5, text_eq, trim};
use crate::work_items::FileWorkItemService;

verus! {

/// Where a goal is to stand in its feature.
#[derive(Debug)]
pub enum FeatureGoalPlacement {
    Unordered,
    First,
    After(String),
}

/// A goal with its standing in a feature's order.
#[derive(Debug)]
pub struct FeatureGoal {
    pub summary: GoalSummaryProjection,
    /// Whether the goal has a place in the order.
    pub ordered: bool,
    /// How the order ranks the goal; equal where it does not tell two apart.
    pub rank: u64,
}

/// The first steps of placing a goal.
#[derive(Clone, Copy, Debug, PartialEq, Eq, Structural)]
pub struct PlacementSteps {
    /// Take the goal out of the order.
    pub unorder: bool,
    /// Give the goal a place in the order.
    pub order: bool,
    /// Move the goal to the place that its placement names.
    pub reorder: bool,
}

/// The refusal of a prerequisite that has no place in the feature's order.
pub open spec fn not_ordered(prerequisite: Seq<char>, feature_id: Seq<char>) -> crate::errors::ErrorView {
    crate::errors::ErrorView::InvalidInput(
        "placement prerequisite "@ + prerequisite + " is not ordered in Feature "@ + feature_id,
    )
}

/// A goal has a place in a feature's order.
pub open spec fn ordered_in(goal: Option<FeatureGoal>, feature_id: Seq<char>) -> bool {
    match goal {
        Some(g) => g.ordered && crate::text::maybe_view(g.summary.goal.feature_id) == Some(
            feature_id,
        ),
        None => false,
    }
}

/// The refusal of a placement.
pub open spec fn placement_refusal(
    feature_id: Seq<char>,
    goal_id: Option<Seq<char>>,
    placement: FeatureGoalPlacement,
    prerequisite: Option<FeatureGoal>,
) -> Option<crate::errors::ErrorView> {
    match placement {
        FeatureGoalPlacement::After(id) => {
            let asked = crate::text::trimmed(id@);
            if asked.len() == 0 || goal_id == Some(asked) {
                Some(
                    crate::errors::ErrorView::InvalidInput(
                        "placement prerequisite must name a different Goal"@,
                    ),
                )
            } else if !ordered_in(prerequisite, feature_id) {
                Some(not_ordered(asked, feature_id))
            } else {
                None
            }
        },
        _ => None,
    }
}

fn not_ordered_error(prerequisite: &str, feature_id: &str) -> (r: RefineError)
    ensures
        r@ == not_ordered(prerequisite@, feature_id@),
{
    let mut m = cat3("placement prerequisite ", prerequisite, " is not ordered in Feature ");
    m.append(feature_id);
    RefineError::InvalidInput(m)
}

/// The first steps of placing a goal that is ordered or not.
pub open spec fn steps_of(placement: FeatureGoalPlacement, ordered: bool) -> PlacementSteps {
    match placement {
        FeatureGoalPlacement::Unordered => PlacementSteps {
            unorder: ordered,
            order: false,
            reorder: false,
        },
        _ => PlacementSteps { unorder: false, order: !ordered, reorder: true },
    }
}

/// Where a goal is found in a list of ids.
pub open spec fn position_in(ids: Seq<Seq<char>>, id: Seq<char>) -> Option<int> {
    crate::lists::first_position(ids, |x: Seq<char>| x == id)
}

/// The place, counted from one, of a goal that is placed.
pub open spec fn place_of(
    feature_id: Seq<char>,
    goal_id: Seq<char>,
    placement: FeatureGoalPlacement,
    ordered_ids: Seq<Seq<char>>,
) -> Result<int, crate::errors::ErrorView> {
    match placement {
        FeatureGoalPlacement::After(prerequisite) => match position_in(ordered_ids, goal_id) {
            None => Err(
                crate::errors::ErrorView::NotFound(
                    "Goal "@ + goal_id + " was not found in Feature "@ + feature_id + " order"@,
                ),
            ),
            Some(source) => match position_in(
                ordered_ids.remove(source),
                crate::text::trimmed(prerequisite@),
            ) {
                None => Err(not_ordered(prerequisite@, feature_id)),
                Some(target) => Ok(target + 2),
            },
        },
        _ => Ok(1),
    }
}

fn find_position(ids: &Vec<String>, id: &str) -> (r: Option<usize>)
    ensures
        match r {
            Some(i) => i < ids@.len() && position_in(crate::text::views(ids@), id@) == Some(
                i as int,
            ),
            None => position_in(crate::text::views(ids@), id@) is None,
        },
{
    let ghost all = crate::text::views(ids@);
    let ghost p = |x: Seq<char>| x == id@;
    let mut i: usize = 0;
    while i < ids.len()
        invariant
            i <= ids.len(),
            all == crate::text::views(ids@),
            p == (|x: Seq<char>| x == id@),
            forall|j: int| 0 <= j < i ==> !p(#[trigger] all[j]),
        decreases ids.len() - i,
    {
        assert(all[i as int] == ids@[i as int]@);
        if text_eq(ids[i].as_str(), id) {
            proof {
                crate::lists::first_position_is_least(all, p, i as int);
            }
            return Some(i);
        }
        i = i + 1;
    }
    None
}

/// The goals of a feature.
pub open spec fn in_feature(goals: Seq<FeatureGoal>, feature_id: Seq<char>, ordered_only: bool) -> Seq<
    FeatureGoal,
> {
    goals.filter(feature_member(feature_id, ordered_only))
}

/// Tells the goals of a feature.
pub open spec fn feature_member(feature_id: Seq<char>, ordered_only: bool) -> spec_fn(
    FeatureGoal,
) -> bool {
    |g: FeatureGoal|
        crate::text::maybe_view(g.summary.goal.feature_id) == Some(feature_id) && (!ordered_only
            || g.ordered)
}

/// How the goals of a feature are ordered: by rank, then by id.
pub open spec fn feature_rank() -> spec_fn(FeatureGoal) -> crate::project_state::ordering::SortKeyView {
    |g: FeatureGoal|
        crate::project_state::ordering::SortKeyView {
            value: crate::project_state::ordering::SortValueView::Number(g.rank as int),
            id: g.summary.goal.id@,
        }
}

/// The goals of a feature in order.
pub open spec fn feature_order(goals: Seq<FeatureGoal>, feature_id: Seq<char>, ordered_only: bool) -> Seq<
    FeatureGoal,
> {
    let rows = in_feature(goals, feature_id, ordered_only);
    crate::project_state::ordering::arranged(rows, rows.map_values(feature_rank()), true)
}

/// The largest place that a goal of a feature has.
pub open spec fn last_order(goals: Seq<GoalIndexProjection>, feature_id: Seq<char>) -> Option<int>
    decreases goals.len(),
{
    if goals.len() == 0 {
        None
    } else {
        let before = last_order(goals.drop_last(), feature_id);
        let goal = goals.last();
        if crate::text::maybe_view(goal.feature_id) == Some(feature_id) {
            match (before, goal.feature_order) {
                (Some(m), Some(n)) => Some(if m >= n { m } else { n as int }),
                (None, Some(n)) => Some(n as int),
                (m, None) => m,
            }
        } else {
            before
        }
    }
}

/// The place after the last one of a feature.
pub open spec fn next_order(goals: Seq<GoalIndexProjection>, feature_id: Seq<char>) -> int {
    match last_order(goals, feature_id) {
        Some(m) => m + 1,
        None => 1,
    }
}

fn is_member(goal: &GoalIndexProjection, feature_id: &str) -> (r: bool)
    ensures
        r == (crate::text::maybe_view(goal.feature_id) == Some(feature_id@)),
{
    match &goal.feature_id {
        Some(id) => text_eq(id.as_str(), feature_id),
        None => false,
    }
}

/// The positions of a feature's goals in order.
fn feature_positions(goals: &Vec<FeatureGoal>, feature_id: &str, ordered_only: bool) -> (r: Vec<
    usize,
>)
    ensures
        r@.len() == feature_order(goals@, feature_id@, ordered_only).len(),
        forall|i: int|
            0 <= i < r@.len() ==> #[trigger] r@[i] < goals@.len() && goals@[r@[i] as int]
                == feature_order(goals@, feature_id@, ordered_only)[i],
{
    let ghost p = feature_member(feature_id@, ordered_only);
    let ghost found = in_feature(goals@, feature_id@, ordered_only);
    let mut rows: Vec<usize> = Vec::new();
    let mut keys: Vec<SortKey> = Vec::new();
    let mut i: usize = 0;
    proof {
        crate::lists::no_match_at_first(goals@, p);
    }
    while i < goals.len()
        invariant
            i <= goals.len(),
            p == feature_member(feature_id@, ordered_only),
            rows@.len() == goals@.take(i as int).filter(p).len(),
            keys@.len() == rows@.len(),
            forall|j: int|
                0 <= j < rows@.len() ==> #[trigger] rows@[j] < goals@.len()
                    && goals@[rows@[j] as int] == goals@.take(i as int).filter(p)[j],
            forall|j: int|
                0 <= j < keys@.len() ==> (#[trigger] keys@[j])@ == feature_rank()(
                    goals@.take(i as int).filter(p)[j],
                ),
        decreases goals.len() - i,
    {
        proof {
            crate::lists::matches_grow(goals@, p, i as int);
        }
        let goal = &goals[i];
        if is_member(&goal.summary.goal, feature_id) && (!ordered_only || goal.ordered) {
            rows.push(i);
            keys.push(
                SortKey {
                    value: SortValue::Number(goal.rank),
                    id: goal.summary.goal.id.clone(),
                },
            );
        }
        i = i + 1;
    }
    assert(goals@.take(goals.len() as int) =~= goals@);
    assert(crate::project_state::ordering::key_views(keys@) =~= found.map_values(feature_rank()));
    let order = sort_positions(&keys, true);
    let ghost listed = feature_order(goals@, feature_id@, ordered_only);
    let mut out: Vec<usize> = Vec::new();
    let mut k: usize = 0;
    assert(listed.len() == order@.len());
    while k < order.len()
        invariant
            k <= order@.len() == rows@.len() == found.len() == listed.len(),
            out@.len() == k,
            forall|j: int| 0 <= j < order@.len() ==> #[trigger] order@[j] < rows@.len(),
            forall|j: int|
                0 <= j < rows@.len() ==> #[trigger] rows@[j] < goals@.len()
                    && goals@[rows@[j] as int] == found[j],
            forall|j: int|
                0 <= j < order@.len() ==> #[trigger] listed[j] == found[order@[j] as int],
            forall|j: int|
                0 <= j < k ==> #[trigger] out@[j] < goals@.len() && goals@[out@[j] as int]
                    == listed[j],
        decreases order.len() - k,
    {
        let at: usize = order[k];
        assert(listed[k as int] == found[at as int]);
        out.push(rows[at]);
        k = k + 1;
    }
    out
}

impl FileWorkItemService {
    /// Checks the placement of a goal in a feature. `prerequisite` is the goal
    /// that the placement names, where the projection knows it.
    pub fn validate_feature_goal_placement(
        feature_id: &str,
        goal_id: Option<&str>,
        placement: &FeatureGoalPlacement,
        prerequisite: &Option<FeatureGoal>,
    ) -> (r: RefineResult<()>)
        ensures
            crate::errors::outcome(r) == crate::work_items::unless(
                placement_refusal(
                    feature_id@,
                    crate::text::borrowed_view(goal_id),
                    *placement,
                    *prerequisite,
                ),
            ),
    {
        match placement {
            FeatureGoalPlacement::After(id) => {
                let asked = trim(id.as_str());
                let same = match goal_id {
                    Some(g) => text_eq(g, asked),
                    None => false,
                };
                if asked.is_empty() || same {
                    return Err(
                        RefineError::InvalidInput(
                            "placement prerequisite must name a different Goal".to_owned(),
                        ),
                    );
                }
                let ordered = match prerequisite {
                    Some(g) => g.ordered && is_member(&g.summary.goal, feature_id),
                    None => false,
                };
                if ordered {
                    Ok(())
                } else {
                    Err(not_ordered_error(asked, feature_id))
                }
            },
            _ => Ok(()),
        }
    }

    /// The first steps of placing a goal.
    pub fn placement_steps(placement: &FeatureGoalPlacement, ordered: bool) -> (r: PlacementSteps)
        ensures
            r == steps_of(*placement, ordered),
    {
        match placement {
            FeatureGoalPlacement::Unordered => PlacementSteps {
                unorder: ordered,
                order: false,
                reorder: false,
            },
            _ => PlacementSteps { unorder: false, order: !ordered, reorder: true },
        }
    }

    /// The place to which a goal is moved in a feature whose ordered goals are
    /// given.
    pub fn apply_feature_goal_placement(
        feature_id: &str,
        goal_id: &str,
        placement: &FeatureGoalPlacement,
        ordered_ids: &Vec<String>,
    ) -> (r: RefineResult<i64>)
        requires
            ordered_ids@.len() < i64::MAX,
        ensures
            match r {
                Ok(place) => place_of(
                    feature_id@,
                    goal_id@,
                    *placement,
                    crate::text::views(ordered_ids@),
                ) == Ok::<int, crate::errors::ErrorView>(place as int),
                Err(e) => place_of(
                    feature_id@,
                    goal_id@,
                    *placement,
                    crate::text::views(ordered_ids@),
                ) == Err::<int, crate::errors::ErrorView>(e@),
            },
    {
        match placement {
            FeatureGoalPlacement::After(prerequisite) => {
                let source: usize = match find_position(ordered_ids, goal_id) {
                    Some(source) => source,
                    None => {
                        return Err(
                            RefineError::NotFound(
                                cat5(
                                    "Goal ",
                                    goal_id,
                                    " was not found in Feature ",
                                    feature_id,
                                    " order",
                                ),
                            ),
                        );
                    },
                };
                let mut rest = crate::model::clone_texts(ordered_ids);
                let _ = rest.remove(source);
                assert(crate::text::views(rest@) =~= crate::text::views(ordered_ids@).remove(
                    source as int,
                ));
                match find_position(&rest, trim(prerequisite.as_str())) {
                    Some(target) => Ok(target as i64 + 2),
                    None => Err(not_ordered_error(prerequisite.as_str(), feature_id)),
                }
            },
            _ => Ok(1),
        }
    }

    /// The place after the last one of a feature.
    pub fn next_feature_order(goals: &Vec<GoalIndexProjection>, feature_id: &str) -> (r: i64)
        requires
            next_order(goals@, feature_id@) <= i64::MAX,
        ensures
            r == next_order(goals@, feature_id@),
    {
        let mut last: Option<i64> = None;
        let mut i: usize = 0;
        assert(goals@.take(0) =~= Seq::empty());
        while i < goals.len()
            invariant
                i <= goals.len(),
                match last {
                    Some(m) => last_order(goals@.take(i as int), feature_id@) == Some(m as int),
                    None => last_order(goals@.take(i as int), feature_id@) is None,
                },
            decreases goals.len() - i,
        {
            assert(goals@.take(i as int + 1).drop_last() =~= goals@.take(i as int));
            if is_member(&goals[i], feature_id) {
                if let Some(n) = goals[i].feature_order {
                    last = match last {
                        Some(m) => if m >= n {
                            Some(m)
                        } else {
                            Some(n)
                        },
                        None => Some(n),
                    };
                }
            }
            i = i + 1;
        }
        assert(goals@.take(goals.len() as int) =~= goals@);
        match last {
            Some(m) => m + 1,
            None => 1,
        }
    }

    /// The ordered goals of a feature with the places that close every gap.
    pub fn compact_feature_orders(goals: &Vec<FeatureGoal>, feature_id: &str) -> (r: Vec<
        (String, i64),
    >)
        requires
            goals@.len() < i64::MAX,
        ensures
            r@.len() == feature_order(goals@, feature_id@, true).len(),
            forall|i: int|
                0 <= i < r@.len() ==> (#[trigger] r@[i]).0@ == feature_order(
                    goals@,
                    feature_id@,
                    true,
                )[i].summary.goal.id@ && r@[i].1 == i + 1,
    {
        let order = feature_positions(goals, feature_id, true);
        let ghost listed = feature_order(goals@, feature_id@, true);
        proof {
            orders_are_bounded(goals@, feature_id@, true);
        }
        let mut out: Vec<(String, i64)> = Vec::new();
        let mut k: usize = 0;
        while k < order.len()
            invariant
                k <= order@.len() == listed.len() <= goals@.len() < i64::MAX,
                out@.len() == k,
                forall|j: int|
                    0 <= j < order@.len() ==> #[trigger] order@[j] < goals@.len()
                        && goals@[order@[j] as int] == listed[j],
                forall|j: int|
                    0 <= j < k ==> (#[trigger] out@[j]).0@ == listed[j].summary.goal.id@
                        && out@[j].1 == j + 1,
            decreases order.len() - k,
        {
            let at: usize = order[k];
            out.push((goals[at].summary.goal.id.clone(), k as i64 + 1));
            k = k + 1;
        }
        out
    }

    /// The goals of a feature in order.
    pub fn feature_goal_summaries(goals: &Vec<FeatureGoal>, feature_id: &str) -> (r: Vec<
        GoalSummaryProjection,
    >)
        ensures
            r@.len() == feature_order(goals@, feature_id@, false).len(),
            forall|i: int|
                0 <= i < r@.len() ==> (#[trigger] r@[i])@ == feature_order(
                    goals@,
                    feature_id@,
                    false,
                )[i].summary@,
    {
        let order = feature_positions(goals, feature_id, false);
        let ghost listed = feature_order(goals@, feature_id@, false);
        let mut out: Vec<GoalSummaryProjection> = Vec::new();
        let mut k: usize = 0;
        while k < order.len()
            invariant
                k <= order@.len() == listed.len(),
                out@.len() == k,
                forall|j: int|
                    0 <= j < order@.len() ==> #[trigger] order@[j] < goals@.len()
                        && goals@[order@[j] as int] == listed[j],
                forall|j: int| 0 <= j < k ==> (#[trigger] out@[j])@ == listed[j].summary@,
            decreases order.len() - k,
        {
            let at: usize = order[k];
            out.push(goals[at].summary.clone());
            k = k + 1;
        }
        out
    }

    /// How the node of a goal is shown, where it is known.
    pub fn node_identity(&self, nodes: &Vec<Node>, node_id: Option<&str>) -> (r: Option<
        NodeIdentity,
    >)
        ensures
            match r {
                Some(identity) => crate::nodes::node_with_id(
                    nodes@,
                    node_or_default(crate::text::borrowed_view(node_id)),
                ) matches Some(node) && identity@ == crate::nodes::identity_of(node),
                None => crate::nodes::node_with_id(
                    nodes@,
                    node_or_default(crate::text::borrowed_view(node_id)),
                ) is None,
            },
    {
        let id = match node_id {
            Some(id) => id,
            None => "default",
        };
        match self.node_registry_service().node_identity(nodes, id) {
            Ok(identity) => Some(identity),
            Err(_) => None,
        }
    }
}

/// A goal without a node belongs to the default one.
pub open spec fn node_or_default(node_id: Option<Seq<char>>) -> Seq<char> {
    match node_id {
        Some(id) => id,
        None => "default"@,
    }
}

proof fn orders_are_bounded(goals: Seq<FeatureGoal>, feature_id: Seq<char>, ordered_only: bool)
    ensures
        feature_order(goals, feature_id, ordered_only).len() <= goals.len(),
{
    broadcast use vstd::seq_lib::group_filter_ensures;

    let rows = in_feature(goals, feature_id, ordered_only);
    crate::project_state::ordering::orders_keep_every_row(
        rows.map_values(feature_rank()),
        true,
        rows.len(),
    );
}

/// A goal that is placed after another stands right behind it: of the ordered
/// goals without it, those up to the other one stay before it and the rest come
/// after it.
#[verifier::spinoff_prover]
pub proof fn a_placed_goal_follows_its_prerequisite(
    feature_id: Seq<char>,
    goal_id: Seq<char>,
    prerequisite: String,
    ordered_ids: Seq<Seq<char>>,
)
    requires
        place_of(
            feature_id,
            goal_id,
            FeatureGoalPlacement::After(prerequisite),
            ordered_ids,
        ) is Ok,
    ensures
        ({
            let place = place_of(
                feature_id,
                goal_id,
                FeatureGoalPlacement::After(prerequisite),
                ordered_ids,
            )->Ok_0;
            let rest = ordered_ids.remove(position_in(ordered_ids, goal_id)->0);
            let moved = rest.insert(place - 1, goal_id);
            &&& 2 <= place <= ordered_ids.len()
            &&& moved[place - 2] == crate::text::trimmed(prerequisite@)
            &&& moved[place - 1] == goal_id
            &&& moved.len() == ordered_ids.len()
        }),
{
    let source = position_in(ordered_ids, goal_id)->0;
    let rest = ordered_ids.remove(source);
    let target = position_in(rest, crate::text::trimmed(prerequisite@))->0;
    positions_are_sound(ordered_ids, goal_id);
    positions_are_sound(rest, crate::text::trimmed(prerequisite@));
    inserted_ids_stand_behind(rest, target, goal_id);
}

proof fn inserted_ids_stand_behind(ids: Seq<Seq<char>>, at: int, id: Seq<char>)
    requires
        0 <= at < ids.len(),
    ensures
        ids.insert(at + 1, id)[at] == ids[at],
        ids.insert(at + 1, id)[at + 1] == id,
        ids.insert(at + 1, id).len() == ids.len() + 1,
{
}

proof fn positions_are_sound(ids: Seq<Seq<char>>, id: Seq<char>)
    ensures
        position_in(ids, id) matches Some(i) ==> 0 <= i < ids.len() && ids[i] == id,
{
    crate::lists::first_position_is_sound(ids, |x: Seq<char>| x == id);
}

/// Closing the gaps keeps the order and gives the places one to the number of
/// ordered goals.
pub proof fn compacted_orders_keep_their_order(
    goals: Seq<FeatureGoal>,
    feature_id: Seq<char>,
    i: int,
    j: int,
)
    requires
        0 <= i < j < feature_order(goals, feature_id, true).len(),
    ensures
        ({
            let listed = feature_order(goals, feature_id, true);
            listed[i].rank <= listed[j].rank
        }),
{
    let rows = in_feature(goals, feature_id, true);
    let key = feature_rank();
    crate::project_state::ordering::orders_keep_every_row(rows.map_values(key), true, rows.len());
    crate::project_state::ordering::sorting_orders_the_rows(rows, key, true, i, j);
}

/// The next place of a feature is after every place that is taken.
pub proof fn the_next_order_is_free(
    goals: Seq<GoalIndexProjection>,
    feature_id: Seq<char>,
    i: int,
)
    requires
        0 <= i < goals.len(),
        crate::text::maybe_view(goals[i].feature_id) == Some(feature_id),
        goals[i].feature_order is Some,
    ensures
        goals[i].feature_order->0 < next_order(goals, feature_id),
{
    the_last_order_is_largest(goals, feature_id, i);
}

proof fn the_last_order_is_largest(
    goals: Seq<GoalIndexProjection>,
    feature_id: Seq<char>,
    i: int,
)
    requires
        0 <= i < goals.len(),
        crate::text::maybe_view(goals[i].feature_id) == Some(feature_id),
        goals[i].feature_order is Some,
    ensures
        last_order(goals, feature_id) is Some,
        last_order(goals, feature_id)->0 >= goals[i].feature_order->0,
    decreases goals.len(),
{
    if i < goals.len() - 1 {
        the_last_order_is_largest(goals.drop_last(), feature_id, i);
    }
}

} // verus!

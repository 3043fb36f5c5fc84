//! Which recommendations are given, and when.
use vstd::prelude::*;

use crate::model::{GoalStatus, GoalSummaryProjection};
use crate::nodes::Node;

verus! {

/// A goal is placed on a node; one that names none is on the default node.
pub open spec fn placed_on(goal: GoalSummaryProjection, node: Seq<char>) -> bool {
    match goal.goal.node_id {
        Some(n) => n@ == node,
        None => node == "default"@,
    }
}

/// A goal waits for review.
pub open spec fn waits_for_review(goal: GoalSummaryProjection) -> bool {
    goal.goal.status is Review
}

/// Nobody has started on a goal.
pub open spec fn not_started(goal: GoalSummaryProjection) -> bool {
    goal.goal.status is Backlog || goal.goal.status is Todo
}

/// A node is in use and last reported this health.
pub open spec fn last_reported(node: Node, health: Seq<char>) -> bool {
    node.enabled && !node.archived && node.health is Some && (node.health->0)@ == health
}

/// A node is in use and reported neither a failure nor that it is gone.
pub open spec fn can_take_work(node: Node) -> bool {
    node.enabled && !node.archived && !last_reported(node, "failed"@) && !last_reported(
        node,
        "deprovisioned"@,
    )
}

/// Some goal waits for review on a node.
pub open spec fn reviews_wait_on(goals: Seq<GoalSummaryProjection>, node: Seq<char>) -> bool {
    exists|i: int|
        0 <= i < goals.len() && waits_for_review(#[trigger] goals[i]) && placed_on(goals[i], node)
}

/// Some goal waits for review away from a node.
pub open spec fn reviews_wait_off(goals: Seq<GoalSummaryProjection>, node: Seq<char>) -> bool {
    exists|i: int|
        0 <= i < goals.len() && waits_for_review(#[trigger] goals[i]) && !placed_on(goals[i], node)
}

/// There are goals that nobody has started on, and all of them are on one node.
pub open spec fn heaped(goals: Seq<GoalSummaryProjection>) -> bool {
    exists|node: Seq<char>| #[trigger] heaped_on(goals, node)
}

/// There are goals that nobody has started on, and all of them are on this node.
pub open spec fn heaped_on(goals: Seq<GoalSummaryProjection>, node: Seq<char>) -> bool {
    &&& exists|i: int| 0 <= i < goals.len() && not_started(#[trigger] goals[i])
    &&& forall|i: int|
        0 <= i < goals.len() && not_started(#[trigger] goals[i]) ==> placed_on(goals[i], node)
}

/// At least two nodes can take work.
pub open spec fn several_can_take_work(nodes: Seq<Node>) -> bool {
    exists|i: int, j: int|
        0 <= i < j < nodes.len() && can_take_work(#[trigger] nodes[i]) && can_take_work(
            #[trigger] nodes[j],
        )
}

/// Some node in use last reported a failure.
pub open spec fn a_node_failed(nodes: Seq<Node>) -> bool {
    exists|i: int| 0 <= i < nodes.len() && last_reported(#[trigger] nodes[i], "failed"@)
}

/// The recommendations of an answer.
pub open spec fn recommendations(answer: crate::json::JsonView) -> Seq<crate::json::JsonView> {
    answer->Object_0["suggestions"@]->Array_0
}

/// An object holds a text under a key.
pub open spec fn holds_text(value: crate::json::JsonView, key: Seq<char>, text: Seq<char>) -> bool {
    value is Object && value->Object_0.contains_key(key) && value->Object_0[key]
        == crate::json::JsonView::Text(text)
}

/// A recommendation with its reason and its command.
pub open spec fn recommends_to(
    value: crate::json::JsonView,
    id: Seq<char>,
    reason: Seq<char>,
    command: Seq<char>,
) -> bool {
    holds_text(value, "id"@, id) && holds_text(value, "reason"@, reason) && holds_text(
        value,
        "command"@,
        command,
    )
}

/// A list holds a recommendation with this id.
pub open spec fn offers(list: Seq<crate::json::JsonView>, id: Seq<char>) -> bool {
    exists|i: int| 0 <= i < list.len() && holds_text(#[trigger] list[i], "id"@, id)
}

proof fn keys_differ()
    ensures
        "priority"@ != "id"@,
        "priority"@ != "reason"@,
        "priority"@ != "command"@,
        "id"@ != "reason"@,
        "id"@ != "command"@,
        "reason"@ != "command"@,
        "ok"@ != "suggestions"@,
        "active_node_id"@ != "suggestions"@,
        "state"@ != "suggestions"@,
        "ok"@ != "active_node_id"@,
        "ok"@ != "state"@,
        "state"@ != "active_node_id"@,
{
    reveal_strlit("priority");
    reveal_strlit("id");
    reveal_strlit("reason");
    reveal_strlit("command");
    reveal_strlit("ok");
    reveal_strlit("suggestions");
    reveal_strlit("active_node_id");
    reveal_strlit("state");
    assert("priority"@.len() == 8 && "id"@.len() == 2 && "reason"@.len() == 6 && "command"@.len()
        == 7);
    assert("ok"@.len() == 2 && "suggestions"@.len() == 11 && "active_node_id"@.len() == 14
        && "state"@.len() == 5);
}

proof fn ids_differ()
    ensures
        "capture-first-goal"@.len() == 18,
        "inspect-failed-node"@.len() == 19,
        "converge-reviewables"@.len() == 20,
        "distribute-work"@.len() == 15,
        "review-work"@.len() == 11,
        "all-quiet"@.len() == 9,
        "failed"@ != "deprovisioned"@,
{
    reveal_strlit("capture-first-goal");
    reveal_strlit("inspect-failed-node");
    reveal_strlit("converge-reviewables");
    reveal_strlit("distribute-work");
    reveal_strlit("review-work");
    reveal_strlit("all-quiet");
    reveal_strlit("failed");
    reveal_strlit("deprovisioned");
    assert("failed"@.len() == 6 && "deprovisioned"@.len() == 13);
}

proof fn one_more(
    list: Seq<crate::json::JsonView>,
    id: Seq<char>,
    reason: Seq<char>,
    command: Seq<char>,
)
    ensures
        ({
            let longer = crate::next_actions::suggested(list, id, reason, command);
            &&& longer.len() == list.len() + 1
            &&& forall|i: int| 0 <= i < list.len() ==> #[trigger] longer[i] == list[i]
            &&& recommends_to(longer[list.len() as int], id, reason, command)
        }),
{
    keys_differ();
}

proof fn counts_are_lengths<T>(s: Seq<T>, p: spec_fn(T) -> bool)
    ensures
        crate::next_actions::count_of(s, p) == s.filter(p).len(),
        (crate::next_actions::count_of(s, p) > 0) == exists|i: int|
            0 <= i < s.len() && p(#[trigger] s[i]),
    decreases s.len(),
{
    reveal(Seq::filter);
    if s.len() > 0 {
        counts_are_lengths(s.drop_last(), p);
        if p(s.last()) {
            assert(p(s[s.len() - 1]));
        }
        if exists|i: int| 0 <= i < s.drop_last().len() && p(#[trigger] s.drop_last()[i]) {
            let i = choose|i: int| 0 <= i < s.drop_last().len() && p(#[trigger] s.drop_last()[i]);
            assert(p(s[i]));
        }
        if exists|i: int| 0 <= i < s.len() && p(#[trigger] s[i]) {
            let i = choose|i: int| 0 <= i < s.len() && p(#[trigger] s[i]);
            if i < s.len() - 1 {
                assert(p(s.drop_last()[i]));
            }
        }
    }
}

proof fn two_are_counted<T>(s: Seq<T>, p: spec_fn(T) -> bool)
    ensures
        (crate::next_actions::count_of(s, p) > 1) == exists|i: int, j: int|
            0 <= i < j < s.len() && p(#[trigger] s[i]) && p(#[trigger] s[j]),
    decreases s.len(),
{
    if s.len() > 0 {
        let rest = s.drop_last();
        two_are_counted(rest, p);
        counts_are_lengths(rest, p);
        let last: int = s.len() - 1;
        if crate::next_actions::count_of(rest, p) > 1 {
            let (i, j) = choose|i: int, j: int|
                0 <= i < j < rest.len() && p(#[trigger] rest[i]) && p(#[trigger] rest[j]);
            assert(p(s[i]) && p(s[j]));
        } else if crate::next_actions::count_of(rest, p) > 0 && p(s.last()) {
            let i = choose|i: int| 0 <= i < rest.len() && p(#[trigger] rest[i]);
            assert(p(s[i]) && p(s[last]));
        }
        if exists|i: int, j: int|
            0 <= i < j < s.len() && p(#[trigger] s[i]) && p(#[trigger] s[j]) {
            let (i, j) = choose|i: int, j: int|
                0 <= i < j < s.len() && p(#[trigger] s[i]) && p(#[trigger] s[j]);
            assert(p(rest[i]));
            if j < last {
                assert(p(rest[j]));
            }
        }
    }
}

proof fn failures_are_told(list: Seq<crate::json::JsonView>, nodes: Seq<Node>)
    ensures
        ({
            let longer = crate::next_actions::with_failed_nodes(list, nodes);
            let failed = nodes.filter(|n: Node| last_reported(n, "failed"@));
            &&& longer.len() == list.len() + failed.len()
            &&& forall|i: int| 0 <= i < list.len() ==> #[trigger] longer[i] == list[i]
            &&& forall|i: int|
                list.len() <= i < longer.len() ==> recommends_to(
                    #[trigger] longer[i],
                    "inspect-failed-node"@,
                    "Node "@ + failed[i - list.len()].id@
                        + " last reported failed health; inspect before sending work to it."@,
                    "refine cluster show "@ + failed[i - list.len()].id@,
                )
        }),
    decreases nodes.len(),
{
    reveal(Seq::filter);
    if nodes.len() > 0 {
        failures_are_told(list, nodes.drop_last());
        let node = nodes.last();
        one_more(
            crate::next_actions::with_failed_nodes(list, nodes.drop_last()),
            "inspect-failed-node"@,
            "Node "@ + node.id@
                + " last reported failed health; inspect before sending work to it."@,
            "refine cluster show "@ + node.id@,
        );
    }
}

proof fn reviews_are_here_or_elsewhere(goals: Seq<GoalSummaryProjection>, active: Seq<char>)
    ensures
        ({
            let reviews = crate::next_actions::count_of(
                goals,
                |g: GoalSummaryProjection| g.goal.status == GoalStatus::Review,
            );
            let elsewhere = crate::next_actions::count_of(
                goals,
                |g: GoalSummaryProjection| crate::next_actions::is_stranded(g, active),
            );
            &&& elsewhere <= reviews
            &&& (elsewhere < reviews) == reviews_wait_on(goals, active)
            &&& (elsewhere > 0) == reviews_wait_off(goals, active)
            &&& elsewhere == goals.filter(
                |g: GoalSummaryProjection| waits_for_review(g) && !placed_on(g, active),
            ).len()
            &&& reviews == goals.filter(|g: GoalSummaryProjection| waits_for_review(g)).len()
        }),
    decreases goals.len(),
{
    reveal(Seq::filter);
    if goals.len() > 0 {
        let rest = goals.drop_last();
        let last: int = goals.len() - 1;
        reviews_are_here_or_elsewhere(rest, active);
        if reviews_wait_on(rest, active) {
            let i = choose|i: int|
                0 <= i < rest.len() && waits_for_review(#[trigger] rest[i]) && placed_on(
                    rest[i],
                    active,
                );
            assert(waits_for_review(goals[i]));
        }
        if reviews_wait_off(rest, active) {
            let i = choose|i: int|
                0 <= i < rest.len() && waits_for_review(#[trigger] rest[i]) && !placed_on(
                    rest[i],
                    active,
                );
            assert(waits_for_review(goals[i]));
        }
        assert(goals[last] == goals.last());
        if reviews_wait_on(goals, active) {
            let i = choose|i: int|
                0 <= i < goals.len() && waits_for_review(#[trigger] goals[i]) && placed_on(
                    goals[i],
                    active,
                );
            if i < last {
                assert(waits_for_review(rest[i]));
            }
        }
        if reviews_wait_off(goals, active) {
            let i = choose|i: int|
                0 <= i < goals.len() && waits_for_review(#[trigger] goals[i]) && !placed_on(
                    goals[i],
                    active,
                );
            if i < last {
                assert(waits_for_review(rest[i]));
            }
        }
    }
}

proof fn owners_are_those_of_open_goals(goals: Seq<GoalSummaryProjection>, node: Seq<char>)
    ensures
        crate::next_actions::open_by_node(goals).dom().finite(),
        crate::next_actions::open_by_node(goals).contains_key(node) == exists|i: int|
            0 <= i < goals.len() && not_started(#[trigger] goals[i]) && placed_on(goals[i], node),
        crate::next_actions::open_by_node(goals).contains_key(node)
            ==> crate::next_actions::open_by_node(goals)[node] == goals.filter(
            |g: GoalSummaryProjection| not_started(g) && placed_on(g, node),
        ).len(),
        !crate::next_actions::open_by_node(goals).contains_key(node) ==> goals.filter(
            |g: GoalSummaryProjection| not_started(g) && placed_on(g, node),
        ).len() == 0,
    decreases goals.len(),
{
    reveal(Seq::filter);
    if goals.len() > 0 {
        let rest = goals.drop_last();
        let last: int = goals.len() - 1;
        owners_are_those_of_open_goals(rest, node);
        assert(goals[last] == goals.last());
        if exists|i: int|
            0 <= i < rest.len() && not_started(#[trigger] rest[i]) && placed_on(rest[i], node) {
            let i = choose|i: int|
                0 <= i < rest.len() && not_started(#[trigger] rest[i]) && placed_on(rest[i], node);
            assert(not_started(goals[i]));
        }
        if exists|i: int|
            0 <= i < goals.len() && not_started(#[trigger] goals[i]) && placed_on(goals[i], node) {
            let i = choose|i: int|
                0 <= i < goals.len() && not_started(#[trigger] goals[i]) && placed_on(
                    goals[i],
                    node,
                );
            if i < last {
                assert(not_started(rest[i]));
            }
        }
    }
}

proof fn one_owner_is_a_heap(goals: Seq<GoalSummaryProjection>)
    ensures
        (crate::next_actions::open_by_node(goals).dom().len() == 1) == heaped(goals),
{
    let owners = crate::next_actions::open_by_node(goals).dom();
    owners_are_those_of_open_goals(goals, Seq::empty());
    if owners.len() == 1 {
        let node = owners.choose();
        assert(owners.contains(node));
        assert(owners.remove(node).len() == 0);
        owners_are_those_of_open_goals(goals, node);
        let k = choose|i: int|
            0 <= i < goals.len() && not_started(#[trigger] goals[i]) && placed_on(goals[i], node);
        assert(not_started(goals[k]));
        assert forall|i: int| 0 <= i < goals.len() && not_started(#[trigger] goals[i]) implies placed_on(
            goals[i],
            node,
        ) by {
            let other = crate::next_actions::sits_on(goals[i]);
            owners_are_those_of_open_goals(goals, other);
            assert(placed_on(goals[i], other));
            assert(owners.contains(other));
            if other != node {
                assert(owners.remove(node).contains(other));
                assert(owners.remove(node).remove(other).len() + 1 == owners.remove(node).len());
            }
        }
        assert(heaped_on(goals, node));
    }
    if heaped(goals) {
        let node = choose|node: Seq<char>| #[trigger] heaped_on(goals, node);
        let k = choose|i: int| 0 <= i < goals.len() && not_started(#[trigger] goals[i]);
        assert(placed_on(goals[k], node));
        owners_are_those_of_open_goals(goals, node);
        assert forall|other: Seq<char>| #[trigger] owners.contains(other) implies other == node by {
            owners_are_those_of_open_goals(goals, other);
            let i = choose|i: int|
                0 <= i < goals.len() && not_started(#[trigger] goals[i]) && placed_on(
                    goals[i],
                    other,
                );
            assert(placed_on(goals[i], node));
        }
        assert(owners =~= Set::empty().insert(node));
    }
}

/// How many of these hold, as a number of places in a list.
pub open spec fn place(taken: bool) -> int {
    if taken {
        1
    } else {
        0
    }
}

/// The recommendations in their order: a first goal to capture where there is
/// none, each failed node in turn, reviews to bring here, work to spread, and
/// reviews that wait here; where there is none of these, that all is quiet.
pub proof fn recommendations_follow_the_state(
    nodes: Seq<Node>,
    goals: Seq<GoalSummaryProjection>,
    active: Seq<char>,
    claims: nat,
)
    ensures
        ({
            let list = recommendations(
                crate::next_actions::response_for(nodes, goals, active, claims),
            );
            let failed = nodes.filter(|n: Node| last_reported(n, "failed"@));
            let waiting = goals.filter(|g: GoalSummaryProjection| waits_for_review(g));
            let away = goals.filter(
                |g: GoalSummaryProjection| waits_for_review(g) && !placed_on(g, active),
            );
            let open = goals.filter(|g: GoalSummaryProjection| not_started(g));
            let able = nodes.filter(|n: Node| can_take_work(n));
            let spread = several_can_take_work(nodes) && heaped(goals);
            let a = place(goals.len() == 0);
            let b = a + failed.len();
            let c = b + place(reviews_wait_off(goals, active));
            let d = c + place(spread);
            let e = d + place(reviews_wait_on(goals, active));
            &&& list.len() == e + place(e == 0)
            &&& goals.len() == 0 ==> recommends_to(
                list[0],
                "capture-first-goal"@,
                "No work is tracked yet. Capture the first goal between what the app does and what it should do."@,
                "refine goal create \"<what should change>\""@,
            )
            &&& forall|i: int|
                a <= i < b ==> recommends_to(
                    #[trigger] list[i],
                    "inspect-failed-node"@,
                    "Node "@ + failed[i - a].id@
                        + " last reported failed health; inspect before sending work to it."@,
                    "refine cluster show "@ + failed[i - a].id@,
                )
            &&& reviews_wait_off(goals, active) ==> recommends_to(
                list[b],
                "converge-reviewables"@,
                crate::text::decimal(away.len())
                    + " reviewable goal(s) sit on other nodes; converge them to this node for review."@,
                "refine cluster distribute --converge --to "@ + active,
            )
            &&& spread ==> recommends_to(
                list[c],
                "distribute-work"@,
                crate::text::decimal(open.len()) + " open goal(s) all sit on one node while "@
                    + crate::text::decimal(able.len()) + " nodes are available."@,
                "refine cluster distribute --dry-run"@,
            )
            &&& reviews_wait_on(goals, active) ==> recommends_to(
                list[d],
                "review-work"@,
                crate::text::decimal(waiting.len()) + " goal(s) are waiting on human review."@,
                "refine goal list"@,
            )
            &&& e == 0 ==> recommends_to(
                list[0],
                "all-quiet"@,
                "Nothing needs attention: work and fleet are in steady state."@,
                "refine system status"@,
            )
        }),
{
    keys_differ();
    ids_differ();
    let first = crate::next_actions::with_first_goal(Seq::empty(), goals);
    let failed = nodes.filter(|n: Node| last_reported(n, "failed"@));
    one_more(
        Seq::empty(),
        "capture-first-goal"@,
        "No work is tracked yet. Capture the first goal between what the app does and what it should do."@,
        "refine goal create \"<what should change>\""@,
    );
    failures_are_told(first, nodes);
    let second = crate::next_actions::with_failed_nodes(first, nodes);
    let open_p = |g: GoalSummaryProjection| crate::next_actions::is_open(g);
    let able_p = |n: Node| crate::next_actions::is_available(n);
    let stranded = crate::next_actions::count_of(
        goals,
        |g: GoalSummaryProjection| crate::next_actions::is_stranded(g, active),
    );
    let reviews = crate::next_actions::count_of(
        goals,
        |g: GoalSummaryProjection| g.goal.status == GoalStatus::Review,
    );
    let open = crate::next_actions::count_of(goals, open_p);
    let able = crate::next_actions::count_of(nodes, able_p);
    let owners = crate::next_actions::open_by_node(goals).dom().len();
    reviews_are_here_or_elsewhere(goals, active);
    counts_are_lengths(goals, open_p);
    counts_are_lengths(nodes, able_p);
    two_are_counted(nodes, able_p);
    one_owner_is_a_heap(goals);
    assert(open_p =~= |g: GoalSummaryProjection| not_started(g));
    assert(able_p =~= |n: Node| can_take_work(n));
    if heaped(goals) {
        let node = choose|node: Seq<char>| #[trigger] heaped_on(goals, node);
        let k = choose|i: int| 0 <= i < goals.len() && not_started(#[trigger] goals[i]);
        assert(open_p(goals[k]));
    }
    assert((able > 1) == several_can_take_work(nodes)) by {
        if able > 1 {
            let (i, j) = choose|i: int, j: int|
                0 <= i < j < nodes.len() && able_p(#[trigger] nodes[i]) && able_p(
                    #[trigger] nodes[j],
                );
            assert(can_take_work(nodes[i]) && can_take_work(nodes[j]));
        }
        if several_can_take_work(nodes) {
            let (i, j) = choose|i: int, j: int|
                0 <= i < j < nodes.len() && can_take_work(#[trigger] nodes[i]) && can_take_work(
                    #[trigger] nodes[j],
                );
            assert(able_p(nodes[i]) && able_p(nodes[j]));
        }
    }
    one_more(
        second,
        "converge-reviewables"@,
        crate::text::decimal(stranded)
            + " reviewable goal(s) sit on other nodes; converge them to this node for review."@,
        "refine cluster distribute --converge --to "@ + active,
    );
    let third = crate::next_actions::with_stranded(second, stranded, active);
    one_more(
        third,
        "distribute-work"@,
        crate::text::decimal(open) + " open goal(s) all sit on one node while "@
            + crate::text::decimal(able) + " nodes are available."@,
        "refine cluster distribute --dry-run"@,
    );
    let fourth = crate::next_actions::with_distribution(third, open, owners, able);
    one_more(
        fourth,
        "review-work"@,
        crate::text::decimal(reviews) + " goal(s) are waiting on human review."@,
        "refine goal list"@,
    );
    let fifth = crate::next_actions::with_reviews(fourth, reviews, stranded);
    one_more(
        fifth,
        "all-quiet"@,
        "Nothing needs attention: work and fleet are in steady state."@,
        "refine system status"@,
    );
    let list = recommendations(crate::next_actions::response_for(nodes, goals, active, claims));
    assert(list == crate::next_actions::suggestions_for(nodes, goals, active));
    let a = place(goals.len() == 0);
    assert forall|i: int| a <= i < a + failed.len() implies #[trigger] list[i] == second[i] by {}
}

/// Each recommendation is given exactly where its occasion is there: a review
/// where some goal waits for review on the active node, and quiet only where
/// there is a goal, no node failed, no goal waits for review and the open work
/// is not heaped on one of several nodes.
pub proof fn recommendations_have_their_occasion(
    nodes: Seq<Node>,
    goals: Seq<GoalSummaryProjection>,
    active: Seq<char>,
    claims: nat,
)
    ensures
        ({
            let list = recommendations(
                crate::next_actions::response_for(nodes, goals, active, claims),
            );
            &&& offers(list, "review-work"@) == reviews_wait_on(goals, active)
            &&& offers(list, "converge-reviewables"@) == reviews_wait_off(goals, active)
            &&& offers(list, "capture-first-goal"@) == (goals.len() == 0)
            &&& offers(list, "inspect-failed-node"@) == a_node_failed(nodes)
            &&& offers(list, "distribute-work"@) == (several_can_take_work(nodes) && heaped(goals))
            &&& offers(list, "all-quiet"@) == (goals.len() > 0 && !a_node_failed(nodes) && !(
            exists|i: int| 0 <= i < goals.len() && waits_for_review(#[trigger] goals[i])) && !(
            several_can_take_work(nodes) && heaped(goals)))
        }),
{
    recommendations_follow_the_state(nodes, goals, active, claims);
    ids_differ();
    let list = recommendations(crate::next_actions::response_for(nodes, goals, active, claims));
    let failing = |n: Node| last_reported(n, "failed"@);
    let failed = nodes.filter(failing);
    counts_are_lengths(nodes, failing);
    assert((failed.len() > 0) == a_node_failed(nodes)) by {
        if failed.len() > 0 {
            let i = choose|i: int| 0 <= i < nodes.len() && failing(#[trigger] nodes[i]);
            assert(last_reported(nodes[i], "failed"@));
        }
        if a_node_failed(nodes) {
            let i = choose|i: int|
                0 <= i < nodes.len() && last_reported(#[trigger] nodes[i], "failed"@);
            assert(failing(nodes[i]));
        }
    }
    let a = place(goals.len() == 0);
    let b = a + failed.len();
    let c = b + place(reviews_wait_off(goals, active));
    let d = c + place(several_can_take_work(nodes) && heaped(goals));
    if goals.len() == 0 {
        assert(holds_text(list[0], "id"@, "capture-first-goal"@));
    }
    if failed.len() > 0 {
        assert(holds_text(list[a], "id"@, "inspect-failed-node"@));
    }
    if reviews_wait_off(goals, active) {
        assert(holds_text(list[b], "id"@, "converge-reviewables"@));
        let i = choose|i: int|
            0 <= i < goals.len() && waits_for_review(#[trigger] goals[i]) && !placed_on(
                goals[i],
                active,
            );
        assert(waits_for_review(goals[i]));
    }
    if several_can_take_work(nodes) && heaped(goals) {
        assert(holds_text(list[c], "id"@, "distribute-work"@));
    }
    if reviews_wait_on(goals, active) {
        assert(holds_text(list[d], "id"@, "review-work"@));
        let i = choose|i: int|
            0 <= i < goals.len() && waits_for_review(#[trigger] goals[i]) && placed_on(
                goals[i],
                active,
            );
        assert(waits_for_review(goals[i]));
    }
    if goals.len() > 0 && failed.len() == 0 && d == 0 && !reviews_wait_on(goals, active) {
        assert(holds_text(list[0], "id"@, "all-quiet"@));
    }
    if exists|i: int| 0 <= i < goals.len() && waits_for_review(#[trigger] goals[i]) {
        let i = choose|i: int| 0 <= i < goals.len() && waits_for_review(#[trigger] goals[i]);
        assert(reviews_wait_on(goals, active) || reviews_wait_off(goals, active)) by {
            assert(waits_for_review(goals[i]));
        }
    }
}

proof fn statuses_are_tallied(goals: Seq<GoalSummaryProjection>, status: GoalStatus)
    ensures
        ({
            let tally = crate::next_actions::goals_by_status(goals);
            let name = crate::model::status_name(status);
            let those = goals.filter(|g: GoalSummaryProjection| g.goal.status == status);
            &&& tally.contains_key(name) == (those.len() > 0)
            &&& tally.contains_key(name) ==> tally[name] == those.len()
        }),
    decreases goals.len(),
{
    reveal(Seq::filter);
    if goals.len() > 0 {
        statuses_are_tallied(goals.drop_last(), status);
        crate::model::status_names_are_distinct(goals.last().goal.status, status);
    }
}

/// A count stands in an object under a key exactly where it is not nothing.
pub open spec fn tallies(
    state: crate::json::JsonView,
    key: Seq<char>,
    name: Seq<char>,
    n: nat,
) -> bool {
    &&& crate::laws::values::has_key(state, key)
    &&& state->Object_0[key] is Object
    &&& crate::laws::values::has_key(state->Object_0[key], name) == (n > 0)
    &&& n > 0 ==> crate::laws::values::counts(state->Object_0[key], name, n as u64)
}

/// The answer tells the active node and the state: how many goals are in each
/// status, how many that nobody has started on sit on each node, how many nodes
/// are in use and can take work, and how many claims are held.
pub proof fn answers_tell_the_state(
    nodes: Seq<Node>,
    goals: Seq<GoalSummaryProjection>,
    active: Seq<char>,
    claims: nat,
    status: GoalStatus,
    node: Seq<char>,
)
    ensures
        ({
            let answer = crate::next_actions::response_for(nodes, goals, active, claims);
            let state = answer->Object_0["state"@];
            &&& crate::laws::values::holds(answer, "ok"@, crate::json::JsonView::Bool(true))
            &&& crate::laws::values::says(answer, "active_node_id"@, active)
            &&& crate::laws::values::has_key(answer, "state"@)
            &&& crate::laws::values::counts(state, "active_claims"@, claims as u64)
            &&& crate::laws::values::counts(
                state,
                "nodes_enabled"@,
                nodes.filter(|n: Node| n.enabled && !n.archived).len() as u64,
            )
            &&& crate::laws::values::counts(
                state,
                "nodes_healthy"@,
                nodes.filter(|n: Node| can_take_work(n)).len() as u64,
            )
            &&& tallies(
                state,
                "goals_by_status"@,
                crate::model::status_name(status),
                goals.filter(|g: GoalSummaryProjection| g.goal.status == status).len(),
            )
            &&& tallies(
                state,
                "open_goals_by_node"@,
                node,
                goals.filter(
                    |g: GoalSummaryProjection| not_started(g) && placed_on(g, node),
                ).len(),
            )
        }),
{
    keys_differ();
    state_keys_differ();
    statuses_are_tallied(goals, status);
    owners_are_those_of_open_goals(goals, node);
    let used = |n: Node| crate::next_actions::takes_part(n);
    let able = |n: Node| crate::next_actions::is_available(n);
    counts_are_lengths(nodes, used);
    counts_are_lengths(nodes, able);
    assert(used =~= (|n: Node| n.enabled && !n.archived));
    assert(able =~= (|n: Node| can_take_work(n)));
    let ours = goals.filter(|g: GoalSummaryProjection| not_started(g) && placed_on(g, node));
    if crate::next_actions::open_by_node(goals).contains_key(node) {
        let i = choose|i: int|
            0 <= i < goals.len() && not_started(#[trigger] goals[i]) && placed_on(goals[i], node);
        let mine = |g: GoalSummaryProjection| not_started(g) && placed_on(g, node);
        counts_are_lengths(goals, mine);
        assert(mine(goals[i]));
    }
}

/// Claims count only where the runtime is known and could be read.
pub proof fn claims_count_where_the_runtime_is_known(
    runtime_root: Option<String>,
    claims: crate::errors::RefineResult<usize>,
)
    ensures
        runtime_root is Some && claims is Ok ==> crate::next_actions::claims_of(
            runtime_root,
            claims,
        ) == claims->Ok_0,
        runtime_root is None || claims is Err ==> crate::next_actions::claims_of(
            runtime_root,
            claims,
        ) == 0,
{
}

proof fn state_keys_differ()
    ensures
        "goals_by_status"@ != "open_goals_by_node"@,
        "goals_by_status"@ != "nodes_enabled"@,
        "goals_by_status"@ != "nodes_healthy"@,
        "goals_by_status"@ != "active_claims"@,
        "open_goals_by_node"@ != "nodes_enabled"@,
        "open_goals_by_node"@ != "nodes_healthy"@,
        "open_goals_by_node"@ != "active_claims"@,
        "nodes_enabled"@ != "nodes_healthy"@,
        "nodes_enabled"@ != "active_claims"@,
        "nodes_healthy"@ != "active_claims"@,
{
    reveal_strlit("goals_by_status");
    reveal_strlit("open_goals_by_node");
    reveal_strlit("nodes_enabled");
    reveal_strlit("nodes_healthy");
    reveal_strlit("active_claims");
    assert("goals_by_status"@.len() == 15);
    assert("open_goals_by_node"@.len() == 18);
    assert("nodes_enabled"@.len() == 13);
    assert("nodes_healthy"@.len() == 13);
    assert("active_claims"@.len() == 13);
    assert("nodes_enabled"@[0] == 'n');
    assert("nodes_enabled"@[6] == 'e');
    assert("nodes_healthy"@[0] == 'n');
    assert("nodes_healthy"@[6] == 'h');
    assert("active_claims"@[0] == 'a');
}

/// The active node is the one that is told, and the default one where none could
/// be.
pub proof fn the_default_node_stands_in(active: crate::errors::RefineResult<String>)
    ensures
        active is Ok ==> crate::next_actions::active_or_default(active) == (active->Ok_0)@,
        active is Err ==> crate::next_actions::active_or_default(active) == "default"@,
{
}

} // verus!

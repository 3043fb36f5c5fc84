//! What to do next: recommendations derived from the recorded state, each with
//! the command that carries it out.
use vstd::prelude::*;

use crate::errors::RefineResult;
use crate::json::Json;
use crate::model::{GoalStatus, GoalSummaryProjection};
use crate::nodes::{FileNodeRegistryService, Node};
use crate::text::{cat2, cat3, decimal_text, text_eq};
use crate::text_map::TextMap;

verus! {

/// Recommends the next operations for one project.
#[derive(Debug)]
pub struct FileNextActionsService {
    pub refine_dir: String,
    pub runtime_root: Option<String>,
}

/// The active node; the default one where it cannot be told.
pub open spec fn active_or_default(active: RefineResult<String>) -> Seq<char> {
    match active {
        Ok(id) => id@,
        Err(_) => "default"@,
    }
}

/// The number of active claims; none without a runtime, and none where the
/// runtime's state cannot be read.
pub open spec fn claims_of(runtime_root: Option<String>, claims: RefineResult<usize>) -> nat {
    match (runtime_root, claims) {
        (Some(_), Ok(n)) => n as nat,
        _ => 0,
    }
}

/// The node that a goal sits on.
pub open spec fn sits_on(goal: GoalSummaryProjection) -> Seq<char> {
    match goal.goal.node_id {
        Some(n) => n@,
        None => "default"@,
    }
}

/// Work that nobody has started.
pub open spec fn is_open(goal: GoalSummaryProjection) -> bool {
    goal.goal.status == GoalStatus::Backlog || goal.goal.status == GoalStatus::Todo
}

/// Work that waits for review on another node.
pub open spec fn is_stranded(goal: GoalSummaryProjection, active: Seq<char>) -> bool {
    goal.goal.status == GoalStatus::Review && sits_on(goal) != active
}

/// How many elements satisfy a predicate.
pub open spec fn count_of<T>(s: Seq<T>, p: spec_fn(T) -> bool) -> nat
    decreases s.len(),
{
    if s.len() == 0 {
        0
    } else {
        count_of(s.drop_last(), p) + if p(s.last()) { 1nat } else { 0nat }
    }
}

/// No more elements satisfy a predicate than there are.
pub proof fn counts_are_bounded<T>(s: Seq<T>, p: spec_fn(T) -> bool)
    ensures
        count_of(s, p) <= s.len(),
    decreases s.len(),
{
    if s.len() > 0 {
        counts_are_bounded(s.drop_last(), p);
    }
}

/// One more occurrence of a key.
pub open spec fn tallied(counts: Map<Seq<char>, nat>, key: Seq<char>) -> Map<Seq<char>, nat> {
    counts.insert(key, (if counts.contains_key(key) { counts[key] } else { 0nat }) + 1)
}

/// The number of goals in each status that occurs.
pub open spec fn goals_by_status(goals: Seq<GoalSummaryProjection>) -> Map<Seq<char>, nat>
    decreases goals.len(),
{
    if goals.len() == 0 {
        Map::empty()
    } else {
        tallied(
            goals_by_status(goals.drop_last()),
            crate::model::status_name(goals.last().goal.status),
        )
    }
}

/// The number of open goals on each node that has some.
pub open spec fn open_by_node(goals: Seq<GoalSummaryProjection>) -> Map<Seq<char>, nat>
    decreases goals.len(),
{
    if goals.len() == 0 {
        Map::empty()
    } else if is_open(goals.last()) {
        tallied(open_by_node(goals.drop_last()), sits_on(goals.last()))
    } else {
        open_by_node(goals.drop_last())
    }
}

/// A node that takes part in the work.
pub open spec fn takes_part(node: Node) -> bool {
    node.enabled && !node.archived
}

/// A node whose last health report is a failure.
pub open spec fn reports_failure(node: Node) -> bool {
    takes_part(node) && crate::text::maybe_view(node.health) == Some("failed"@)
}

/// A node that can be sent work.
pub open spec fn is_available(node: Node) -> bool {
    takes_part(node) && crate::text::maybe_view(node.health) != Some("failed"@)
        && crate::text::maybe_view(node.health) != Some("deprovisioned"@)
}

/// A list of recommendations with one more, ranked after the others.
pub open spec fn suggested(
    list: Seq<crate::json::JsonView>,
    id: Seq<char>,
    reason: Seq<char>,
    command: Seq<char>,
) -> Seq<crate::json::JsonView> {
    list.push(
        crate::json::JsonView::Object(
            Map::<Seq<char>, crate::json::JsonView>::empty().insert(
                "priority"@,
                crate::json::JsonView::Number(
                    crate::json::NumberView::Unsigned((list.len() + 1) as u64),
                ),
            ).insert("id"@, crate::json::JsonView::Text(id)).insert(
                "reason"@,
                crate::json::JsonView::Text(reason),
            ).insert("command"@, crate::json::JsonView::Text(command)),
        ),
    )
}

/// The recommendation to capture a first goal.
pub open spec fn with_first_goal(
    list: Seq<crate::json::JsonView>,
    goals: Seq<GoalSummaryProjection>,
) -> Seq<crate::json::JsonView> {
    if goals.len() == 0 {
        suggested(
            list,
            "capture-first-goal"@,
            "No work is tracked yet. Capture the first goal between what the app does and what it should do."@,
            "refine goal create \"<what should change>\""@,
        )
    } else {
        list
    }
}

/// The recommendations to inspect failed nodes.
pub open spec fn with_failed_nodes(list: Seq<crate::json::JsonView>, nodes: Seq<Node>) -> Seq<
    crate::json::JsonView,
>
    decreases nodes.len(),
{
    if nodes.len() == 0 {
        list
    } else {
        let before = with_failed_nodes(list, nodes.drop_last());
        let node = nodes.last();
        if reports_failure(node) {
            suggested(
                before,
                "inspect-failed-node"@,
                "Node "@ + node.id@
                    + " last reported failed health; inspect before sending work to it."@,
                "refine cluster show "@ + node.id@,
            )
        } else {
            before
        }
    }
}

/// The recommendation to bring stranded reviews here.
pub open spec fn with_stranded(list: Seq<crate::json::JsonView>, stranded: nat, active: Seq<char>) -> Seq<
    crate::json::JsonView,
> {
    if stranded > 0 {
        suggested(
            list,
            "converge-reviewables"@,
            crate::text::decimal(stranded)
                + " reviewable goal(s) sit on other nodes; converge them to this node for review."@,
            "refine cluster distribute --converge --to "@ + active,
        )
    } else {
        list
    }
}

/// The recommendation to spread open work.
pub open spec fn with_distribution(
    list: Seq<crate::json::JsonView>,
    open: nat,
    owners: nat,
    available: nat,
) -> Seq<crate::json::JsonView> {
    if available > 1 && open > 0 && owners == 1 {
        suggested(
            list,
            "distribute-work"@,
            crate::text::decimal(open) + " open goal(s) all sit on one node while "@
                + crate::text::decimal(available) + " nodes are available."@,
            "refine cluster distribute --dry-run"@,
        )
    } else {
        list
    }
}

/// The recommendation to review.
pub open spec fn with_reviews(list: Seq<crate::json::JsonView>, reviews: nat, stranded: nat) -> Seq<
    crate::json::JsonView,
> {
    if stranded < reviews {
        suggested(
            list,
            "review-work"@,
            crate::text::decimal(reviews) + " goal(s) are waiting on human review."@,
            "refine goal list"@,
        )
    } else {
        list
    }
}

/// All recommendations; where nothing needs attention, that is said.
pub open spec fn suggestions_for(
    nodes: Seq<Node>,
    goals: Seq<GoalSummaryProjection>,
    active: Seq<char>,
) -> Seq<crate::json::JsonView> {
    let stranded = count_of(goals, |g: GoalSummaryProjection| is_stranded(g, active));
    let reviews = count_of(
        goals,
        |g: GoalSummaryProjection| g.goal.status == GoalStatus::Review,
    );
    let open = count_of(goals, |g: GoalSummaryProjection| is_open(g));
    let list = with_reviews(
        with_distribution(
            with_stranded(
                with_failed_nodes(with_first_goal(Seq::empty(), goals), nodes),
                stranded,
                active,
            ),
            open,
            open_by_node(goals).dom().len(),
            count_of(nodes, |n: Node| is_available(n)),
        ),
        reviews,
        stranded,
    );
    if list.len() == 0 {
        suggested(
            list,
            "all-quiet"@,
            "Nothing needs attention: work and fleet are in steady state."@,
            "refine system status"@,
        )
    } else {
        list
    }
}

/// Counts as an object.
pub open spec fn counts_object(counts: Map<Seq<char>, nat>) -> crate::json::JsonView {
    crate::json::JsonView::Object(
        Map::new(
            |k: Seq<char>| counts.contains_key(k),
            |k: Seq<char>|
                crate::json::JsonView::Number(crate::json::NumberView::Unsigned(counts[k] as u64)),
        ),
    )
}

/// A number as a value.
pub open spec fn number(n: nat) -> crate::json::JsonView {
    crate::json::JsonView::Number(crate::json::NumberView::Unsigned(n as u64))
}

/// The whole answer.
pub open spec fn response_for(
    nodes: Seq<Node>,
    goals: Seq<GoalSummaryProjection>,
    active: Seq<char>,
    claims: nat,
) -> crate::json::JsonView {
    let state = crate::json::JsonView::Object(
        Map::<Seq<char>, crate::json::JsonView>::empty().insert(
            "goals_by_status"@,
            counts_object(goals_by_status(goals)),
        ).insert("open_goals_by_node"@, counts_object(open_by_node(goals))).insert(
            "nodes_enabled"@,
            number(count_of(nodes, |n: Node| takes_part(n))),
        ).insert("nodes_healthy"@, number(count_of(nodes, |n: Node| is_available(n)))).insert(
            "active_claims"@,
            number(claims),
        ),
    );
    crate::json::JsonView::Object(
        Map::<Seq<char>, crate::json::JsonView>::empty().insert(
            "ok"@,
            crate::json::JsonView::Bool(true),
        ).insert("active_node_id"@, crate::json::JsonView::Text(active)).insert(
            "state"@,
            state,
        ).insert(
            "suggestions"@,
            crate::json::JsonView::Array(suggestions_for(nodes, goals, active)),
        ),
    )
}

fn suggest(suggestions: &mut Vec<Json>, id: &str, reason: &str, command: &str)
    requires
        old(suggestions)@.len() < usize::MAX,
    ensures
        crate::json::json_views(final(suggestions)@) == suggested(
            crate::json::json_views(old(suggestions)@),
            id@,
            reason@,
            command@,
        ),
        final(suggestions)@.len() == old(suggestions)@.len() + 1,
{
    let mut o = Json::object();
    o.set("priority", Json::unsigned((suggestions.len() + 1) as u64));
    o.set("id", Json::text(id));
    o.set("reason", Json::text(reason));
    o.set("command", Json::text(command));
    let ghost before = suggestions@;
    suggestions.push(o);
    assert(crate::json::json_views(suggestions@) =~= crate::json::json_views(before).push(o@));
}

/// Counts by key, as numbers.
pub open spec fn tally_view(counts: Map<Seq<char>, usize>) -> Map<Seq<char>, nat> {
    Map::new(|k: Seq<char>| counts.contains_key(k), |k: Seq<char>| counts[k] as nat)
}

fn tally(counts: &mut TextMap<usize>, key: &str, bound: usize)
    requires
        forall|k: Seq<char>| #[trigger]
            old(counts)@.contains_key(k) ==> old(counts)@[k] <= bound,
        bound < usize::MAX,
    ensures
        tally_view(final(counts)@) == tallied(tally_view(old(counts)@), key@),
        forall|k: Seq<char>| #[trigger]
            final(counts)@.contains_key(k) ==> final(counts)@[k] <= bound + 1,
{
    let n: usize = match counts.get(key) {
        Some(n) => *n,
        None => 0,
    };
    let ghost before = counts@;
    counts.insert(key.to_owned(), n + 1);
    assert(tally_view(counts@) =~= tallied(tally_view(before), key@));
}

fn counts_json(counts: &TextMap<usize>) -> (r: Json)
    ensures
        r@ == counts_object(tally_view(counts@)),
{
    let n: usize = counts.len();
    let mut o = Json::object();
    let mut i: usize = 0;
    proof {
        crate::text_map::ascending_keys_are_distinct(counts.keys());
    }
    while i < n
        invariant
            i <= n == counts.keys().len() == counts.values().len(),
            forall|j: int|
                0 <= j < n ==> counts@.contains_key(#[trigger] counts.keys()[j])
                    && counts@[counts.keys()[j]] == counts.values()[j],
            o@ is Object,
            forall|k: Seq<char>| #[trigger]
                o@->Object_0.contains_key(k) <==> counts.keys().take(i as int).contains(k),
            forall|k: Seq<char>| #[trigger]
                o@->Object_0.contains_key(k) ==> counts@.contains_key(k) && o@->Object_0[k]
                    == number(counts@[k] as nat),
        decreases n - i,
    {
        let ghost before = o@->Object_0;
        let ghost key = counts.keys()[i as int];
        o.set(counts.key_at(i).as_str(), Json::unsigned(*counts.value_at(i) as u64));
        proof {
            let short = counts.keys().take(i as int);
            let long = counts.keys().take(i as int + 1);
            assert(long =~= short.push(key));
            assert forall|k: Seq<char>| #[trigger] long.contains(k) <==> short.contains(k) || k
                == key by {
                if short.contains(k) {
                    let j = short.index_of(k);
                    assert(long[j] == k);
                }
                assert(long[i as int] == key);
                if long.contains(k) && k != key {
                    let j = long.index_of(k);
                    assert(short[j] == k);
                }
            }
        }
        i = i + 1;
    }
    proof {
        assert(counts.keys().take(n as int) =~= counts.keys());
        assert forall|k: Seq<char>| counts.keys().contains(k) <==> counts@.contains_key(k) by {}
        assert(o@->Object_0 =~= counts_object(tally_view(counts@))->Object_0);
    }
    o
}

impl FileNextActionsService {
    /// Recommends for a project without a runtime.
    pub fn new(refine_dir: &str) -> (r: Self)
        ensures
            r.refine_dir@ == refine_dir@,
            r.runtime_root is None,
    {
        FileNextActionsService { refine_dir: refine_dir.to_owned(), runtime_root: None }
    }

    /// Recommends for a project with a runtime.
    pub fn with_runtime_root(refine_dir: &str, runtime_root: &str) -> (r: Self)
        ensures
            r.refine_dir@ == refine_dir@,
            crate::text::maybe_view(r.runtime_root) == Some(runtime_root@),
    {
        FileNextActionsService {
            refine_dir: refine_dir.to_owned(),
            runtime_root: Some(runtime_root.to_owned()),
        }
    }

    /// The registry that tells the nodes and the active one: that of the
    /// runtime where there is one.
    pub fn node_registry_service(&self) -> (r: FileNodeRegistryService)
        ensures
            r.refine_dir@ == self.refine_dir@,
            crate::text::maybe_view(r.active_root) == crate::text::maybe_view(self.runtime_root),
    {
        match &self.runtime_root {
            Some(root) => FileNodeRegistryService::with_active_root(
                self.refine_dir.as_str(),
                root.as_str(),
            ),
            None => FileNodeRegistryService::new(self.refine_dir.as_str()),
        }
    }

    /// The number of active claims.
    pub fn active_claim_count(&self, claims: &RefineResult<usize>) -> (r: usize)
        ensures
            r == claims_of(self.runtime_root, *claims),
    {
        match (&self.runtime_root, claims) {
            (Some(_), Ok(n)) => *n,
            _ => 0,
        }
    }

    /// Recommends the next operations, given the project's nodes and goals,
    /// the active node and the active claims of its runtime.
    #[verifier::loop_isolation(false)]
    pub fn next_response(
        &self,
        nodes: &Vec<Node>,
        active_node: &RefineResult<String>,
        goals: &Vec<GoalSummaryProjection>,
        claims: &RefineResult<usize>,
    ) -> (r: Json)
        requires
            nodes@.len() < usize::MAX - 8,
        ensures
            r@ == response_for(
                nodes@,
                goals@,
                active_or_default(*active_node),
                claims_of(self.runtime_root, *claims),
            ),
    {
        let active_node_id = match active_node {
            Ok(id) => id.as_str(),
            Err(_) => "default",
        };
        let active_claims = self.active_claim_count(claims);
        let ghost stranded_p = |g: GoalSummaryProjection| is_stranded(g, active_node_id@);
        let ghost review_p = |g: GoalSummaryProjection| g.goal.status == GoalStatus::Review;
        let ghost open_p = |g: GoalSummaryProjection| is_open(g);
        let ghost part_p = |n: Node| takes_part(n);
        let ghost available_p = |n: Node| is_available(n);
        let mut status_counts: TextMap<usize> = TextMap::new();
        let mut open_counts: TextMap<usize> = TextMap::new();
        let mut stranded: usize = 0;
        let mut reviews: usize = 0;
        let mut open: usize = 0;
        let mut i: usize = 0;
        proof {
            assert(goals@.take(0) =~= Seq::<GoalSummaryProjection>::empty());
            assert(tally_view(status_counts@) =~= Map::<Seq<char>, nat>::empty());
            assert(tally_view(open_counts@) =~= Map::<Seq<char>, nat>::empty());
        }
        while i < goals.len()
            invariant
                i <= goals.len(),
                tally_view(status_counts@) == goals_by_status(goals@.take(i as int)),
                tally_view(open_counts@) == open_by_node(goals@.take(i as int)),
                stranded == count_of(goals@.take(i as int), stranded_p),
                reviews == count_of(goals@.take(i as int), review_p),
                open == count_of(goals@.take(i as int), open_p),
                stranded <= i,
                reviews <= i,
                open <= i,
                forall|k: Seq<char>| #[trigger]
                    status_counts@.contains_key(k) ==> status_counts@[k] <= i,
                forall|k: Seq<char>| #[trigger]
                    open_counts@.contains_key(k) ==> open_counts@[k] <= i,
            decreases goals.len() - i,
        {
            let goal = &goals[i];
            proof {
                assert(goals@.take(i as int + 1).drop_last() =~= goals@.take(i as int));
                assert(goals@.take(i as int + 1).last() == *goal);
            }
            let status = goal.goal.status;
            tally(&mut status_counts, status.as_str(), i);
            let owner = match &goal.goal.node_id {
                Some(n) => n.as_str(),
                None => "default",
            };
            if status == GoalStatus::Backlog || status == GoalStatus::Todo {
                tally(&mut open_counts, owner, i);
                open = open + 1;
            }
            if status == GoalStatus::Review {
                reviews = reviews + 1;
                if !text_eq(owner, active_node_id) {
                    stranded = stranded + 1;
                }
            }
            i = i + 1;
        }
        assert(goals@.take(goals.len() as int) =~= goals@);
        let mut suggestions: Vec<Json> = Vec::new();
        assert(crate::json::json_views(suggestions@) =~= Seq::<crate::json::JsonView>::empty());
        if goals.len() == 0 {
            suggest(
                &mut suggestions,
                "capture-first-goal",
                "No work is tracked yet. Capture the first goal between what the app does and what it should do.",
                "refine goal create \"<what should change>\"",
            );
        }
        let ghost first = crate::json::json_views(suggestions@);
        let mut enabled: usize = 0;
        let mut available: usize = 0;
        let mut k: usize = 0;
        assert(nodes@.take(0) =~= Seq::<Node>::empty());
        while k < nodes.len()
            invariant
                k <= nodes.len(),
                suggestions@.len() <= k + 1,
                crate::json::json_views(suggestions@) == with_failed_nodes(
                    first,
                    nodes@.take(k as int),
                ),
                enabled == count_of(nodes@.take(k as int), part_p),
                available == count_of(nodes@.take(k as int), available_p),
                enabled <= k,
                available <= k,
            decreases nodes.len() - k,
        {
            let node = &nodes[k];
            proof {
                assert(nodes@.take(k as int + 1).drop_last() =~= nodes@.take(k as int));
                assert(nodes@.take(k as int + 1).last() == *node);
            }
            if node.enabled && !node.archived {
                enabled = enabled + 1;
                let (failed, gone) = match &node.health {
                    Some(h) => (
                        text_eq(h.as_str(), "failed"),
                        text_eq(h.as_str(), "deprovisioned"),
                    ),
                    None => (false, false),
                };
                if failed {
                    let reason = cat3(
                        "Node ",
                        node.id.as_str(),
                        " last reported failed health; inspect before sending work to it.",
                    );
                    let command = cat2("refine cluster show ", node.id.as_str());
                    suggest(
                        &mut suggestions,
                        "inspect-failed-node",
                        reason.as_str(),
                        command.as_str(),
                    );
                }
                if !failed && !gone {
                    available = available + 1;
                }
            }
            k = k + 1;
        }
        assert(nodes@.take(nodes.len() as int) =~= nodes@);
        if stranded > 0 {
            let n = decimal_text(stranded as u128);
            let reason = cat2(
                n.as_str(),
                " reviewable goal(s) sit on other nodes; converge them to this node for review.",
            );
            let command = cat2("refine cluster distribute --converge --to ", active_node_id);
            suggest(
                &mut suggestions,
                "converge-reviewables",
                reason.as_str(),
                command.as_str(),
            );
        }
        let owners = open_counts.len();
        proof {
            assert(tally_view(open_counts@).dom() =~= open_counts@.dom());
        }
        if available > 1 && open > 0 && owners == 1 {
            let n = decimal_text(open as u128);
            let m = decimal_text(available as u128);
            let mut reason = cat3(
                n.as_str(),
                " open goal(s) all sit on one node while ",
                m.as_str(),
            );
            reason.append(" nodes are available.");
            suggest(
                &mut suggestions,
                "distribute-work",
                reason.as_str(),
                "refine cluster distribute --dry-run",
            );
        }
        if stranded < reviews {
            let n = decimal_text(reviews as u128);
            let reason = cat2(n.as_str(), " goal(s) are waiting on human review.");
            suggest(&mut suggestions, "review-work", reason.as_str(), "refine goal list");
        }
        if suggestions.len() == 0 {
            suggest(
                &mut suggestions,
                "all-quiet",
                "Nothing needs attention: work and fleet are in steady state.",
                "refine system status",
            );
        }
        let mut state = Json::object();
        state.set("goals_by_status", counts_json(&status_counts));
        state.set("open_goals_by_node", counts_json(&open_counts));
        state.set("nodes_enabled", Json::unsigned(enabled as u64));
        state.set("nodes_healthy", Json::unsigned(available as u64));
        state.set("active_claims", Json::unsigned(active_claims as u64));
        let mut o = Json::object();
        o.set("ok", Json::boolean(true));
        o.set("active_node_id", Json::text(active_node_id));
        o.set("state", state);
        o.set("suggestions", Json::array(suggestions));
        o
    }
}

/// There is always a recommendation, ranked from one upwards.
pub proof fn recommendations_are_ranked(
    nodes: Seq<Node>,
    goals: Seq<GoalSummaryProjection>,
    active: Seq<char>,
)
    ensures
        suggestions_for(nodes, goals, active).len() > 0,
        forall|i: int|
            0 <= i < suggestions_for(nodes, goals, active).len() ==> crate::json::field(
                #[trigger] suggestions_for(nodes, goals, active)[i],
                "priority"@,
            ) == Some(number((i + 1) as nat)),
{
    distinct_keys();
    failed_nodes_are_ranked(with_first_goal(Seq::empty(), goals), nodes);
}

spec fn ranked(list: Seq<crate::json::JsonView>) -> bool {
    forall|i: int|
        0 <= i < list.len() ==> crate::json::field(#[trigger] list[i], "priority"@) == Some(
            number((i + 1) as nat),
        )
}

proof fn distinct_keys()
    ensures
        "priority"@ != "id"@,
        "priority"@ != "reason"@,
        "priority"@ != "command"@,
{
    reveal_strlit("priority");
    reveal_strlit("id");
    reveal_strlit("reason");
    reveal_strlit("command");
    assert("priority"@.len() != "id"@.len());
    assert("priority"@.len() != "reason"@.len());
    assert("priority"@.len() != "command"@.len());
}

proof fn failed_nodes_are_ranked(list: Seq<crate::json::JsonView>, nodes: Seq<Node>)
    requires
        ranked(list),
    ensures
        ranked(with_failed_nodes(list, nodes)),
    decreases nodes.len(),
{
    distinct_keys();
    if nodes.len() > 0 {
        failed_nodes_are_ranked(list, nodes.drop_last());
    }
}

} // verus!

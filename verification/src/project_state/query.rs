//! The queries that the projection answers.
use vstd::prelude::*;

use crate::model::{
    ActivityEntry, ActivitySummaryProjection, ChangeSummaryProjection,
    FeatureRollup, FeatureSummaryProjection, GoalIndexProjection, GoalStatus,
    GoalSummaryProjection, ProjectionSnapshot, StatusCounts,
};
use crate::paths::join_path;
use crate::project_state::ordering::{
    activity_sort_key, change_sort_key, feature_sort_key, goal_sort_key, page_bounds,
    sort_positions, SortKey,
};
use crate::text::{
    cat2, contains_text, decimal_text, is_blank, list_contains, lowercase, text_eq, trim,
};
use crate::text_map::TextMap;

verus! {

/// How rows are ordered and which of them are asked for.
#[derive(Debug)]
pub struct PageRequest {
    pub sort: String,
    pub dir: String,
    pub offset: usize,
    pub limit: usize,
}

/// Which part of the dashboard is asked for.
#[derive(Debug)]
pub struct DashboardProjectionQuery {
    pub node: Option<String>,
    pub current_node_id: Option<String>,
}

/// Which goals are asked for.
#[derive(Debug)]
pub struct GoalProjectionQuery {
    pub status: Option<GoalStatus>,
    pub reporter: Option<String>,
    pub assignee: Option<String>,
    pub node: Option<String>,
    pub current_node_id: Option<String>,
    pub feature: Option<String>,
    pub rounds_gte: Option<usize>,
    pub rounds_lte: Option<usize>,
    pub severity: Option<String>,
    pub category: Option<String>,
    pub actor: Option<String>,
    pub q: Option<String>,
    pub page: PageRequest,
}

/// Which features are asked for.
#[derive(Debug)]
pub struct FeatureProjectionQuery {
    pub status: Option<GoalStatus>,
    pub reporter: Option<String>,
    pub assignee: Option<String>,
    pub node: Option<String>,
    pub current_node_id: Option<String>,
    pub q: Option<String>,
    pub page: PageRequest,
}

/// Which activity is asked for.
#[derive(Debug)]
pub struct ActivityProjectionQuery {
    pub goal_id: Option<String>,
    pub severity: Option<String>,
    pub category: Option<String>,
    pub actor: Option<String>,
    pub q: Option<String>,
    pub page: PageRequest,
}

/// Which changes are asked for.
#[derive(Debug)]
pub struct ChangeProjectionQuery {
    pub goal_id: Option<String>,
    pub status: Option<GoalStatus>,
    pub priority: Option<String>,
    pub branch: Option<String>,
    pub q: Option<String>,
    pub page: PageRequest,
}

/// The dashboard of one node or of all.
pub struct DashboardProjectionSummary {
    pub node_filter: String,
    pub current_node_id: String,
    pub counts: StatusCounts,
    pub all_node_counts: StatusCounts,
    pub reporter_stats: TextMap<StatusCounts>,
    pub assignee_stats: TextMap<StatusCounts>,
    pub attention_indicators: Vec<String>,
    pub recent_activity_ids: Vec<String>,
}

/// A page of goals and what holds of all goals that match.
pub struct GoalProjectionList {
    pub goals: Vec<GoalIndexProjection>,
    pub total: usize,
    pub filtered_status_counts: StatusCounts,
    pub matching_ids: Vec<String>,
}

/// A page of features and what holds of all features that match.
pub struct FeatureProjectionList {
    pub features: Vec<FeatureSummaryProjection>,
    pub total: usize,
    pub matching_ids: Vec<String>,
}

/// The values that occur in the activity.
pub struct ActivityProjectionFacets {
    pub categories: Vec<String>,
    pub severities: Vec<String>,
    pub actors: Vec<String>,
}

/// A page of activity and what holds of all activity that matches.
pub struct ActivityProjectionList {
    pub activity: Vec<ActivityEntry>,
    pub total: usize,
    pub matching_ids: Vec<String>,
    pub facets: ActivityProjectionFacets,
}

/// A page of changes and what holds of all changes that match.
pub struct ChangeProjectionList {
    pub changes: Vec<ChangeSummaryProjection>,
    pub total: usize,
    pub matching_ids: Vec<String>,
}

/// What a filter asks for; a blank filter asks for nothing.
pub open spec fn asked(filter: Option<String>) -> Option<Seq<char>> {
    match filter {
        Some(v) => if crate::text::blank(v@) { None } else { Some(v@) },
        None => None,
    }
}

/// A value passes a filter.
pub open spec fn passes(filter: Option<String>, value: Option<Seq<char>>) -> bool {
    match asked(filter) {
        Some(v) => value == Some(v),
        None => true,
    }
}

/// What an activity filter of a goal query asks for; an empty one asks for
/// nothing.
pub open spec fn asked_verbatim(filter: Option<String>) -> Option<Seq<char>> {
    match filter {
        Some(v) => if v@.len() == 0 { None } else { Some(v@) },
        None => None,
    }
}

/// A value passes an activity filter of a goal query.
pub open spec fn passes_verbatim(filter: Option<String>, value: Option<Seq<char>>) -> bool {
    match asked_verbatim(filter) {
        Some(v) => value == Some(v),
        None => true,
    }
}

/// A status passes a filter.
pub open spec fn status_passes(filter: Option<GoalStatus>, status: Option<GoalStatus>) -> bool {
    match filter {
        Some(s) => status == Some(s),
        None => true,
    }
}

/// A record of an owner belongs to the asked node.
pub open spec fn node_matches(
    owner: Option<Seq<char>>,
    node: Seq<char>,
    current: Option<Seq<char>>,
) -> bool {
    if node == "all"@ {
        true
    } else if node == "current"@ {
        owner_or_default(owner) == owner_or_default(current)
    } else if node == "unknown"@ {
        owner is None
    } else {
        owner == Some(node)
    }
}

/// An absent node stands for the default one.
pub open spec fn owner_or_default(owner: Option<Seq<char>>) -> Seq<char> {
    match owner {
        Some(o) => o,
        None => "default"@,
    }
}

/// A record of an owner passes a node filter.
pub open spec fn node_passes(
    filter: Option<String>,
    owner: Option<Seq<char>>,
    current: Option<String>,
) -> bool {
    match asked(filter) {
        Some(node) => node_matches(owner, node, crate::text::maybe_view(current)),
        None => true,
    }
}

/// A goal's feature passes a filter; three words ask for goals without one.
pub open spec fn feature_passes(filter: Option<String>, feature_id: Option<Seq<char>>) -> bool {
    match asked(filter) {
        Some(f) => if f == "standalone"@ || f == "__standalone"@ || f == "none"@ {
            feature_id is None
        } else {
            feature_id == Some(f)
        },
        None => true,
    }
}

/// A text that may be absent, as a list of texts.
pub open spec fn present(text: Option<String>) -> Seq<Seq<char>> {
    match text {
        Some(t) => seq![t@],
        None => Seq::empty(),
    }
}

/// Texts in lower case.
pub open spec fn lowered(texts: Seq<Seq<char>>) -> Seq<Seq<char>> {
    texts.map_values(|t: Seq<char>| crate::text::lowercased(t))
}

/// The lowercased text that a search filter asks for.
pub open spec fn search_of(filter: Option<String>) -> Option<Seq<char>> {
    match asked(filter) {
        Some(q) => Some(crate::text::lowercased(q)),
        None => None,
    }
}

/// Some text holds a query.
pub open spec fn some_text_holds(texts: Seq<Seq<char>>, query: Seq<char>) -> bool {
    exists|i: int| 0 <= i < texts.len() && crate::text::contains_part(#[trigger] texts[i], query)
}

/// The texts of a goal in which a search looks.
pub open spec fn goal_texts(projection: GoalSummaryProjection) -> Seq<Seq<char>> {
    seq![projection.goal.id@, projection.goal.name@] + present(projection.goal.reporter) + present(
        projection.goal.assignee,
    ) + seq![projection.searchable_text@]
}

/// The texts of a feature in which a search looks.
pub open spec fn feature_texts(projection: FeatureSummaryProjection) -> Seq<Seq<char>> {
    seq![projection.feature.id@, projection.feature.name@] + present(projection.feature.description)
        + present(projection.feature.reporter) + present(projection.feature.assignee)
}

/// The texts of an activity entry in which a search looks.
pub open spec fn activity_texts(projection: ActivitySummaryProjection) -> Seq<Seq<char>> {
    seq![projection.searchable_text@, projection.entry.id@, projection.entry.message@]
}

/// What is known of the goals' records where their resident text does not
/// settle a search.
#[derive(Debug)]
pub struct RecordSearch {
    /// The goals whose text is resident only in part.
    pub incomplete: Vec<String>,
    /// The goals whose record holds the text that is asked for.
    pub matching: Vec<String>,
}

/// The record of a goal answers a search: its text is resident only in part,
/// and the record holds what is asked for.
pub open spec fn record_answers(records: RecordSearch, id: Seq<char>) -> bool {
    crate::text::views(records.incomplete@).contains(id) && crate::text::views(
        records.matching@,
    ).contains(id)
}

/// An activity entry passes the activity filters of a goal query.
pub open spec fn entry_passes(entry: ActivityEntry, query: GoalProjectionQuery) -> bool {
    passes_verbatim(query.severity, Some(entry.severity@)) && passes_verbatim(
        query.category,
        Some(entry.category@),
    ) && passes_verbatim(query.actor, crate::text::maybe_view(entry.actor))
}

/// A goal query asks for activity.
pub open spec fn wants_activity(query: GoalProjectionQuery) -> bool {
    asked_verbatim(query.severity) is Some || asked_verbatim(query.category) is Some
        || asked_verbatim(query.actor) is Some
}

/// Some activity of a goal passes the activity filters.
pub open spec fn goal_activity_matches(
    activity: Map<Seq<char>, ActivitySummaryProjection>,
    ids: Seq<String>,
    query: GoalProjectionQuery,
) -> bool {
    !wants_activity(query) || exists|i: int|
        0 <= i < ids.len() && activity.contains_key((#[trigger] ids[i])@) && entry_passes(
            activity[ids[i]@].entry,
            query,
        )
}

/// A goal matches a query whose search text is `search`, where a search looks
/// in `texts`: by what is resident, or, where that is not the whole text, by
/// the goal's record.
pub open spec fn goal_found_in(
    activity: Map<Seq<char>, ActivitySummaryProjection>,
    projection: GoalSummaryProjection,
    query: GoalProjectionQuery,
    search: Option<Seq<char>>,
    texts: Seq<Seq<char>>,
    records: RecordSearch,
) -> bool {
    let goal = projection.goal;
    &&& status_passes(query.status, Some(goal.status))
    &&& passes(query.reporter, crate::text::maybe_view(goal.reporter))
    &&& passes(query.assignee, crate::text::maybe_view(goal.assignee))
    &&& node_passes(query.node, crate::text::maybe_view(goal.node_id), query.current_node_id)
    &&& feature_passes(query.feature, crate::text::maybe_view(goal.feature_id))
    &&& (query.rounds_gte matches Some(n) ==> goal.round_count >= n)
    &&& (query.rounds_lte matches Some(n) ==> goal.round_count <= n)
    &&& goal_activity_matches(activity, projection.activity_ids@, query)
    &&& (search matches Some(q) ==> some_text_holds(texts, q) || record_answers(records, goal.id@))
}

/// A goal matches a query; a search ignores case.
pub open spec fn goal_found(
    activity: Map<Seq<char>, ActivitySummaryProjection>,
    projection: GoalSummaryProjection,
    query: GoalProjectionQuery,
    records: RecordSearch,
) -> bool {
    goal_found_in(
        activity,
        projection,
        query,
        search_of(query.q),
        lowered(goal_texts(projection)),
        records,
    )
}

/// A feature matches a query whose search text is `search`, where a search
/// looks in `texts`.
pub open spec fn feature_found_in(
    projection: FeatureSummaryProjection,
    query: FeatureProjectionQuery,
    search: Option<Seq<char>>,
    texts: Seq<Seq<char>>,
) -> bool {
    let feature = projection.feature;
    &&& status_passes(query.status, Some(projection.status))
    &&& passes(query.reporter, crate::text::maybe_view(feature.reporter))
    &&& passes(query.assignee, crate::text::maybe_view(feature.assignee))
    &&& node_passes(query.node, crate::text::maybe_view(feature.node_id), query.current_node_id)
    &&& (search matches Some(q) ==> some_text_holds(texts, q))
}

/// A feature matches a query; a search ignores case.
pub open spec fn feature_found(
    projection: FeatureSummaryProjection,
    query: FeatureProjectionQuery,
) -> bool {
    feature_found_in(projection, query, search_of(query.q), lowered(feature_texts(projection)))
}

/// An activity entry matches a query whose search text is `search`, where a
/// search looks in `texts`.
pub open spec fn activity_found_in(
    projection: ActivitySummaryProjection,
    query: ActivityProjectionQuery,
    search: Option<Seq<char>>,
    texts: Seq<Seq<char>>,
) -> bool {
    let entry = projection.entry;
    &&& passes(query.goal_id, crate::text::maybe_view(entry.goal_id))
    &&& passes(query.severity, Some(entry.severity@))
    &&& passes(query.category, Some(entry.category@))
    &&& passes(query.actor, crate::text::maybe_view(entry.actor))
    &&& (search matches Some(q) ==> some_text_holds(texts, q))
}

/// An activity entry matches a query; a search ignores case.
pub open spec fn activity_found(
    projection: ActivitySummaryProjection,
    query: ActivityProjectionQuery,
) -> bool {
    activity_found_in(projection, query, search_of(query.q), lowered(activity_texts(projection)))
}

/// A change matches a query whose search text is `search`, where a search
/// looks in `texts`.
pub open spec fn change_found_in(
    projection: ChangeSummaryProjection,
    query: ChangeProjectionQuery,
    search: Option<Seq<char>>,
    texts: Seq<Seq<char>>,
) -> bool {
    &&& passes(query.goal_id, crate::text::maybe_view(projection.goal_id))
    &&& status_passes(query.status, projection.goal_status)
    &&& passes(query.priority, crate::text::maybe_view(projection.goal_priority))
    &&& passes(query.branch, crate::text::maybe_view(projection.branch))
    &&& (search matches Some(q) ==> some_text_holds(texts, q))
}

/// A change matches a query; a search ignores case.
pub open spec fn change_found(
    projection: ChangeSummaryProjection,
    query: ChangeProjectionQuery,
) -> bool {
    change_found_in(
        projection,
        query,
        search_of(query.q),
        lowered(seq![projection.searchable_text@]),
    )
}

/// Tells which goals match a query.
pub open spec fn goal_filter(
    snapshot: ProjectionSnapshot,
    query: GoalProjectionQuery,
    records: RecordSearch,
) -> spec_fn(GoalSummaryProjection) -> bool {
    |p: GoalSummaryProjection| goal_found(snapshot.activity@, p, query, records)
}

/// The order of goals under a sort word.
pub open spec fn goal_order(sort: Seq<char>) -> spec_fn(
    GoalIndexProjection,
) -> crate::project_state::ordering::SortKeyView {
    |g: GoalIndexProjection| crate::project_state::ordering::goal_key(g, sort)
}

/// The goals that match a query, in the order of their ids.
pub open spec fn found_goals(
    snapshot: ProjectionSnapshot,
    query: GoalProjectionQuery,
    records: RecordSearch,
) -> Seq<GoalIndexProjection> {
    goals_of(snapshot.goals.values().filter(goal_filter(snapshot, query, records)))
}

/// The goals of summaries.
pub open spec fn goals_of(projections: Seq<GoalSummaryProjection>) -> Seq<GoalIndexProjection> {
    projections.map_values(|p: GoalSummaryProjection| p.goal)
}

/// The goals that match a query, in the asked order.
pub open spec fn listed_goals(
    snapshot: ProjectionSnapshot,
    query: GoalProjectionQuery,
    records: RecordSearch,
) -> Seq<GoalIndexProjection> {
    let rows = found_goals(snapshot, query, records);
    sorted_goals(rows, query.page.sort@, query.page.dir@)
}

/// The statuses of goals.
pub open spec fn statuses_of(goals: Seq<GoalIndexProjection>) -> Seq<GoalStatus> {
    goals.map_values(|g: GoalIndexProjection| g.status)
}

/// The ids of goals.
pub open spec fn ids_of(goals: Seq<GoalIndexProjection>) -> Seq<Seq<char>> {
    goals.map_values(|g: GoalIndexProjection| g.id@)
}

/// Tells which features match a query.
pub open spec fn feature_filter(query: FeatureProjectionQuery) -> spec_fn(
    FeatureSummaryProjection,
) -> bool {
    |p: FeatureSummaryProjection| feature_found(p, query)
}

/// The order of features under a sort word.
pub open spec fn feature_order(sort: Seq<char>) -> spec_fn(
    crate::model::FeatureSummaryView,
) -> crate::project_state::ordering::SortKeyView {
    |f: crate::model::FeatureSummaryView| crate::project_state::ordering::feature_key(f, sort)
}

/// Feature summaries by their contents.
pub open spec fn feature_views(features: Seq<FeatureSummaryProjection>) -> Seq<
    crate::model::FeatureSummaryView,
> {
    features.map_values(|p: FeatureSummaryProjection| p@)
}

/// The features that match a query, in the order of their ids.
pub open spec fn found_features(
    snapshot: ProjectionSnapshot,
    query: FeatureProjectionQuery,
) -> Seq<crate::model::FeatureSummaryView> {
    feature_views(snapshot.features.values().filter(feature_filter(query)))
}

/// The features that match a query, in the asked order.
pub open spec fn listed_features(
    snapshot: ProjectionSnapshot,
    query: FeatureProjectionQuery,
) -> Seq<crate::model::FeatureSummaryView> {
    let rows = found_features(snapshot, query);
    sorted_features(rows, query.page.sort@, query.page.dir@)
}

/// Tells which activity matches a query.
pub open spec fn activity_filter(query: ActivityProjectionQuery) -> spec_fn(
    ActivitySummaryProjection,
) -> bool {
    |p: ActivitySummaryProjection| activity_found(p, query)
}

/// The order of activity under a sort word.
pub open spec fn activity_order(sort: Seq<char>) -> spec_fn(
    ActivitySummaryProjection,
) -> crate::project_state::ordering::SortKeyView {
    |a: ActivitySummaryProjection| crate::project_state::ordering::activity_key(a, sort)
}

/// The activity that matches a query, in the asked order.
pub open spec fn listed_activity(
    snapshot: ProjectionSnapshot,
    query: ActivityProjectionQuery,
) -> Seq<ActivitySummaryProjection> {
    let rows = snapshot.activity.values().filter(activity_filter(query));
    sorted_activity(rows, query.page.sort@, query.page.dir@)
}

/// The changes with the keys under which the projection holds them.
pub open spec fn keyed_changes(changes: TextMap<ChangeSummaryProjection>) -> Seq<
    (Seq<char>, ChangeSummaryProjection),
> {
    Seq::new(changes.keys().len(), |i: int| (changes.keys()[i], changes.values()[i]))
}

/// Tells which changes match a query.
pub open spec fn change_filter(query: ChangeProjectionQuery) -> spec_fn(
    (Seq<char>, ChangeSummaryProjection),
) -> bool {
    |p: (Seq<char>, ChangeSummaryProjection)| change_found(p.1, query)
}

/// The order of changes under a sort word.
pub open spec fn change_order(sort: Seq<char>) -> spec_fn(
    (Seq<char>, ChangeSummaryProjection),
) -> crate::project_state::ordering::SortKeyView {
    |p: (Seq<char>, ChangeSummaryProjection)| crate::project_state::ordering::change_key(p.1, sort)
}

/// The changes that match a query with their keys, in the asked order.
pub open spec fn listed_changes(
    snapshot: ProjectionSnapshot,
    query: ChangeProjectionQuery,
) -> Seq<(Seq<char>, ChangeSummaryProjection)> {
    let rows = keyed_changes(snapshot.changes).filter(change_filter(query));
    sorted_changes(rows, query.page.sort@, query.page.dir@)
}

/// Which nodes a dashboard covers.
pub open spec fn dashboard_scope(node: Option<String>) -> Seq<char> {
    if crate::text::maybe_view(node) == Some("all"@) {
        "all"@
    } else {
        "current"@
    }
}

/// The node that a dashboard counts as the current one.
pub open spec fn dashboard_node(current: Option<String>) -> Seq<char> {
    match current {
        Some(c) => if crate::text::blank(c@) { "default"@ } else { crate::text::trimmed(c@) },
        None => "default"@,
    }
}

/// Tells which goals a dashboard covers.
pub open spec fn scope_filter(scope: Seq<char>, node: Seq<char>) -> spec_fn(
    GoalSummaryProjection,
) -> bool {
    |p: GoalSummaryProjection|
        node_matches(crate::text::maybe_view(p.goal.node_id), scope, Some(node))
}

/// A name, or a word that stands for an absent or empty one.
pub open spec fn name_or(name: Option<String>, other: Seq<char>) -> Seq<char> {
    match name {
        Some(n) => if n@.len() == 0 { other } else { n@ },
        None => other,
    }
}

/// The reporters of goals.
pub open spec fn reporters_of(goals: Seq<GoalIndexProjection>) -> Seq<Seq<char>> {
    goals.map_values(|g: GoalIndexProjection| name_or(g.reporter, "unknown"@))
}

/// The assignees of goals.
pub open spec fn assignees_of(goals: Seq<GoalIndexProjection>) -> Seq<Seq<char>> {
    goals.map_values(|g: GoalIndexProjection| name_or(g.assignee, "unassigned"@))
}

/// The statuses that stand beside a name.
pub open spec fn statuses_under(
    names: Seq<Seq<char>>,
    statuses: Seq<GoalStatus>,
    name: Seq<char>,
) -> Seq<GoalStatus>
    decreases names.len(),
{
    if names.len() == 0 {
        Seq::empty()
    } else {
        let before = statuses_under(names.drop_last(), statuses, name);
        if names.last() == name {
            before.push(statuses[names.len() - 1])
        } else {
            before
        }
    }
}

/// Every name that occurs has the counts of the statuses beside it.
pub open spec fn stats_are(
    names: Seq<Seq<char>>,
    statuses: Seq<GoalStatus>,
    stats: Map<Seq<char>, StatusCounts>,
) -> bool {
    &&& forall|k: Seq<char>| #[trigger] stats.contains_key(k) <==> names.contains(k)
    &&& forall|k: Seq<char>, s: GoalStatus|
        stats.contains_key(k) ==> #[trigger] stats[k].count(s) == crate::model::occurrences(
            statuses_under(names, statuses, k),
            s,
        )
}

/// Tells which recent activity a dashboard shows: that of covered goals, and
/// the rest only where every node is covered.
pub open spec fn recent_filter(
    snapshot: ProjectionSnapshot,
    scope: Seq<char>,
    node: Seq<char>,
) -> spec_fn(String) -> bool {
    |id: String| recent_in_scope(snapshot, scope, node, id)
}

/// One recent activity entry is shown.
pub open spec fn recent_in_scope(
    snapshot: ProjectionSnapshot,
    scope: Seq<char>,
    node: Seq<char>,
    id: String,
) -> bool {
    if snapshot.activity@.contains_key(id@) {
        match snapshot.activity@[id@].entry.goal_id {
            Some(goal_id) => if snapshot.goals@.contains_key(goal_id@) {
                node_matches(
                    crate::text::maybe_view(snapshot.goals@[goal_id@].goal.node_id),
                    scope,
                    Some(node),
                )
            } else {
                scope == "all"@
            },
            None => scope == "all"@,
        }
    } else {
        scope == "all"@
    }
}

/// The ids of the goals in a status, in order.
pub open spec fn ids_in_status(
    keys: Seq<Seq<char>>,
    values: Seq<GoalSummaryProjection>,
    status: GoalStatus,
) -> Seq<Seq<char>>
    decreases keys.len(),
{
    if keys.len() == 0 {
        Seq::empty()
    } else {
        let before = ids_in_status(keys.drop_last(), values, status);
        if values[keys.len() - 1].goal.status == status {
            before.push(keys.last())
        } else {
            before
        }
    }
}

/// The texts that occur and are not empty, each once and in order.
pub open spec fn facet_of(texts: Seq<Seq<char>>, facet: Seq<Seq<char>>) -> bool {
    &&& crate::text_map::ascending(facet)
    &&& forall|t: Seq<char>| #[trigger] facet.contains(t) <==> t.len() > 0 && texts.contains(t)
}

/// The actors of activity; an absent one is empty.
pub open spec fn actors_of(activity: Seq<ActivitySummaryProjection>) -> Seq<Seq<char>> {
    activity.map_values(|p: ActivitySummaryProjection| name_or(p.entry.actor, Seq::empty()))
}

/// The categories of activity.
pub open spec fn categories_of(activity: Seq<ActivitySummaryProjection>) -> Seq<Seq<char>> {
    activity.map_values(|p: ActivitySummaryProjection| p.entry.category@)
}

/// The severities of activity.
pub open spec fn severities_of(activity: Seq<ActivitySummaryProjection>) -> Seq<Seq<char>> {
    activity.map_values(|p: ActivitySummaryProjection| p.entry.severity@)
}

fn filter_text<'a>(filter: &'a Option<String>) -> (r: Option<&'a str>)
    ensures
        match r {
            Some(v) => asked(*filter) == Some(v@),
            None => asked(*filter) is None,
        },
{
    match filter {
        Some(v) => if is_blank(v.as_str()) {
            None
        } else {
            Some(v.as_str())
        },
        None => None,
    }
}

fn maybe_is(value: &Option<String>, text: &str) -> (r: bool)
    ensures
        r == (crate::text::maybe_view(*value) == Some(text@)),
{
    match value {
        Some(v) => text_eq(v.as_str(), text),
        None => false,
    }
}

fn filter_passes(filter: &Option<String>, value: &Option<String>) -> (r: bool)
    ensures
        r == passes(*filter, crate::text::maybe_view(*value)),
{
    match filter_text(filter) {
        Some(v) => maybe_is(value, v),
        None => true,
    }
}

fn filter_passes_text(filter: &Option<String>, value: &str) -> (r: bool)
    ensures
        r == passes(*filter, Some(value@)),
{
    match filter_text(filter) {
        Some(v) => text_eq(value, v),
        None => true,
    }
}

fn verbatim_text<'a>(filter: &'a Option<String>) -> (r: Option<&'a str>)
    ensures
        match r {
            Some(v) => asked_verbatim(*filter) == Some(v@),
            None => asked_verbatim(*filter) is None,
        },
{
    match filter {
        Some(v) => if v.as_str().is_empty() {
            None
        } else {
            Some(v.as_str())
        },
        None => None,
    }
}

fn matches_node(owner: &Option<String>, node: &str, current: Option<&str>) -> (r: bool)
    ensures
        r == node_matches(
            crate::text::maybe_view(*owner),
            node@,
            crate::text::borrowed_view(current),
        ),
{
    if text_eq(node, "all") {
        true
    } else if text_eq(node, "current") {
        let a = match owner {
            Some(o) => o.as_str(),
            None => "default",
        };
        let b = match current {
            Some(c) => c,
            None => "default",
        };
        text_eq(a, b)
    } else if text_eq(node, "unknown") {
        owner.is_none()
    } else {
        maybe_is(owner, node)
    }
}

fn matches_node_filter(
    filter: &Option<String>,
    owner: &Option<String>,
    current: &Option<String>,
) -> (r: bool)
    ensures
        r == node_passes(*filter, crate::text::maybe_view(*owner), *current),
{
    match filter_text(filter) {
        Some(node) => {
            let current = match current {
                Some(c) => Some(c.as_str()),
                None => None,
            };
            matches_node(owner, node, current)
        },
        None => true,
    }
}

fn matches_feature_filter(filter: &Option<String>, feature_id: &Option<String>) -> (r: bool)
    ensures
        r == feature_passes(*filter, crate::text::maybe_view(*feature_id)),
{
    match filter_text(filter) {
        Some(f) => if text_eq(f, "standalone") || text_eq(f, "__standalone") || text_eq(f, "none") {
            feature_id.is_none()
        } else {
            maybe_is(feature_id, f)
        },
        None => true,
    }
}

/// Tells whether some of a list of texts holds a query.
pub fn any_text_holds(texts: &Vec<String>, query: &str) -> (r: bool)
    ensures
        r == some_text_holds(crate::text::views(texts@), query@),
{
    let ghost views = crate::text::views(texts@);
    let mut i: usize = 0;
    while i < texts.len()
        invariant
            i <= texts.len(),
            views == crate::text::views(texts@),
            forall|j: int|
                0 <= j < i ==> !crate::text::contains_part(#[trigger] views[j], query@),
        decreases texts.len() - i,
    {
        if contains_text(texts[i].as_str(), query) {
            assert(crate::text::contains_part(views[i as int], query@));
            return true;
        }
        i = i + 1;
    }
    false
}

fn push_lowered(texts: &mut Vec<String>, text: &str)
    ensures
        crate::text::views(final(texts)@) == crate::text::views(old(texts)@).push(
            crate::text::lowercased(text@),
        ),
{
    texts.push(lowercase(text));
    assert(crate::text::views(texts@) =~= crate::text::views(old(texts)@).push(
        crate::text::lowercased(text@),
    ));
}

fn push_lowered_if_present(texts: &mut Vec<String>, text: &Option<String>)
    ensures
        crate::text::views(final(texts)@) == crate::text::views(old(texts)@) + lowered(
            present(*text),
        ),
{
    match text {
        Some(t) => {
            push_lowered(texts, t.as_str());
            assert(lowered(present(*text)) =~= seq![crate::text::lowercased(t@)]);
        },
        None => {},
    }
    assert(crate::text::views(texts@) =~= crate::text::views(old(texts)@) + lowered(
        present(*text),
    ));
}

fn search_text(filter: &Option<String>) -> (r: Option<String>)
    ensures
        crate::text::maybe_view(r) == search_of(*filter),
{
    match filter_text(filter) {
        Some(q) => Some(lowercase(q)),
        None => None,
    }
}

fn lowered_goal_texts(projection: &GoalSummaryProjection) -> (r: Vec<String>)
    ensures
        crate::text::views(r@) == lowered(goal_texts(*projection)),
{
    let mut texts: Vec<String> = Vec::new();
    push_lowered(&mut texts, projection.goal.id.as_str());
    push_lowered(&mut texts, projection.goal.name.as_str());
    push_lowered_if_present(&mut texts, &projection.goal.reporter);
    push_lowered_if_present(&mut texts, &projection.goal.assignee);
    push_lowered(&mut texts, projection.searchable_text.as_str());
    assert(crate::text::views(texts@) =~= lowered(goal_texts(*projection)));
    texts
}

fn lowered_feature_texts(projection: &FeatureSummaryProjection) -> (r: Vec<String>)
    ensures
        crate::text::views(r@) == lowered(feature_texts(*projection)),
{
    let mut texts: Vec<String> = Vec::new();
    push_lowered(&mut texts, projection.feature.id.as_str());
    push_lowered(&mut texts, projection.feature.name.as_str());
    push_lowered_if_present(&mut texts, &projection.feature.description);
    push_lowered_if_present(&mut texts, &projection.feature.reporter);
    push_lowered_if_present(&mut texts, &projection.feature.assignee);
    assert(crate::text::views(texts@) =~= lowered(feature_texts(*projection)));
    texts
}

fn lowered_activity_texts(projection: &ActivitySummaryProjection) -> (r: Vec<String>)
    ensures
        crate::text::views(r@) == lowered(activity_texts(*projection)),
{
    let mut texts: Vec<String> = Vec::new();
    push_lowered(&mut texts, projection.searchable_text.as_str());
    push_lowered(&mut texts, projection.entry.id.as_str());
    push_lowered(&mut texts, projection.entry.message.as_str());
    assert(crate::text::views(texts@) =~= lowered(activity_texts(*projection)));
    texts
}

fn entry_matches(entry: &ActivityEntry, query: &GoalProjectionQuery) -> (r: bool)
    ensures
        r == entry_passes(*entry, *query),
{
    let severity = match verbatim_text(&query.severity) {
        Some(v) => text_eq(entry.severity.as_str(), v),
        None => true,
    };
    let category = match verbatim_text(&query.category) {
        Some(v) => text_eq(entry.category.as_str(), v),
        None => true,
    };
    let actor = match verbatim_text(&query.actor) {
        Some(v) => maybe_is(&entry.actor, v),
        None => true,
    };
    severity && category && actor
}

#[verifier::loop_isolation(false)]
fn activity_matches(
    activity: &TextMap<ActivitySummaryProjection>,
    ids: &Vec<String>,
    query: &GoalProjectionQuery,
) -> (r: bool)
    ensures
        r == goal_activity_matches(activity@, ids@, *query),
{
    let wanted = verbatim_text(&query.severity).is_some() || verbatim_text(
        &query.category,
    ).is_some() || verbatim_text(&query.actor).is_some();
    if !wanted {
        return true;
    }
    let mut i: usize = 0;
    while i < ids.len()
        invariant
            i <= ids.len(),
            forall|j: int|
                0 <= j < i && activity@.contains_key((#[trigger] ids@[j])@) ==> !entry_passes(
                    activity@[ids@[j]@].entry,
                    *query,
                ),
        decreases ids.len() - i,
    {
        match activity.get(ids[i].as_str()) {
            Some(found) => {
                if entry_matches(&found.entry, query) {
                    assert(activity@.contains_key(ids@[i as int]@));
                    return true;
                }
            },
            None => {},
        }
        i = i + 1;
    }
    false
}

/// Tells whether a goal matches a query whose lowercased search text is
/// `search`, where a search looks in the lowercased `texts`.
pub fn goal_matches_in(
    snapshot: &ProjectionSnapshot,
    projection: &GoalSummaryProjection,
    query: &GoalProjectionQuery,
    search: &Option<String>,
    texts: &Vec<String>,
    records: &RecordSearch,
) -> (r: bool)
    ensures
        r == goal_found_in(
            snapshot.activity@,
            *projection,
            *query,
            crate::text::maybe_view(*search),
            crate::text::views(texts@),
            *records,
        ),
{
    let goal = &projection.goal;
    if let Some(status) = query.status {
        if goal.status != status {
            return false;
        }
    }
    if !filter_passes(&query.reporter, &goal.reporter) {
        return false;
    }
    if !filter_passes(&query.assignee, &goal.assignee) {
        return false;
    }
    if !matches_node_filter(&query.node, &goal.node_id, &query.current_node_id) {
        return false;
    }
    if !matches_feature_filter(&query.feature, &goal.feature_id) {
        return false;
    }
    if let Some(minimum) = query.rounds_gte {
        if goal.round_count < minimum {
            return false;
        }
    }
    if let Some(maximum) = query.rounds_lte {
        if goal.round_count > maximum {
            return false;
        }
    }
    if !activity_matches(&snapshot.activity, &projection.activity_ids, query) {
        return false;
    }
    match search {
        Some(q) => any_text_holds(texts, q.as_str()) || (list_contains(
            &records.incomplete,
            goal.id.as_str(),
        ) && list_contains(&records.matching, goal.id.as_str())),
        None => true,
    }
}

/// Tells whether a goal matches a query.
pub fn goal_matches(
    snapshot: &ProjectionSnapshot,
    projection: &GoalSummaryProjection,
    query: &GoalProjectionQuery,
    records: &RecordSearch,
) -> (r: bool)
    ensures
        r == goal_found(
            snapshot.activity@,
            *projection,
            *query,
            *records,
        ),
{
    let search = search_text(&query.q);
    let texts = if search.is_some() {
        lowered_goal_texts(projection)
    } else {
        Vec::new()
    };
    goal_matches_in(snapshot, projection, query, &search, &texts, records)
}

/// Tells whether a feature matches a query whose lowercased search text is
/// `search`, where a search looks in the lowercased `texts`.
pub fn feature_matches_in(
    projection: &FeatureSummaryProjection,
    query: &FeatureProjectionQuery,
    search: &Option<String>,
    texts: &Vec<String>,
) -> (r: bool)
    ensures
        r == feature_found_in(
            *projection,
            *query,
            crate::text::maybe_view(*search),
            crate::text::views(texts@),
        ),
{
    let feature = &projection.feature;
    if let Some(status) = query.status {
        if projection.status != status {
            return false;
        }
    }
    if !filter_passes(&query.reporter, &feature.reporter) {
        return false;
    }
    if !filter_passes(&query.assignee, &feature.assignee) {
        return false;
    }
    if !matches_node_filter(&query.node, &feature.node_id, &query.current_node_id) {
        return false;
    }
    match search {
        Some(q) => any_text_holds(texts, q.as_str()),
        None => true,
    }
}

/// Tells whether a feature matches a query.
pub fn feature_matches(projection: &FeatureSummaryProjection, query: &FeatureProjectionQuery) -> (r: bool)
    ensures
        r == feature_found(*projection, *query),
{
    let search = search_text(&query.q);
    let texts = if search.is_some() {
        lowered_feature_texts(projection)
    } else {
        Vec::new()
    };
    feature_matches_in(projection, query, &search, &texts)
}

/// Tells whether an activity entry matches a query whose lowercased search text is
/// `search`, where a search looks in the lowercased `texts`.
pub fn activity_projection_matches_in(
    projection: &ActivitySummaryProjection,
    query: &ActivityProjectionQuery,
    search: &Option<String>,
    texts: &Vec<String>,
) -> (r: bool)
    ensures
        r == activity_found_in(
            *projection,
            *query,
            crate::text::maybe_view(*search),
            crate::text::views(texts@),
        ),
{
    let entry = &projection.entry;
    if !filter_passes(&query.goal_id, &entry.goal_id) {
        return false;
    }
    if !filter_passes_text(&query.severity, entry.severity.as_str()) {
        return false;
    }
    if !filter_passes_text(&query.category, entry.category.as_str()) {
        return false;
    }
    if !filter_passes(&query.actor, &entry.actor) {
        return false;
    }
    match search {
        Some(q) => any_text_holds(texts, q.as_str()),
        None => true,
    }
}

/// Tells whether an activity entry matches a query.
pub fn activity_projection_matches(projection: &ActivitySummaryProjection, query: &ActivityProjectionQuery) -> (r: bool)
    ensures
        r == activity_found(*projection, *query),
{
    let search = search_text(&query.q);
    let texts = if search.is_some() {
        lowered_activity_texts(projection)
    } else {
        Vec::new()
    };
    activity_projection_matches_in(projection, query, &search, &texts)
}

/// Tells whether a change matches a query whose lowercased search text is
/// `search`, where a search looks in the lowercased `texts`.
pub fn change_projection_matches_in(
    projection: &ChangeSummaryProjection,
    query: &ChangeProjectionQuery,
    search: &Option<String>,
    texts: &Vec<String>,
) -> (r: bool)
    ensures
        r == change_found_in(
            *projection,
            *query,
            crate::text::maybe_view(*search),
            crate::text::views(texts@),
        ),
{
    if !filter_passes(&query.goal_id, &projection.goal_id) {
        return false;
    }
    if let Some(status) = query.status {
        match projection.goal_status {
            Some(s) => {
                if s != status {
                    return false;
                }
            },
            None => {
                return false;
            },
        }
    }
    if !filter_passes(&query.priority, &projection.goal_priority) {
        return false;
    }
    if !filter_passes(&query.branch, &projection.branch) {
        return false;
    }
    match search {
        Some(q) => any_text_holds(texts, q.as_str()),
        None => true,
    }
}

/// Tells whether a change matches a query.
pub fn change_projection_matches(projection: &ChangeSummaryProjection, query: &ChangeProjectionQuery) -> (r: bool)
    ensures
        r == change_found(*projection, *query),
{
    let search = search_text(&query.q);
    let mut texts: Vec<String> = Vec::new();
    push_lowered(&mut texts, projection.searchable_text.as_str());
    assert(crate::text::views(texts@) =~= lowered(seq![projection.searchable_text@]));
    change_projection_matches_in(projection, query, &search, &texts)
}

/// No two goals have the same id.
pub open spec fn goal_ids_differ(rows: Seq<GoalIndexProjection>) -> bool {
    forall|i: int, j: int|
        0 <= i < j < rows.len() ==> (#[trigger] rows[i]).id@ != (#[trigger] rows[j]).id@
}

/// Goals in the order of a sort word and a direction.
pub open spec fn sorted_goals(rows: Seq<GoalIndexProjection>, sort: Seq<char>, dir: Seq<char>) -> Seq<
    GoalIndexProjection,
> {
    crate::project_state::ordering::arranged(
        rows,
        rows.map_values(goal_order(sort)),
        dir == "asc"@,
    )
}

proof fn sorted_goals_stand_in_order(rows: Seq<GoalIndexProjection>, sort: Seq<char>, dir: Seq<char>)
    ensures
        sorted_goals(rows, sort, dir).to_multiset() == rows.to_multiset(),
        sorted_goals(rows, sort, dir).len() == rows.len(),
        forall|i: int, j: int|
            0 <= i < j < rows.len() ==> !crate::project_state::ordering::comes_first(
                crate::project_state::ordering::goal_key(
                    #[trigger] sorted_goals(rows, sort, dir)[j],
                    sort,
                ),
                crate::project_state::ordering::goal_key(
                    #[trigger] sorted_goals(rows, sort, dir)[i],
                    sort,
                ),
                dir == "asc"@,
            ),
        goal_ids_differ(rows) && dir != "asc"@ ==> sorted_goals(rows, sort, dir)
            == sorted_goals(rows, sort, "asc"@).reverse(),
{
    let keys = rows.map_values(goal_order(sort));
    let ascending = dir == "asc"@;
    crate::project_state::ordering::sorting_permutes_the_rows(rows, keys, ascending);
    crate::project_state::ordering::orders_keep_every_row(keys, ascending, rows.len());
    assert forall|i: int, j: int|
        0 <= i < j < rows.len() implies !crate::project_state::ordering::comes_first(
        crate::project_state::ordering::goal_key(
            #[trigger] sorted_goals(rows, sort, dir)[j],
            sort,
        ),
        crate::project_state::ordering::goal_key(
            #[trigger] sorted_goals(rows, sort, dir)[i],
            sort,
        ),
        dir == "asc"@,
    ) by {
        crate::project_state::ordering::sorting_orders_the_rows(
            rows,
            goal_order(sort),
            ascending,
            i,
            j,
        );
    }
    if goal_ids_differ(rows) {
        assert forall|i: int, j: int| 0 <= i < j < keys.len() implies (#[trigger] keys[i]).id != (
        #[trigger] keys[j]).id by {
            assert(rows[i].id@ != rows[j].id@);
        }
        crate::project_state::ordering::the_other_direction_is_the_reverse(rows, goal_order(sort));
    }
}

/// Sorts goals by the column of a sort word, then by id. Every direction but
/// "asc" is the reverse of it.
pub fn sort_goals(rows: &mut Vec<GoalIndexProjection>, sort: &str, dir: &str)
    ensures
        final(rows)@ == sorted_goals(old(rows)@, sort@, dir@),
        final(rows)@.to_multiset() == old(rows)@.to_multiset(),
        final(rows)@.len() == old(rows)@.len(),
        forall|i: int, j: int|
            0 <= i < j < final(rows)@.len() ==> !crate::project_state::ordering::comes_first(
                crate::project_state::ordering::goal_key(#[trigger] final(rows)@[j], sort@),
                crate::project_state::ordering::goal_key(#[trigger] final(rows)@[i], sort@),
                dir@ == "asc"@,
            ),
        goal_ids_differ(old(rows)@) && dir@ != "asc"@ ==> final(rows)@ == sorted_goals(
            old(rows)@,
            sort@,
            "asc"@,
        ).reverse(),
{
    let ghost all = old(rows)@;
    let ghost listed = sorted_goals(all, sort@, dir@);
    let mut keys: Vec<SortKey> = Vec::new();
    let n: usize = rows.len();
    let mut i: usize = 0;
    while i < n
        invariant
            i <= n == rows@.len() == all.len(),
            all == rows@,
            keys@.len() == i,
            forall|j: int|
                0 <= j < i ==> (#[trigger] keys@[j])@ == crate::project_state::ordering::goal_key(
                    all[j],
                    sort@,
                ),
        decreases n - i,
    {
        assert(all[i as int] == rows@[i as int]);
        keys.push(goal_sort_key(&rows[i], sort));
        i = i + 1;
    }
    assert(crate::project_state::ordering::key_views(keys@) =~= all.map_values(goal_order(sort@)));
    let order = sort_positions(&keys, text_eq(dir, "asc"));
    let mut out: Vec<GoalIndexProjection> = Vec::new();
    let mut k: usize = 0;
    assert(listed.len() == n);
    while k < n
        invariant
            k <= n == rows@.len() == order@.len() == listed.len() == all.len(),
            all == rows@,
            out@.len() == k,
            forall|j: int| 0 <= j < order@.len() ==> #[trigger] order@[j] < n,
            forall|j: int| 0 <= j < order@.len() ==> #[trigger] listed[j] == all[order@[j] as int],
            forall|j: int| 0 <= j < k ==> (#[trigger] out@[j]) == listed[j],
        decreases n - k,
    {
        let at: usize = order[k];
        assert(listed[k as int] == all[at as int]);
        assert(all[at as int] == rows@[at as int]);
        out.push(rows[at].clone());
        k = k + 1;
    }
    proof {
        sorted_goals_stand_in_order(all, sort@, dir@);
    }
    assert(out@ =~= listed);
    *rows = out;
}

/// No two features have the same id.
pub open spec fn feature_ids_differ(rows: Seq<crate::model::FeatureSummaryView>) -> bool {
    forall|i: int, j: int|
        0 <= i < j < rows.len() ==> (#[trigger] rows[i]).feature.id@ != (#[trigger] rows[j]).feature.id@
}

/// Features in the order of a sort word and a direction.
pub open spec fn sorted_features(rows: Seq<crate::model::FeatureSummaryView>, sort: Seq<char>, dir: Seq<char>) -> Seq<
    crate::model::FeatureSummaryView,
> {
    crate::project_state::ordering::arranged(
        rows,
        rows.map_values(feature_order(sort)),
        dir == "asc"@,
    )
}

proof fn sorted_features_stand_in_order(rows: Seq<crate::model::FeatureSummaryView>, sort: Seq<char>, dir: Seq<char>)
    ensures
        sorted_features(rows, sort, dir).to_multiset() == rows.to_multiset(),
        sorted_features(rows, sort, dir).len() == rows.len(),
        forall|i: int, j: int|
            0 <= i < j < rows.len() ==> !crate::project_state::ordering::comes_first(
                crate::project_state::ordering::feature_key(
                    #[trigger] sorted_features(rows, sort, dir)[j],
                    sort,
                ),
                crate::project_state::ordering::feature_key(
                    #[trigger] sorted_features(rows, sort, dir)[i],
                    sort,
                ),
                dir == "asc"@,
            ),
        feature_ids_differ(rows) && dir != "asc"@ ==> sorted_features(rows, sort, dir)
            == sorted_features(rows, sort, "asc"@).reverse(),
{
    let keys = rows.map_values(feature_order(sort));
    let ascending = dir == "asc"@;
    crate::project_state::ordering::sorting_permutes_the_rows(rows, keys, ascending);
    crate::project_state::ordering::orders_keep_every_row(keys, ascending, rows.len());
    assert forall|i: int, j: int|
        0 <= i < j < rows.len() implies !crate::project_state::ordering::comes_first(
        crate::project_state::ordering::feature_key(
            #[trigger] sorted_features(rows, sort, dir)[j],
            sort,
        ),
        crate::project_state::ordering::feature_key(
            #[trigger] sorted_features(rows, sort, dir)[i],
            sort,
        ),
        dir == "asc"@,
    ) by {
        crate::project_state::ordering::sorting_orders_the_rows(
            rows,
            feature_order(sort),
            ascending,
            i,
            j,
        );
    }
    if feature_ids_differ(rows) {
        assert forall|i: int, j: int| 0 <= i < j < keys.len() implies (#[trigger] keys[i]).id != (
        #[trigger] keys[j]).id by {
            assert(rows[i].feature.id@ != rows[j].feature.id@);
        }
        crate::project_state::ordering::the_other_direction_is_the_reverse(rows, feature_order(sort));
    }
}

/// Sorts features by the column of a sort word, then by id. Every direction but
/// "asc" is the reverse of it.
pub fn sort_features(rows: &mut Vec<FeatureSummaryProjection>, sort: &str, dir: &str)
    ensures
        feature_views(final(rows)@) == sorted_features(feature_views(old(rows)@), sort@, dir@),
        feature_views(final(rows)@).to_multiset() == feature_views(old(rows)@).to_multiset(),
        feature_views(final(rows)@).len() == feature_views(old(rows)@).len(),
        forall|i: int, j: int|
            0 <= i < j < feature_views(final(rows)@).len() ==> !crate::project_state::ordering::comes_first(
                crate::project_state::ordering::feature_key(#[trigger] feature_views(final(rows)@)[j], sort@),
                crate::project_state::ordering::feature_key(#[trigger] feature_views(final(rows)@)[i], sort@),
                dir@ == "asc"@,
            ),
        feature_ids_differ(feature_views(old(rows)@)) && dir@ != "asc"@ ==> feature_views(final(rows)@) == sorted_features(
            feature_views(old(rows)@),
            sort@,
            "asc"@,
        ).reverse(),
{
    let ghost all = feature_views(old(rows)@);
    let ghost listed = sorted_features(all, sort@, dir@);
    let mut keys: Vec<SortKey> = Vec::new();
    let n: usize = rows.len();
    let mut i: usize = 0;
    while i < n
        invariant
            i <= n == rows@.len() == all.len(),
            all == feature_views(rows@),
            keys@.len() == i,
            forall|j: int|
                0 <= j < i ==> (#[trigger] keys@[j])@ == crate::project_state::ordering::feature_key(
                    all[j],
                    sort@,
                ),
        decreases n - i,
    {
        assert(all[i as int] == rows@[i as int]@);
        keys.push(feature_sort_key(&rows[i], sort));
        i = i + 1;
    }
    assert(crate::project_state::ordering::key_views(keys@) =~= all.map_values(feature_order(sort@)));
    let order = sort_positions(&keys, text_eq(dir, "asc"));
    let mut out: Vec<FeatureSummaryProjection> = Vec::new();
    let mut k: usize = 0;
    assert(listed.len() == n);
    while k < n
        invariant
            k <= n == rows@.len() == order@.len() == listed.len() == all.len(),
            all == feature_views(rows@),
            out@.len() == k,
            forall|j: int| 0 <= j < order@.len() ==> #[trigger] order@[j] < n,
            forall|j: int| 0 <= j < order@.len() ==> #[trigger] listed[j] == all[order@[j] as int],
            forall|j: int| 0 <= j < k ==> (#[trigger] out@[j])@ == listed[j],
        decreases n - k,
    {
        let at: usize = order[k];
        assert(listed[k as int] == all[at as int]);
        assert(all[at as int] == rows@[at as int]@);
        out.push(rows[at].clone());
        k = k + 1;
    }
    proof {
        sorted_features_stand_in_order(all, sort@, dir@);
    }
    assert(feature_views(out@) =~= listed);
    *rows = out;
}

/// No two activity entries have the same id.
pub open spec fn activity_ids_differ(rows: Seq<ActivitySummaryProjection>) -> bool {
    forall|i: int, j: int|
        0 <= i < j < rows.len() ==> (#[trigger] rows[i]).entry.id@ != (#[trigger] rows[j]).entry.id@
}

/// Activity in the order of a sort word and a direction.
pub open spec fn sorted_activity(rows: Seq<ActivitySummaryProjection>, sort: Seq<char>, dir: Seq<char>) -> Seq<
    ActivitySummaryProjection,
> {
    crate::project_state::ordering::arranged(
        rows,
        rows.map_values(activity_order(sort)),
        dir == "asc"@,
    )
}

proof fn sorted_activity_stand_in_order(rows: Seq<ActivitySummaryProjection>, sort: Seq<char>, dir: Seq<char>)
    ensures
        sorted_activity(rows, sort, dir).to_multiset() == rows.to_multiset(),
        sorted_activity(rows, sort, dir).len() == rows.len(),
        forall|i: int, j: int|
            0 <= i < j < rows.len() ==> !crate::project_state::ordering::comes_first(
                crate::project_state::ordering::activity_key(
                    #[trigger] sorted_activity(rows, sort, dir)[j],
                    sort,
                ),
                crate::project_state::ordering::activity_key(
                    #[trigger] sorted_activity(rows, sort, dir)[i],
                    sort,
                ),
                dir == "asc"@,
            ),
        activity_ids_differ(rows) && dir != "asc"@ ==> sorted_activity(rows, sort, dir)
            == sorted_activity(rows, sort, "asc"@).reverse(),
{
    let keys = rows.map_values(activity_order(sort));
    let ascending = dir == "asc"@;
    crate::project_state::ordering::sorting_permutes_the_rows(rows, keys, ascending);
    crate::project_state::ordering::orders_keep_every_row(keys, ascending, rows.len());
    assert forall|i: int, j: int|
        0 <= i < j < rows.len() implies !crate::project_state::ordering::comes_first(
        crate::project_state::ordering::activity_key(
            #[trigger] sorted_activity(rows, sort, dir)[j],
            sort,
        ),
        crate::project_state::ordering::activity_key(
            #[trigger] sorted_activity(rows, sort, dir)[i],
            sort,
        ),
        dir == "asc"@,
    ) by {
        crate::project_state::ordering::sorting_orders_the_rows(
            rows,
            activity_order(sort),
            ascending,
            i,
            j,
        );
    }
    if activity_ids_differ(rows) {
        assert forall|i: int, j: int| 0 <= i < j < keys.len() implies (#[trigger] keys[i]).id != (
        #[trigger] keys[j]).id by {
            assert(rows[i].entry.id@ != rows[j].entry.id@);
        }
        crate::project_state::ordering::the_other_direction_is_the_reverse(rows, activity_order(sort));
    }
}

/// Sorts activity by the column of a sort word, then by id. Every direction but
/// "asc" is the reverse of it.
pub fn sort_activity(rows: &mut Vec<ActivitySummaryProjection>, sort: &str, dir: &str)
    ensures
        final(rows)@ == sorted_activity(old(rows)@, sort@, dir@),
        final(rows)@.to_multiset() == old(rows)@.to_multiset(),
        final(rows)@.len() == old(rows)@.len(),
        forall|i: int, j: int|
            0 <= i < j < final(rows)@.len() ==> !crate::project_state::ordering::comes_first(
                crate::project_state::ordering::activity_key(#[trigger] final(rows)@[j], sort@),
                crate::project_state::ordering::activity_key(#[trigger] final(rows)@[i], sort@),
                dir@ == "asc"@,
            ),
        activity_ids_differ(old(rows)@) && dir@ != "asc"@ ==> final(rows)@ == sorted_activity(
            old(rows)@,
            sort@,
            "asc"@,
        ).reverse(),
{
    let ghost all = old(rows)@;
    let ghost listed = sorted_activity(all, sort@, dir@);
    let mut keys: Vec<SortKey> = Vec::new();
    let n: usize = rows.len();
    let mut i: usize = 0;
    while i < n
        invariant
            i <= n == rows@.len() == all.len(),
            all == rows@,
            keys@.len() == i,
            forall|j: int|
                0 <= j < i ==> (#[trigger] keys@[j])@ == crate::project_state::ordering::activity_key(
                    all[j],
                    sort@,
                ),
        decreases n - i,
    {
        assert(all[i as int] == rows@[i as int]);
        keys.push(activity_sort_key(&rows[i], sort));
        i = i + 1;
    }
    assert(crate::project_state::ordering::key_views(keys@) =~= all.map_values(activity_order(sort@)));
    let order = sort_positions(&keys, text_eq(dir, "asc"));
    let mut out: Vec<ActivitySummaryProjection> = Vec::new();
    let mut k: usize = 0;
    assert(listed.len() == n);
    while k < n
        invariant
            k <= n == rows@.len() == order@.len() == listed.len() == all.len(),
            all == rows@,
            out@.len() == k,
            forall|j: int| 0 <= j < order@.len() ==> #[trigger] order@[j] < n,
            forall|j: int| 0 <= j < order@.len() ==> #[trigger] listed[j] == all[order@[j] as int],
            forall|j: int| 0 <= j < k ==> (#[trigger] out@[j]) == listed[j],
        decreases n - k,
    {
        let at: usize = order[k];
        assert(listed[k as int] == all[at as int]);
        assert(all[at as int] == rows@[at as int]);
        out.push(rows[at].clone());
        k = k + 1;
    }
    proof {
        sorted_activity_stand_in_order(all, sort@, dir@);
    }
    assert(out@ =~= listed);
    *rows = out;
}

/// A change with its key.
#[derive(Debug)]
pub struct KeyedChange {
    pub key: String,
    pub change: ChangeSummaryProjection,
}

impl View for KeyedChange {
    type V = (Seq<char>, ChangeSummaryProjection);

    open spec fn view(&self) -> (Seq<char>, ChangeSummaryProjection) {
        (self.key@, self.change)
    }
}

impl Clone for KeyedChange {
    fn clone(&self) -> (r: Self)
        ensures
            r@ == self@,
    {
        KeyedChange { key: self.key.clone(), change: self.change.clone() }
    }
}

/// Changes with their keys, by their contents.
pub open spec fn keyed_views(changes: Seq<KeyedChange>) -> Seq<(Seq<char>, ChangeSummaryProjection)> {
    changes.map_values(|c: KeyedChange| c@)
}

/// No two changes have the same id.
pub open spec fn change_ids_differ(rows: Seq<(Seq<char>, ChangeSummaryProjection)>) -> bool {
    forall|i: int, j: int|
        0 <= i < j < rows.len() ==> (#[trigger] rows[i]).1.commit@ != (#[trigger] rows[j]).1.commit@
}

/// Changes in the order of a sort word and a direction.
pub open spec fn sorted_changes(rows: Seq<(Seq<char>, ChangeSummaryProjection)>, sort: Seq<char>, dir: Seq<char>) -> Seq<
    (Seq<char>, ChangeSummaryProjection),
> {
    crate::project_state::ordering::arranged(
        rows,
        rows.map_values(change_order(sort)),
        dir == "asc"@,
    )
}

proof fn sorted_changes_stand_in_order(rows: Seq<(Seq<char>, ChangeSummaryProjection)>, sort: Seq<char>, dir: Seq<char>)
    ensures
        sorted_changes(rows, sort, dir).to_multiset() == rows.to_multiset(),
        sorted_changes(rows, sort, dir).len() == rows.len(),
        forall|i: int, j: int|
            0 <= i < j < rows.len() ==> !crate::project_state::ordering::comes_first(
                crate::project_state::ordering::change_key(
                    (#[trigger] sorted_changes(rows, sort, dir)[j]).1,
                    sort,
                ),
                crate::project_state::ordering::change_key(
                    (#[trigger] sorted_changes(rows, sort, dir)[i]).1,
                    sort,
                ),
                dir == "asc"@,
            ),
        change_ids_differ(rows) && dir != "asc"@ ==> sorted_changes(rows, sort, dir)
            == sorted_changes(rows, sort, "asc"@).reverse(),
{
    let keys = rows.map_values(change_order(sort));
    let ascending = dir == "asc"@;
    crate::project_state::ordering::sorting_permutes_the_rows(rows, keys, ascending);
    crate::project_state::ordering::orders_keep_every_row(keys, ascending, rows.len());
    assert forall|i: int, j: int|
        0 <= i < j < rows.len() implies !crate::project_state::ordering::comes_first(
        crate::project_state::ordering::change_key(
            (#[trigger] sorted_changes(rows, sort, dir)[j]).1,
            sort,
        ),
        crate::project_state::ordering::change_key(
            (#[trigger] sorted_changes(rows, sort, dir)[i]).1,
            sort,
        ),
        dir == "asc"@,
    ) by {
        crate::project_state::ordering::sorting_orders_the_rows(
            rows,
            change_order(sort),
            ascending,
            i,
            j,
        );
    }
    if change_ids_differ(rows) {
        assert forall|i: int, j: int| 0 <= i < j < keys.len() implies (#[trigger] keys[i]).id != (
        #[trigger] keys[j]).id by {
            assert(rows[i].1.commit@ != rows[j].1.commit@);
        }
        crate::project_state::ordering::the_other_direction_is_the_reverse(rows, change_order(sort));
    }
}

/// Sorts changes by the column of a sort word, then by id. Every direction but
/// "asc" is the reverse of it.
pub fn sort_changes(rows: &mut Vec<KeyedChange>, sort: &str, dir: &str)
    ensures
        keyed_views(final(rows)@) == sorted_changes(keyed_views(old(rows)@), sort@, dir@),
        keyed_views(final(rows)@).to_multiset() == keyed_views(old(rows)@).to_multiset(),
        keyed_views(final(rows)@).len() == keyed_views(old(rows)@).len(),
        forall|i: int, j: int|
            0 <= i < j < keyed_views(final(rows)@).len() ==> !crate::project_state::ordering::comes_first(
                crate::project_state::ordering::change_key((#[trigger] keyed_views(final(rows)@)[j]).1, sort@),
                crate::project_state::ordering::change_key((#[trigger] keyed_views(final(rows)@)[i]).1, sort@),
                dir@ == "asc"@,
            ),
        change_ids_differ(keyed_views(old(rows)@)) && dir@ != "asc"@ ==> keyed_views(final(rows)@) == sorted_changes(
            keyed_views(old(rows)@),
            sort@,
            "asc"@,
        ).reverse(),
{
    let ghost all = keyed_views(old(rows)@);
    let ghost listed = sorted_changes(all, sort@, dir@);
    let mut keys: Vec<SortKey> = Vec::new();
    let n: usize = rows.len();
    let mut i: usize = 0;
    while i < n
        invariant
            i <= n == rows@.len() == all.len(),
            all == keyed_views(rows@),
            keys@.len() == i,
            forall|j: int|
                0 <= j < i ==> (#[trigger] keys@[j])@ == crate::project_state::ordering::change_key(
                    all[j].1,
                    sort@,
                ),
        decreases n - i,
    {
        assert(all[i as int] == rows@[i as int]@);
        keys.push(change_sort_key(&rows[i].change, sort));
        i = i + 1;
    }
    assert(crate::project_state::ordering::key_views(keys@) =~= all.map_values(change_order(sort@)));
    let order = sort_positions(&keys, text_eq(dir, "asc"));
    let mut out: Vec<KeyedChange> = Vec::new();
    let mut k: usize = 0;
    assert(listed.len() == n);
    while k < n
        invariant
            k <= n == rows@.len() == order@.len() == listed.len() == all.len(),
            all == keyed_views(rows@),
            out@.len() == k,
            forall|j: int| 0 <= j < order@.len() ==> #[trigger] order@[j] < n,
            forall|j: int| 0 <= j < order@.len() ==> #[trigger] listed[j] == all[order@[j] as int],
            forall|j: int| 0 <= j < k ==> (#[trigger] out@[j])@ == listed[j],
        decreases n - k,
    {
        let at: usize = order[k];
        assert(listed[k as int] == all[at as int]);
        assert(all[at as int] == rows@[at as int]@);
        out.push(rows[at].clone());
        k = k + 1;
    }
    proof {
        sorted_changes_stand_in_order(all, sort@, dir@);
    }
    assert(keyed_views(out@) =~= listed);
    *rows = out;
}

fn all_goals(goals: &TextMap<GoalSummaryProjection>) -> (r: Vec<GoalIndexProjection>)
    ensures
        r@ == goals_of(goals.values()),
{
    let n: usize = goals.len();
    let mut out: Vec<GoalIndexProjection> = Vec::new();
    let mut i: usize = 0;
    while i < n
        invariant
            i <= n == goals.keys().len() == goals.values().len(),
            out@ == goals_of(goals.values()).take(i as int),
        decreases n - i,
    {
        out.push(goals.value_at(i).goal.clone());
        assert(goals_of(goals.values()).take(i as int + 1) =~= goals_of(goals.values()).take(
            i as int,
        ).push(goals_of(goals.values())[i as int]));
        i = i + 1;
    }
    assert(goals_of(goals.values()).take(n as int) =~= goals_of(goals.values()));
    out
}

fn goal_status_counts(goals: &Vec<GoalIndexProjection>) -> (r: StatusCounts)
    ensures
        forall|s: GoalStatus| #[trigger]
            r.count(s) == crate::model::occurrences(statuses_of(goals@), s),
{
    let statuses = goal_statuses(goals);
    StatusCounts::of(&statuses)
}

/// Counts the goals of each status.
pub fn status_counts_of(goals: &TextMap<GoalSummaryProjection>) -> (r: StatusCounts)
    ensures
        forall|s: GoalStatus| #[trigger]
            r.count(s) == crate::model::occurrences(statuses_of(goals_of(goals.values())), s),
{
    let listed = all_goals(goals);
    goal_status_counts(&listed)
}

fn goal_statuses(goals: &Vec<GoalIndexProjection>) -> (r: Vec<GoalStatus>)
    ensures
        r@ == statuses_of(goals@),
{
    let mut statuses: Vec<GoalStatus> = Vec::new();
    let mut i: usize = 0;
    while i < goals.len()
        invariant
            i <= goals.len(),
            statuses@.len() == i,
            forall|j: int| 0 <= j < i ==> #[trigger] statuses@[j] == goals@[j].status,
        decreases goals.len() - i,
    {
        statuses.push(goals[i].status);
        i = i + 1;
    }
    assert(statuses@ =~= statuses_of(goals@));
    statuses
}

fn name_text<'a>(name: &'a Option<String>, other: &'a str) -> (r: &'a str)
    ensures
        r@ == name_or(*name, other@),
{
    match name {
        Some(n) => if n.as_str().is_empty() {
            other
        } else {
            n.as_str()
        },
        None => other,
    }
}

fn stats_by(names: &Vec<String>, statuses: &Vec<GoalStatus>) -> (r: TextMap<StatusCounts>)
    requires
        names@.len() == statuses@.len(),
    ensures
        stats_are(crate::text::views(names@), statuses@, r@),
{
    let mut stats: TextMap<StatusCounts> = TextMap::new();
    let ghost all = crate::text::views(names@);
    let mut i: usize = 0;
    while i < names.len()
        invariant
            i <= names.len() == statuses@.len(),
            all == crate::text::views(names@),
            forall|k: Seq<char>| #[trigger]
                stats@.contains_key(k) <==> exists|j: int| 0 <= j < i && #[trigger] all[j] == k,
            forall|k: Seq<char>, s: GoalStatus|
                stats@.contains_key(k) ==> #[trigger] stats@[k].count(s)
                    == crate::model::occurrences(statuses_under(all, statuses@, k), s),
        decreases names.len() - i,
    {
        let ghost before = stats@;
        let ghost name = all[i as int];
        assert(name == names@[i as int]@);
        if !stats.contains_key(names[i].as_str()) {
            let counts = counts_under(names, statuses, names[i].as_str());
            stats.insert(names[i].clone(), counts);
        }
        proof {
            assert forall|k: Seq<char>| #[trigger] stats@.contains_key(k) <==> exists|j: int|
                0 <= j < i + 1 && #[trigger] all[j] == k by {
                if before.contains_key(k) {
                    let j = choose|j: int| 0 <= j < i && #[trigger] all[j] == k;
                    assert(0 <= j < i + 1 && all[j] == k);
                }
                if exists|j: int| 0 <= j < i + 1 && #[trigger] all[j] == k {
                    let j = choose|j: int| 0 <= j < i + 1 && #[trigger] all[j] == k;
                    if j < i {
                        assert(before.contains_key(k));
                    }
                }
                assert(all[i as int] == name);
            }
        }
        i = i + 1;
    }
    assert forall|k: Seq<char>| #[trigger] stats@.contains_key(k) <==> all.contains(k) by {
        if all.contains(k) {
            let j = all.index_of(k);
            assert(all[j] == k);
        }
    }
    stats
}

fn counts_under(names: &Vec<String>, statuses: &Vec<GoalStatus>, name: &str) -> (r: StatusCounts)
    requires
        names@.len() == statuses@.len(),
    ensures
        forall|s: GoalStatus| #[trigger]
            r.count(s) == crate::model::occurrences(
                statuses_under(crate::text::views(names@), statuses@, name@),
                s,
            ),
{
    let mut chosen: Vec<GoalStatus> = Vec::new();
    let ghost all = crate::text::views(names@);
    let mut i: usize = 0;
    assert(all.take(0) =~= Seq::<Seq<char>>::empty());
    while i < names.len()
        invariant
            i <= names.len() == statuses@.len(),
            all == crate::text::views(names@),
            chosen@ == statuses_under(all.take(i as int), statuses@, name@),
        decreases names.len() - i,
    {
        assert(all.take(i as int + 1).drop_last() =~= all.take(i as int));
        assert(all[i as int] == names@[i as int]@);
        if text_eq(names[i].as_str(), name) {
            chosen.push(statuses[i]);
        }
        i = i + 1;
    }
    assert(all.take(names.len() as int) =~= all);
    StatusCounts::of(&chosen)
}

fn recent_matches(
    snapshot: &ProjectionSnapshot,
    scope: &str,
    node: &str,
    id: &String,
) -> (r: bool)
    ensures
        r == recent_in_scope(*snapshot, scope@, node@, *id),
{
    match snapshot.activity.get(id.as_str()) {
        Some(activity) => match &activity.entry.goal_id {
            Some(goal_id) => match snapshot.goals.get(goal_id.as_str()) {
                Some(goal) => matches_node(&goal.goal.node_id, scope, Some(node)),
                None => text_eq(scope, "all"),
            },
            None => text_eq(scope, "all"),
        },
        None => text_eq(scope, "all"),
    }
}

fn facet(texts: &Vec<String>) -> (r: Vec<String>)
    ensures
        facet_of(crate::text::views(texts@), crate::text::views(r@)),
{
    let mut seen: TextMap<bool> = TextMap::new();
    let ghost all = crate::text::views(texts@);
    let mut i: usize = 0;
    while i < texts.len()
        invariant
            i <= texts.len(),
            all == crate::text::views(texts@),
            forall|k: Seq<char>| #[trigger]
                seen@.contains_key(k) <==> k.len() > 0 && exists|j: int|
                    0 <= j < i && #[trigger] all[j] == k,
        decreases texts.len() - i,
    {
        let ghost before = seen@;
        assert(all[i as int] == texts@[i as int]@);
        if !texts[i].as_str().is_empty() {
            seen.insert(texts[i].clone(), true);
        }
        proof {
            assert forall|k: Seq<char>| #[trigger] seen@.contains_key(k) <==> k.len() > 0
                && exists|j: int| 0 <= j < i + 1 && #[trigger] all[j] == k by {
                if before.contains_key(k) {
                    let j = choose|j: int| 0 <= j < i && #[trigger] all[j] == k;
                    assert(0 <= j < i + 1 && all[j] == k);
                }
                if k.len() > 0 && exists|j: int| 0 <= j < i + 1 && #[trigger] all[j] == k {
                    let j = choose|j: int| 0 <= j < i + 1 && #[trigger] all[j] == k;
                    if j < i {
                        assert(before.contains_key(k));
                    }
                }
            }
        }
        i = i + 1;
    }
    let n: usize = seen.len();
    let mut out: Vec<String> = Vec::new();
    let mut k: usize = 0;
    while k < n
        invariant
            k <= n == seen.keys().len(),
            out@.len() == k,
            forall|j: int| 0 <= j < k ==> (#[trigger] out@[j])@ == seen.keys()[j],
        decreases n - k,
    {
        out.push(seen.key_at(k).clone());
        k = k + 1;
    }
    proof {
        let keys = crate::text::views(out@);
        assert(keys =~= seen.keys());
        assert forall|t: Seq<char>| #[trigger] keys.contains(t) <==> t.len() > 0 && all.contains(
            t,
        ) by {
            if keys.contains(t) {
                let j = keys.index_of(t);
                assert(seen@.contains_key(keys[j]));
            }
            if t.len() > 0 && all.contains(t) {
                let j = all.index_of(t);
                assert(all[j] == t);
                assert(seen@.contains_key(t));
            }
        }
    }
    out
}

fn activity_facets(activity: &TextMap<ActivitySummaryProjection>) -> (r: ActivityProjectionFacets)
    ensures
        facet_of(categories_of(activity.values()), crate::text::views(r.categories@)),
        facet_of(severities_of(activity.values()), crate::text::views(r.severities@)),
        facet_of(actors_of(activity.values()), crate::text::views(r.actors@)),
{
    let n: usize = activity.len();
    let mut categories: Vec<String> = Vec::new();
    let mut severities: Vec<String> = Vec::new();
    let mut actors: Vec<String> = Vec::new();
    let mut i: usize = 0;
    proof {
        reveal_strlit("");
    }
    while i < n
        invariant
            i <= n == activity.keys().len() == activity.values().len(),
            ""@ == Seq::<char>::empty(),
            categories@.len() == i,
            severities@.len() == i,
            actors@.len() == i,
            forall|j: int|
                0 <= j < i ==> (#[trigger] categories@[j])@
                    == activity.values()[j].entry.category@,
            forall|j: int|
                0 <= j < i ==> (#[trigger] severities@[j])@
                    == activity.values()[j].entry.severity@,
            forall|j: int|
                0 <= j < i ==> (#[trigger] actors@[j])@ == name_or(
                    activity.values()[j].entry.actor,
                    Seq::empty(),
                ),
        decreases n - i,
    {
        let entry = &activity.value_at(i).entry;
        categories.push(entry.category.clone());
        severities.push(entry.severity.clone());
        actors.push(name_text(&entry.actor, "").to_owned());
        i = i + 1;
    }
    assert(crate::text::views(categories@) =~= categories_of(activity.values()));
    assert(crate::text::views(severities@) =~= severities_of(activity.values()));
    assert(crate::text::views(actors@) =~= actors_of(activity.values()));
    ActivityProjectionFacets {
        categories: facet(&categories),
        severities: facet(&severities),
        actors: facet(&actors),
    }
}

/// What the projection can be asked.
pub trait ProjectionQuery {
    /// Counts the goals of each status.
    fn status_counts(&self) -> StatusCounts;

    /// Summarizes the goals of one node or of all.
    fn dashboard_summary(&self, query: DashboardProjectionQuery) -> DashboardProjectionSummary;

    /// Lists the ids of the goals in a status.
    fn goal_ids_for_status(&self, status: &GoalStatus) -> Vec<String>;

    /// Looks the rollup of a feature up.
    fn feature_rollup(&self, feature_id: &str) -> Option<FeatureRollup>;

    /// Lists goals. `records` tells what reading their records gave; a goal
    /// whose text is resident as a whole is settled without its record.
    fn list_goals(
        &self,
        query: GoalProjectionQuery,
        records: &RecordSearch,
    ) -> GoalProjectionList;

    /// Lists features.
    fn list_features(&self, query: FeatureProjectionQuery) -> FeatureProjectionList;

    /// Lists activity.
    fn list_activity(&self, query: ActivityProjectionQuery) -> ActivityProjectionList;

    /// Lists changes.
    fn list_changes(&self, query: ChangeProjectionQuery) -> ChangeProjectionList;

    /// The directory of the cache that serves a port.
    fn cache_path_for_port(&self, runtime_root: &str, port: u16) -> (r: String)
        ensures
            r@ == crate::paths::joined(
                crate::paths::joined(runtime_root@, crate::text::decimal(port as nat)),
                "cache"@,
            ),
    {
        join_path(join_path(runtime_root, decimal_text(port as u128).as_str()).as_str(), "cache")
    }
}

impl ProjectionQuery for ProjectionSnapshot {
    fn status_counts(&self) -> (r: StatusCounts)
        ensures
            forall|s: GoalStatus| #[trigger]
                r.count(s) == crate::model::occurrences(
                    statuses_of(goals_of(self.goals.values())),
                    s,
                ),
    {
        status_counts_of(&self.goals)
    }

    fn dashboard_summary(&self, query: DashboardProjectionQuery) -> (r: DashboardProjectionSummary)
        ensures
            ({
                let scope = dashboard_scope(query.node);
                let node = dashboard_node(query.current_node_id);
                let all = goals_of(self.goals.values());
                let scoped = goals_of(self.goals.values().filter(scope_filter(scope, node)));
                let failed = crate::model::occurrences(statuses_of(scoped), GoalStatus::Failed);
                &&& r.node_filter@ == scope
                &&& r.current_node_id@ == node
                &&& forall|s: GoalStatus| #[trigger]
                    r.counts.count(s) == crate::model::occurrences(statuses_of(scoped), s)
                &&& forall|s: GoalStatus| #[trigger]
                    r.all_node_counts.count(s) == crate::model::occurrences(statuses_of(all), s)
                &&& stats_are(reporters_of(scoped), statuses_of(scoped), r.reporter_stats@)
                &&& stats_are(assignees_of(scoped), statuses_of(scoped), r.assignee_stats@)
                &&& crate::text::views(r.attention_indicators@) == if failed > 0 {
                    seq![crate::text::decimal(failed) + " failed Goal(s) need recovery"@]
                } else {
                    Seq::<Seq<char>>::empty()
                }
                &&& r.recent_activity_ids@ == self.dashboard.recent_activity_ids@.filter(
                    recent_filter(*self, scope, node),
                )
            }),
    {
        let current_node_id = match &query.current_node_id {
            Some(current) => if is_blank(current.as_str()) {
                "default"
            } else {
                trim(current.as_str())
            },
            None => "default",
        };
        let node_filter = if maybe_is(&query.node, "all") {
            "all"
        } else {
            "current"
        };
        let ghost p = scope_filter(node_filter@, current_node_id@);
        let n: usize = self.goals.len();
        let mut scoped: Vec<GoalIndexProjection> = Vec::new();
        let mut reporters: Vec<String> = Vec::new();
        let mut assignees: Vec<String> = Vec::new();
        let mut i: usize = 0;
        proof {
            crate::lists::no_match_at_first(self.goals.values(), p);
        }
        assert(goals_of(self.goals.values().take(0).filter(p)) =~= Seq::empty());
        while i < n
            invariant
                i <= n == self.goals.keys().len() == self.goals.values().len(),
                p == scope_filter(node_filter@, current_node_id@),
                scoped@ == goals_of(self.goals.values().take(i as int).filter(p)),
                reporters@.len() == scoped@.len(),
                assignees@.len() == scoped@.len(),
                forall|j: int|
                    0 <= j < scoped@.len() ==> (#[trigger] reporters@[j])@ == name_or(
                        scoped@[j].reporter,
                        "unknown"@,
                    ),
                forall|j: int|
                    0 <= j < scoped@.len() ==> (#[trigger] assignees@[j])@ == name_or(
                        scoped@[j].assignee,
                        "unassigned"@,
                    ),
            decreases n - i,
        {
            proof {
                crate::lists::matches_grow(self.goals.values(), p, i as int);
            }
            let goal = &self.goals.value_at(i).goal;
            if matches_node(&goal.node_id, node_filter, Some(current_node_id)) {
                let ghost short = self.goals.values().take(i as int).filter(p);
                scoped.push(goal.clone());
                reporters.push(name_text(&goal.reporter, "unknown").to_owned());
                assignees.push(name_text(&goal.assignee, "unassigned").to_owned());
                assert(goals_of(short.push(self.goals.values()[i as int])) =~= scoped@);
            }
            i = i + 1;
        }
        assert(self.goals.values().take(n as int) =~= self.goals.values());
        assert(crate::text::views(reporters@) =~= reporters_of(scoped@));
        assert(crate::text::views(assignees@) =~= assignees_of(scoped@));
        let statuses = goal_statuses(&scoped);
        let counts = StatusCounts::of(&statuses);
        let all = all_goals(&self.goals);
        let all_node_counts = goal_status_counts(&all);
        let reporter_stats = stats_by(&reporters, &statuses);
        let assignee_stats = stats_by(&assignees, &statuses);
        let mut attention_indicators: Vec<String> = Vec::new();
        if let Some(failed) = counts.get(&GoalStatus::Failed) {
            attention_indicators.push(
                cat2(decimal_text(failed as u128).as_str(), " failed Goal(s) need recovery"),
            );
        }
        assert(crate::text::views(attention_indicators@) =~= if counts.count(GoalStatus::Failed)
            > 0 {
            seq![
                crate::text::decimal(counts.count(GoalStatus::Failed))
                    + " failed Goal(s) need recovery"@,
            ]
        } else {
            Seq::<Seq<char>>::empty()
        });
        let ids = &self.dashboard.recent_activity_ids;
        let ghost shown = recent_filter(*self, node_filter@, current_node_id@);
        let mut recent_activity_ids: Vec<String> = Vec::new();
        let mut k: usize = 0;
        proof {
            crate::lists::no_match_at_first(ids@, shown);
        }
        while k < ids.len()
            invariant
                k <= ids.len(),
                shown == recent_filter(*self, node_filter@, current_node_id@),
                recent_activity_ids@ == ids@.take(k as int).filter(shown),
            decreases ids.len() - k,
        {
            proof {
                crate::lists::matches_grow(ids@, shown, k as int);
            }
            if recent_matches(self, node_filter, current_node_id, &ids[k]) {
                recent_activity_ids.push(ids[k].clone());
            }
            k = k + 1;
        }
        assert(ids@.take(ids.len() as int) =~= ids@);
        DashboardProjectionSummary {
            node_filter: node_filter.to_owned(),
            current_node_id: current_node_id.to_owned(),
            counts,
            all_node_counts,
            reporter_stats,
            assignee_stats,
            attention_indicators,
            recent_activity_ids,
        }
    }

    fn goal_ids_for_status(&self, status: &GoalStatus) -> (r: Vec<String>)
        ensures
            crate::text::views(r@) == ids_in_status(
                self.goals.keys(),
                self.goals.values(),
                *status,
            ),
    {
        let n: usize = self.goals.len();
        let mut out: Vec<String> = Vec::new();
        let ghost keys = self.goals.keys();
        let ghost values = self.goals.values();
        let mut i: usize = 0;
        assert(keys.take(0) =~= Seq::<Seq<char>>::empty());
        assert(crate::text::views(out@) =~= Seq::<Seq<char>>::empty());
        while i < n
            invariant
                i <= n == self.goals.keys().len() == self.goals.values().len(),
                keys == self.goals.keys(),
                values == self.goals.values(),
                crate::text::views(out@) == ids_in_status(keys.take(i as int), values, *status),
            decreases n - i,
        {
            assert(keys.take(i as int + 1).drop_last() =~= keys.take(i as int));
            if self.goals.value_at(i).goal.status == *status {
                let ghost before = out@;
                out.push(self.goals.key_at(i).clone());
                assert(crate::text::views(out@) =~= crate::text::views(before).push(
                    keys[i as int],
                ));
            }
            i = i + 1;
        }
        assert(keys.take(n as int) =~= keys);
        out
    }

    fn feature_rollup(&self, feature_id: &str) -> (r: Option<FeatureRollup>)
        ensures
            match r {
                Some(rollup) => self.features@.contains_key(feature_id@)
                    && self.features@[feature_id@].rollup == rollup,
                None => !self.features@.contains_key(feature_id@),
            },
    {
        match self.features.get(feature_id) {
            Some(projection) => Some(projection.rollup),
            None => None,
        }
    }

    fn list_goals(&self, query: GoalProjectionQuery, records: &RecordSearch) -> (r:
        GoalProjectionList)
        ensures
            ({
                let listed = listed_goals(*self, query, *records);
                &&& r.total == listed.len()
                &&& crate::text::views(r.matching_ids@) == ids_of(listed)
                &&& forall|s: GoalStatus| #[trigger]
                    r.filtered_status_counts.count(s) == crate::model::occurrences(
                        statuses_of(listed),
                        s,
                    )
                &&& r.goals@ == crate::project_state::ordering::page(
                    listed,
                    query.page.offset as int,
                    query.page.limit as int,
                )
            }),
    {
        let ghost p = goal_filter(*self, query, *records);
        let n: usize = self.goals.len();
        let mut sorted: Vec<GoalIndexProjection> = Vec::new();
        let mut i: usize = 0;
        proof {
            crate::lists::no_match_at_first(self.goals.values(), p);
        }
        assert(goals_of(self.goals.values().take(0).filter(p)) =~= Seq::empty());
        while i < n
            invariant
                i <= n == self.goals.keys().len() == self.goals.values().len(),
                p == goal_filter(*self, query, *records),
                sorted@ == goals_of(self.goals.values().take(i as int).filter(p)),
            decreases n - i,
        {
            proof {
                crate::lists::matches_grow(self.goals.values(), p, i as int);
            }
            let projection = self.goals.value_at(i);
            if goal_matches(self, projection, &query, records) {
                let ghost short = self.goals.values().take(i as int).filter(p);
                sorted.push(projection.goal.clone());
                assert(goals_of(short.push(self.goals.values()[i as int])) =~= sorted@);
            }
            i = i + 1;
        }
        assert(self.goals.values().take(n as int) =~= self.goals.values());
        sort_goals(&mut sorted, query.page.sort.as_str(), query.page.dir.as_str());
        let ghost listed = listed_goals(*self, query, *records);
        let total: usize = sorted.len();
        let mut matching_ids: Vec<String> = Vec::new();
        let mut k: usize = 0;
        while k < total
            invariant
                k <= total == sorted@.len(),
                sorted@ == listed,
                matching_ids@.len() == k,
                forall|j: int| 0 <= j < k ==> (#[trigger] matching_ids@[j])@ == listed[j].id@,
            decreases total - k,
        {
            matching_ids.push(sorted[k].id.clone());
            k = k + 1;
        }
        assert(crate::text::views(matching_ids@) =~= ids_of(listed));
        let filtered_status_counts = goal_status_counts(&sorted);
        let (from, to): (usize, usize) = page_bounds(total, query.page.offset, query.page.limit);
        let mut goals: Vec<GoalIndexProjection> = Vec::new();
        let mut m: usize = from;
        while m < to
            invariant
                from <= m <= to <= total == sorted@.len(),
                goals@ =~= sorted@.subrange(from as int, m as int),
            decreases to - m,
        {
            goals.push(sorted[m].clone());
            m = m + 1;
        }
        GoalProjectionList { goals, total, filtered_status_counts, matching_ids }
    }

    fn list_features(&self, query: FeatureProjectionQuery) -> (r: FeatureProjectionList)
        ensures
            ({
                let listed = listed_features(*self, query);
                &&& r.total == listed.len()
                &&& crate::text::views(r.matching_ids@) == listed.map_values(
                    |f: crate::model::FeatureSummaryView| f.feature.id@,
                )
                &&& feature_views(r.features@) == crate::project_state::ordering::page(
                    listed,
                    query.page.offset as int,
                    query.page.limit as int,
                )
            }),
    {
        let ghost p = feature_filter(query);
        let n: usize = self.features.len();
        let mut rows: Vec<FeatureSummaryProjection> = Vec::new();
        let ghost values = self.features.values();
        let mut i: usize = 0;
        proof {
            crate::lists::no_match_at_first(values, p);
        }
        assert(feature_views(rows@) =~= feature_views(values.take(0).filter(p)));
        while i < n
            invariant
                i <= n == self.features.keys().len() == self.features.values().len(),
                values == self.features.values(),
                p == feature_filter(query),
                feature_views(rows@) == feature_views(values.take(i as int).filter(p)),
            decreases n - i,
        {
            proof {
                crate::lists::matches_grow(values, p, i as int);
            }
            let projection = self.features.value_at(i);
            if feature_matches(projection, &query) {
                let ghost before = rows@;
                let ghost short = values.take(i as int).filter(p);
                rows.push(projection.clone());
                assert(feature_views(rows@) =~= feature_views(before).push(projection@));
                assert(feature_views(short.push(*projection)) =~= feature_views(short).push(
                    projection@,
                ));
            }
            i = i + 1;
        }
        assert(values.take(n as int) =~= values);
        sort_features(&mut rows, query.page.sort.as_str(), query.page.dir.as_str());
        let ghost listed = listed_features(*self, query);
        let total: usize = rows.len();
        assert(feature_views(rows@) == listed);
        let (from, to): (usize, usize) = page_bounds(total, query.page.offset, query.page.limit);
        let mut matching_ids: Vec<String> = Vec::new();
        let mut features: Vec<FeatureSummaryProjection> = Vec::new();
        let mut k: usize = 0;
        while k < total
            invariant
                k <= total == rows@.len() == listed.len(),
                from <= to <= total,
                feature_views(rows@) == listed,
                matching_ids@.len() == k,
                features@.len() == if k < from {
                    0
                } else if k < to {
                    k - from
                } else {
                    to - from
                },
                forall|j: int| 0 <= j < k ==> (#[trigger] matching_ids@[j])@ == listed[j].feature.id@,
                forall|j: int|
                    0 <= j < features@.len() ==> (#[trigger] features@[j])@ == listed[from + j],
            decreases total - k,
        {
            let projection = &rows[k];
            assert(listed[k as int] == projection@);
            matching_ids.push(projection.feature.id.clone());
            if from <= k && k < to {
                features.push(projection.clone());
            }
            k = k + 1;
        }
        assert(crate::text::views(matching_ids@) =~= listed.map_values(
            |f: crate::model::FeatureSummaryView| f.feature.id@,
        ));
        assert(feature_views(features@) =~= crate::project_state::ordering::page(
            listed,
            query.page.offset as int,
            query.page.limit as int,
        ));
        FeatureProjectionList { features, total, matching_ids }
    }

    fn list_activity(&self, query: ActivityProjectionQuery) -> (r: ActivityProjectionList)
        ensures
            ({
                let listed = listed_activity(*self, query);
                &&& r.total == listed.len()
                &&& crate::text::views(r.matching_ids@) == listed.map_values(
                    |a: ActivitySummaryProjection| a.entry.id@,
                )
                &&& r.activity@ == crate::project_state::ordering::page(
                    listed,
                    query.page.offset as int,
                    query.page.limit as int,
                ).map_values(|a: ActivitySummaryProjection| a.entry)
                &&& facet_of(
                    categories_of(self.activity.values()),
                    crate::text::views(r.facets.categories@),
                )
                &&& facet_of(
                    severities_of(self.activity.values()),
                    crate::text::views(r.facets.severities@),
                )
                &&& facet_of(
                    actors_of(self.activity.values()),
                    crate::text::views(r.facets.actors@),
                )
            }),
    {
        let ghost p = activity_filter(query);
        let n: usize = self.activity.len();
        let mut rows: Vec<ActivitySummaryProjection> = Vec::new();
        let ghost values = self.activity.values();
        let mut i: usize = 0;
        proof {
            crate::lists::no_match_at_first(values, p);
        }
        while i < n
            invariant
                i <= n == self.activity.keys().len() == self.activity.values().len(),
                values == self.activity.values(),
                p == activity_filter(query),
                rows@ == values.take(i as int).filter(p),
            decreases n - i,
        {
            proof {
                crate::lists::matches_grow(values, p, i as int);
            }
            let projection = self.activity.value_at(i);
            if activity_projection_matches(projection, &query) {
                rows.push(projection.clone());
            }
            i = i + 1;
        }
        assert(values.take(n as int) =~= values);
        sort_activity(&mut rows, query.page.sort.as_str(), query.page.dir.as_str());
        let total: usize = rows.len();
        let ghost listed = listed_activity(*self, query);
        let (from, to): (usize, usize) = page_bounds(total, query.page.offset, query.page.limit);
        let mut matching_ids: Vec<String> = Vec::new();
        let mut activity: Vec<ActivityEntry> = Vec::new();
        let mut k: usize = 0;
        while k < total
            invariant
                k <= total == rows@.len(),
                rows@ == listed,
                from <= to <= total,
                matching_ids@.len() == k,
                activity@.len() == if k < from {
                    0
                } else if k < to {
                    k - from
                } else {
                    to - from
                },
                forall|j: int| 0 <= j < k ==> (#[trigger] matching_ids@[j])@ == listed[j].entry.id@,
                forall|j: int|
                    0 <= j < activity@.len() ==> #[trigger] activity@[j] == listed[from + j].entry,
            decreases total - k,
        {
            matching_ids.push(rows[k].entry.id.clone());
            if from <= k && k < to {
                activity.push(rows[k].entry.clone());
            }
            k = k + 1;
        }
        assert(crate::text::views(matching_ids@) =~= listed.map_values(
            |a: ActivitySummaryProjection| a.entry.id@,
        ));
        assert(activity@ =~= crate::project_state::ordering::page(
            listed,
            query.page.offset as int,
            query.page.limit as int,
        ).map_values(|a: ActivitySummaryProjection| a.entry));
        let facets = activity_facets(&self.activity);
        ActivityProjectionList { activity, total, matching_ids, facets }
    }

    fn list_changes(&self, query: ChangeProjectionQuery) -> (r: ChangeProjectionList)
        ensures
            ({
                let listed = listed_changes(*self, query);
                &&& r.total == listed.len()
                &&& crate::text::views(r.matching_ids@) == listed.map_values(
                    |c: (Seq<char>, ChangeSummaryProjection)| c.0,
                )
                &&& r.changes@ == crate::project_state::ordering::page(
                    listed,
                    query.page.offset as int,
                    query.page.limit as int,
                ).map_values(|c: (Seq<char>, ChangeSummaryProjection)| c.1)
            }),
    {
        let ghost p = change_filter(query);
        let n: usize = self.changes.len();
        let mut rows: Vec<KeyedChange> = Vec::new();
        let ghost values = keyed_changes(self.changes);
        let mut i: usize = 0;
        proof {
            crate::lists::no_match_at_first(values, p);
        }
        assert(keyed_views(rows@) =~= values.take(0).filter(p));
        while i < n
            invariant
                i <= n == self.changes.keys().len() == self.changes.values().len(),
                n == values.len(),
                values == keyed_changes(self.changes),
                p == change_filter(query),
                keyed_views(rows@) == values.take(i as int).filter(p),
            decreases n - i,
        {
            proof {
                crate::lists::matches_grow(values, p, i as int);
            }
            let projection = self.changes.value_at(i);
            if change_projection_matches(projection, &query) {
                let ghost before = rows@;
                rows.push(
                    KeyedChange { key: self.changes.key_at(i).clone(), change: projection.clone() },
                );
                assert(keyed_views(rows@) =~= keyed_views(before).push(values[i as int]));
            }
            i = i + 1;
        }
        assert(values.take(n as int) =~= values);
        sort_changes(&mut rows, query.page.sort.as_str(), query.page.dir.as_str());
        let total: usize = rows.len();
        let ghost listed = listed_changes(*self, query);
        assert(keyed_views(rows@) == listed);
        let (from, to): (usize, usize) = page_bounds(total, query.page.offset, query.page.limit);
        let mut matching_ids: Vec<String> = Vec::new();
        let mut changes: Vec<ChangeSummaryProjection> = Vec::new();
        let mut k: usize = 0;
        while k < total
            invariant
                k <= total == rows@.len() == listed.len(),
                keyed_views(rows@) == listed,
                from <= to <= total,
                matching_ids@.len() == k,
                changes@.len() == if k < from {
                    0
                } else if k < to {
                    k - from
                } else {
                    to - from
                },
                forall|j: int| 0 <= j < k ==> (#[trigger] matching_ids@[j])@ == listed[j].0,
                forall|j: int|
                    0 <= j < changes@.len() ==> #[trigger] changes@[j] == listed[from + j].1,
            decreases total - k,
        {
            assert(listed[k as int] == rows@[k as int]@);
            matching_ids.push(rows[k].key.clone());
            if from <= k && k < to {
                changes.push(rows[k].change.clone());
            }
            k = k + 1;
        }
        assert(crate::text::views(matching_ids@) =~= listed.map_values(
            |c: (Seq<char>, ChangeSummaryProjection)| c.0,
        ));
        assert(changes@ =~= crate::project_state::ordering::page(
            listed,
            query.page.offset as int,
            query.page.limit as int,
        ).map_values(|c: (Seq<char>, ChangeSummaryProjection)| c.1));
        ChangeProjectionList { changes, total, matching_ids }
    }
}

/// A list of goals holds exactly the goals that match its query.
pub proof fn lists_hold_exactly_the_matching_goals(
    snapshot: ProjectionSnapshot,
    query: GoalProjectionQuery,
    records: RecordSearch,
    goal: GoalIndexProjection,
)
    ensures
        listed_goals(snapshot, query, records).contains(goal) <==> exists|i: int|
            0 <= i < snapshot.goals.values().len() && goal_found(
                snapshot.activity@,
                #[trigger] snapshot.goals.values()[i],
                query,
                records,
            ) && snapshot.goals.values()[i].goal == goal,
{
    broadcast use vstd::seq_lib::group_filter_ensures;

    let values = snapshot.goals.values();
    let p = goal_filter(snapshot, query, records);
    let found = values.filter(p);
    let rows = found_goals(snapshot, query, records);
    crate::project_state::ordering::sorting_keeps_the_rows(
        rows,
        rows.map_values(goal_order(query.page.sort@)),
        query.page.dir@ == "asc"@,
        goal,
    );
    if rows.contains(goal) {
        let i = rows.index_of(goal);
        let x = found[i];
        assert(found.contains(x));
        assert(p(found[i]));
        values.lemma_filter_contains_rev(p, x);
        let k = values.index_of(x);
        assert(values[k] == x);
    }
    if exists|i: int|
        0 <= i < values.len() && goal_found(
            snapshot.activity@,
            #[trigger] values[i],
            query,
            records,
        ) && values[i].goal == goal {
        let i = choose|i: int|
            0 <= i < values.len() && goal_found(
                snapshot.activity@,
                #[trigger] values[i],
                query,
                records,
            ) && values[i].goal == goal;
        assert(p(values[i]));
        assert(found.contains(values[i]));
        let k = found.index_of(values[i]);
        assert(rows[k] == goal);
    }
}

/// Of two listed goals the later one does not come before the earlier one.
pub proof fn listed_goals_stand_in_order(
    snapshot: ProjectionSnapshot,
    query: GoalProjectionQuery,
    records: RecordSearch,
    i: int,
    j: int,
)
    requires
        0 <= i < j < listed_goals(snapshot, query, records).len(),
    ensures
        ({
            let listed = listed_goals(snapshot, query, records);
            let sort = query.page.sort@;
            !crate::project_state::ordering::comes_first(
                crate::project_state::ordering::goal_key(listed[j], sort),
                crate::project_state::ordering::goal_key(listed[i], sort),
                query.page.dir@ == "asc"@,
            )
        }),
{
    let rows = found_goals(snapshot, query, records);
    let key = goal_order(query.page.sort@);
    let ascending = query.page.dir@ == "asc"@;
    crate::project_state::ordering::orders_keep_every_row(
        rows.map_values(key),
        ascending,
        rows.len(),
    );
    crate::project_state::ordering::sorting_orders_the_rows(rows, key, ascending, i, j);
}

/// A list of goals in the one direction is exactly the reverse of the list in
/// the other, where no two goals have the same id.
pub proof fn the_other_direction_reverses_goals(
    rows: Seq<GoalIndexProjection>,
    sort: Seq<char>,
    dir: Seq<char>,
)
    requires
        goal_ids_differ(rows),
        dir != "asc"@,
    ensures
        sorted_goals(rows, sort, dir) == sorted_goals(rows, sort, "asc"@).reverse(),
{
    sorted_goals_stand_in_order(rows, sort, dir);
}

/// Of two listed features the later one does not come before the earlier one.
pub proof fn listed_features_stand_in_order(
    snapshot: ProjectionSnapshot,
    query: FeatureProjectionQuery,
    i: int,
    j: int,
)
    requires
        0 <= i < j < listed_features(snapshot, query).len(),
    ensures
        ({
            let listed = listed_features(snapshot, query);
            let sort = query.page.sort@;
            !crate::project_state::ordering::comes_first(
                crate::project_state::ordering::feature_key(listed[j], sort),
                crate::project_state::ordering::feature_key(listed[i], sort),
                query.page.dir@ == "asc"@,
            )
        }),
{
    let rows = found_features(snapshot, query);
    let key = feature_order(query.page.sort@);
    let ascending = query.page.dir@ == "asc"@;
    crate::project_state::ordering::orders_keep_every_row(
        rows.map_values(key),
        ascending,
        rows.len(),
    );
    crate::project_state::ordering::sorting_orders_the_rows(rows, key, ascending, i, j);
}

/// Of two listed activity entries the later one does not come before the
/// earlier one.
pub proof fn listed_activity_stands_in_order(
    snapshot: ProjectionSnapshot,
    query: ActivityProjectionQuery,
    i: int,
    j: int,
)
    requires
        0 <= i < j < listed_activity(snapshot, query).len(),
    ensures
        ({
            let listed = listed_activity(snapshot, query);
            let sort = query.page.sort@;
            !crate::project_state::ordering::comes_first(
                crate::project_state::ordering::activity_key(listed[j], sort),
                crate::project_state::ordering::activity_key(listed[i], sort),
                query.page.dir@ == "asc"@,
            )
        }),
{
    let rows = snapshot.activity.values().filter(activity_filter(query));
    let key = activity_order(query.page.sort@);
    let ascending = query.page.dir@ == "asc"@;
    crate::project_state::ordering::orders_keep_every_row(
        rows.map_values(key),
        ascending,
        rows.len(),
    );
    crate::project_state::ordering::sorting_orders_the_rows(rows, key, ascending, i, j);
}

/// Of two listed changes the later one does not come before the earlier one.
pub proof fn listed_changes_stand_in_order(
    snapshot: ProjectionSnapshot,
    query: ChangeProjectionQuery,
    i: int,
    j: int,
)
    requires
        0 <= i < j < listed_changes(snapshot, query).len(),
    ensures
        ({
            let listed = listed_changes(snapshot, query);
            let sort = query.page.sort@;
            !crate::project_state::ordering::comes_first(
                crate::project_state::ordering::change_key(listed[j].1, sort),
                crate::project_state::ordering::change_key(listed[i].1, sort),
                query.page.dir@ == "asc"@,
            )
        }),
{
    let rows = keyed_changes(snapshot.changes).filter(change_filter(query));
    let key = change_order(query.page.sort@);
    let ascending = query.page.dir@ == "asc"@;
    crate::project_state::ordering::orders_keep_every_row(
        rows.map_values(key),
        ascending,
        rows.len(),
    );
    crate::project_state::ordering::sorting_orders_the_rows(rows, key, ascending, i, j);
}

} // verus!

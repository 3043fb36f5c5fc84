//! Which rows a query lists, and in which order.
use vstd::prelude::*;

use crate::model::{
    ActivityEntry, ActivitySummaryProjection, ChangeSummaryProjection, FeatureSummaryProjection,
    GoalIndexProjection, GoalPriority, GoalStatus, GoalSummaryProjection, ProjectionSnapshot,
};
use crate::project_state::query::{
    ActivityProjectionQuery, ChangeProjectionQuery, FeatureProjectionQuery, GoalProjectionQuery,
    RecordSearch,
};

verus! {

/// A filter asks for something: it is there and holds more than white space.
pub open spec fn asks(filter: Option<String>) -> bool {
    filter is Some && !crate::laws::texts::only_spaces((filter->0)@)
}

/// A value is there and is this text.
pub open spec fn is_text(value: Option<String>, text: Seq<char>) -> bool {
    value is Some && (value->0)@ == text
}

/// The node that a record is on; one that names none is on the default node.
pub open spec fn node_of(owner: Option<String>) -> Seq<char> {
    if owner is Some {
        (owner->0)@
    } else {
        "default"@
    }
}

/// A record's node is the one that a filter asks for.
pub open spec fn is_on(owner: Option<String>, asked: Seq<char>, current: Option<String>) -> bool {
    ||| asked == "all"@
    ||| asked == "current"@ && node_of(owner) == node_of(current)
    ||| asked == "unknown"@ && owner is None
    ||| asked != "all"@ && asked != "current"@ && asked != "unknown"@ && is_text(owner, asked)
}

/// A goal's feature is the one that a filter asks for, or it has none and that
/// is asked for.
pub open spec fn belongs_to(feature: Option<String>, asked: Seq<char>) -> bool {
    if asked == "standalone"@ || asked == "__standalone"@ || asked == "none"@ {
        feature is None
    } else {
        is_text(feature, asked)
    }
}

/// A text holds another, whatever the case of either.
pub open spec fn holds_in_any_case(text: Seq<char>, part: Seq<char>) -> bool {
    crate::laws::texts::stands_in(crate::text::lowercased(part), crate::text::lowercased(text))
}

/// A value is there and holds a text, whatever the case of either.
pub open spec fn may_hold(value: Option<String>, part: Seq<char>) -> bool {
    value is Some && holds_in_any_case((value->0)@, part)
}

/// A text is one of a list.
pub open spec fn listed_among(text: Seq<char>, list: Seq<String>) -> bool {
    exists|i: int| 0 <= i < list.len() && (#[trigger] list[i])@ == text
}

/// An activity filter of a goal query asks for something.
pub open spec fn asks_activity(filter: Option<String>) -> bool {
    filter is Some && (filter->0)@.len() > 0
}

/// An activity entry is what the activity filters of a goal query ask for.
pub open spec fn entry_fits(entry: ActivityEntry, query: GoalProjectionQuery) -> bool {
    &&& asks_activity(query.severity) ==> entry.severity@ == (query.severity->0)@
    &&& asks_activity(query.category) ==> entry.category@ == (query.category->0)@
    &&& asks_activity(query.actor) ==> is_text(entry.actor, (query.actor->0)@)
}

/// A goal is what a query asks for.
pub open spec fn goal_fits(
    snapshot: ProjectionSnapshot,
    summary: GoalSummaryProjection,
    query: GoalProjectionQuery,
    records: RecordSearch,
) -> bool {
    let goal = summary.goal;
    &&& query.status is Some ==> goal.status == query.status->0
    &&& asks(query.reporter) ==> is_text(goal.reporter, (query.reporter->0)@)
    &&& asks(query.assignee) ==> is_text(goal.assignee, (query.assignee->0)@)
    &&& asks(query.node) ==> is_on(goal.node_id, (query.node->0)@, query.current_node_id)
    &&& asks(query.feature) ==> belongs_to(goal.feature_id, (query.feature->0)@)
    &&& query.rounds_gte is Some ==> query.rounds_gte->0 <= goal.round_count
    &&& query.rounds_lte is Some ==> goal.round_count <= query.rounds_lte->0
    &&& asks_activity(query.severity) || asks_activity(query.category) || asks_activity(
        query.actor,
    ) ==> exists|i: int|
        0 <= i < summary.activity_ids@.len() && snapshot.activity@.contains_key(
            (#[trigger] summary.activity_ids@[i])@,
        ) && entry_fits(snapshot.activity@[summary.activity_ids@[i]@].entry, query)
    &&& asks(query.q) ==> {
        let part = (query.q->0)@;
        ||| holds_in_any_case(goal.id@, part)
        ||| holds_in_any_case(goal.name@, part)
        ||| may_hold(goal.reporter, part)
        ||| may_hold(goal.assignee, part)
        ||| holds_in_any_case(summary.searchable_text@, part)
        ||| listed_among(goal.id@, records.incomplete@) && listed_among(
            goal.id@,
            records.matching@,
        )
    }
}

/// A feature is what a query asks for.
pub open spec fn feature_fits(
    summary: FeatureSummaryProjection,
    query: FeatureProjectionQuery,
) -> bool {
    let feature = summary.feature;
    &&& query.status is Some ==> summary.status == query.status->0
    &&& asks(query.reporter) ==> is_text(feature.reporter, (query.reporter->0)@)
    &&& asks(query.assignee) ==> is_text(feature.assignee, (query.assignee->0)@)
    &&& asks(query.node) ==> is_on(feature.node_id, (query.node->0)@, query.current_node_id)
    &&& asks(query.q) ==> {
        let part = (query.q->0)@;
        ||| holds_in_any_case(feature.id@, part)
        ||| holds_in_any_case(feature.name@, part)
        ||| may_hold(feature.description, part)
        ||| may_hold(feature.reporter, part)
        ||| may_hold(feature.assignee, part)
    }
}

/// An activity entry is what a query asks for.
pub open spec fn activity_fits(
    summary: ActivitySummaryProjection,
    query: ActivityProjectionQuery,
) -> bool {
    let entry = summary.entry;
    &&& asks(query.goal_id) ==> is_text(entry.goal_id, (query.goal_id->0)@)
    &&& asks(query.severity) ==> entry.severity@ == (query.severity->0)@
    &&& asks(query.category) ==> entry.category@ == (query.category->0)@
    &&& asks(query.actor) ==> is_text(entry.actor, (query.actor->0)@)
    &&& asks(query.q) ==> {
        let part = (query.q->0)@;
        ||| holds_in_any_case(summary.searchable_text@, part)
        ||| holds_in_any_case(entry.id@, part)
        ||| holds_in_any_case(entry.message@, part)
    }
}

/// A change is what a query asks for.
pub open spec fn change_fits(change: ChangeSummaryProjection, query: ChangeProjectionQuery) -> bool {
    &&& asks(query.goal_id) ==> is_text(change.goal_id, (query.goal_id->0)@)
    &&& query.status is Some ==> change.goal_status == query.status
    &&& asks(query.priority) ==> is_text(change.goal_priority, (query.priority->0)@)
    &&& asks(query.branch) ==> is_text(change.branch, (query.branch->0)@)
    &&& asks(query.q) ==> holds_in_any_case(change.searchable_text@, (query.q->0)@)
}

proof fn filters_ask(filter: Option<String>)
    ensures
        asks(filter) ==> crate::project_state::query::asked(filter) == Some((filter->0)@),
        !asks(filter) ==> crate::project_state::query::asked(filter) is None,
{
    if filter is Some {
        crate::laws::texts::blank_texts_hold_only_white_space((filter->0)@);
    }
}

proof fn searches_split(a: Seq<Seq<char>>, b: Seq<Seq<char>>, part: Seq<char>)
    ensures
        crate::project_state::query::some_text_holds(crate::project_state::query::lowered(a + b), part) == (crate::project_state::query::some_text_holds(crate::project_state::query::lowered(a), part)
            || crate::project_state::query::some_text_holds(crate::project_state::query::lowered(b), part)),
{
    let both = crate::project_state::query::lowered(a + b);
    let (c, d) = (crate::project_state::query::lowered(a), crate::project_state::query::lowered(b));
    assert(both =~= c + d);
    if crate::project_state::query::some_text_holds(both, part) {
        let i = choose|i: int|
            0 <= i < both.len() && crate::text::contains_part(#[trigger] both[i], part);
        if i < c.len() {
            assert(crate::text::contains_part(c[i], part));
        } else {
            assert(crate::text::contains_part(d[i - c.len()], part));
        }
    }
    if crate::project_state::query::some_text_holds(c, part) {
        let i = choose|i: int|
            0 <= i < c.len() && crate::text::contains_part(#[trigger] c[i], part);
        assert(crate::text::contains_part(both[i], part));
    }
    if crate::project_state::query::some_text_holds(d, part) {
        let i = choose|i: int|
            0 <= i < d.len() && crate::text::contains_part(#[trigger] d[i], part);
        assert(crate::text::contains_part(both[c.len() + i], part));
    }
}

proof fn one_text_is_searched(text: Seq<char>, part: Seq<char>)
    ensures
        crate::project_state::query::some_text_holds(crate::project_state::query::lowered(seq![text]), crate::text::lowercased(part))
            == holds_in_any_case(text, part),
{
    let list = crate::project_state::query::lowered(seq![text]);
    crate::laws::texts::parts_are_found_where_they_stand(
        crate::text::lowercased(text),
        crate::text::lowercased(part),
    );
    assert(list[0] == crate::text::lowercased(text));
}

proof fn a_value_is_searched(value: Option<String>, part: Seq<char>)
    ensures
        crate::project_state::query::some_text_holds(crate::project_state::query::lowered(crate::project_state::query::present(value)), crate::text::lowercased(part)) == may_hold(
            value,
            part,
        ),
{
    if value is Some {
        one_text_is_searched((value->0)@, part);
    }
}

proof fn two_texts_are_searched(a: Seq<char>, b: Seq<char>, part: Seq<char>)
    ensures
        crate::project_state::query::some_text_holds(crate::project_state::query::lowered(seq![a, b]), crate::text::lowercased(part)) == (
        holds_in_any_case(a, part) || holds_in_any_case(b, part)),
{
    searches_split(seq![a], seq![b], crate::text::lowercased(part));
    assert(seq![a] + seq![b] =~= seq![a, b]);
    one_text_is_searched(a, part);
    one_text_is_searched(b, part);
}

proof fn goals_are_searched(summary: GoalSummaryProjection, part: Seq<char>)
    ensures
        crate::project_state::query::some_text_holds(crate::project_state::query::lowered(crate::project_state::query::goal_texts(summary)), crate::text::lowercased(part)) == (
        holds_in_any_case(summary.goal.id@, part) || holds_in_any_case(summary.goal.name@, part)
            || may_hold(summary.goal.reporter, part) || may_hold(summary.goal.assignee, part)
            || holds_in_any_case(summary.searchable_text@, part)),
{
    let goal = summary.goal;
    let low = crate::text::lowercased(part);
    let a = seq![goal.id@, goal.name@];
    let b = crate::project_state::query::present(goal.reporter);
    let c = crate::project_state::query::present(goal.assignee);
    let d = seq![summary.searchable_text@];
    searches_split(a + b + c, d, low);
    searches_split(a + b, c, low);
    searches_split(a, b, low);
    two_texts_are_searched(goal.id@, goal.name@, part);
    a_value_is_searched(goal.reporter, part);
    a_value_is_searched(goal.assignee, part);
    one_text_is_searched(summary.searchable_text@, part);
}

proof fn features_are_searched(summary: FeatureSummaryProjection, part: Seq<char>)
    ensures
        crate::project_state::query::some_text_holds(crate::project_state::query::lowered(crate::project_state::query::feature_texts(summary)), crate::text::lowercased(part)) == (
        holds_in_any_case(summary.feature.id@, part) || holds_in_any_case(
            summary.feature.name@,
            part,
        ) || may_hold(summary.feature.description, part) || may_hold(summary.feature.reporter, part)
            || may_hold(summary.feature.assignee, part)),
{
    let feature = summary.feature;
    let low = crate::text::lowercased(part);
    let a = seq![feature.id@, feature.name@];
    let b = crate::project_state::query::present(feature.description);
    let c = crate::project_state::query::present(feature.reporter);
    let d = crate::project_state::query::present(feature.assignee);
    searches_split(a + b + c, d, low);
    searches_split(a + b, c, low);
    searches_split(a, b, low);
    two_texts_are_searched(feature.id@, feature.name@, part);
    a_value_is_searched(feature.description, part);
    a_value_is_searched(feature.reporter, part);
    a_value_is_searched(feature.assignee, part);
}

proof fn activity_is_searched(summary: ActivitySummaryProjection, part: Seq<char>)
    ensures
        crate::project_state::query::some_text_holds(crate::project_state::query::lowered(crate::project_state::query::activity_texts(summary)), crate::text::lowercased(part)) == (
        holds_in_any_case(summary.searchable_text@, part) || holds_in_any_case(
            summary.entry.id@,
            part,
        ) || holds_in_any_case(summary.entry.message@, part)),
{
    let low = crate::text::lowercased(part);
    let a = seq![summary.searchable_text@, summary.entry.id@];
    let b = seq![summary.entry.message@];
    searches_split(a, b, low);
    assert(a + b =~= crate::project_state::query::activity_texts(summary));
    two_texts_are_searched(summary.searchable_text@, summary.entry.id@, part);
    one_text_is_searched(summary.entry.message@, part);
}

proof fn lists_of_texts_hold_their_views(text: Seq<char>, list: Seq<String>)
    ensures
        crate::text::views(list).contains(text) == listed_among(text, list),
{
    let texts = crate::text::views(list);
    if texts.contains(text) {
        let i = texts.index_of(text);
        assert(list[i]@ == text);
    }
    if listed_among(text, list) {
        let i = choose|i: int| 0 <= i < list.len() && (#[trigger] list[i])@ == text;
        assert(texts[i] == text);
    }
}

/// A goal matches a query exactly where its fields are what is asked for.
pub proof fn goals_match_by_their_fields(
    snapshot: ProjectionSnapshot,
    summary: GoalSummaryProjection,
    query: GoalProjectionQuery,
    records: RecordSearch,
)
    ensures
        crate::project_state::query::goal_found(snapshot.activity@, summary, query, records) == goal_fits(
            snapshot,
            summary,
            query,
            records,
        ),
{
    filters_ask(query.reporter);
    filters_ask(query.assignee);
    filters_ask(query.node);
    filters_ask(query.feature);
    filters_ask(query.q);
    if asks(query.q) {
        goals_are_searched(summary, (query.q->0)@);
    }
    lists_of_texts_hold_their_views(summary.goal.id@, records.incomplete@);
    lists_of_texts_hold_their_views(summary.goal.id@, records.matching@);
    words_differ();
    assert forall|i: int|
        0 <= i < summary.activity_ids@.len() && snapshot.activity@.contains_key(
            (#[trigger] summary.activity_ids@[i])@,
        ) implies crate::project_state::query::entry_passes(snapshot.activity@[summary.activity_ids@[i]@].entry, query)
        == entry_fits(snapshot.activity@[summary.activity_ids@[i]@].entry, query) by {}
}

/// A feature matches a query exactly where its fields are what is asked for.
pub proof fn features_match_by_their_fields(
    summary: FeatureSummaryProjection,
    query: FeatureProjectionQuery,
)
    ensures
        crate::project_state::query::feature_found(summary, query) == feature_fits(summary, query),
{
    filters_ask(query.reporter);
    filters_ask(query.assignee);
    filters_ask(query.node);
    filters_ask(query.q);
    if asks(query.q) {
        features_are_searched(summary, (query.q->0)@);
    }
    words_differ();
}

/// An activity entry matches a query exactly where its fields are what is
/// asked for.
pub proof fn activity_matches_by_its_fields(
    summary: ActivitySummaryProjection,
    query: ActivityProjectionQuery,
)
    ensures
        crate::project_state::query::activity_found(summary, query) == activity_fits(summary, query),
{
    filters_ask(query.goal_id);
    filters_ask(query.severity);
    filters_ask(query.category);
    filters_ask(query.actor);
    filters_ask(query.q);
    if asks(query.q) {
        activity_is_searched(summary, (query.q->0)@);
    }
}

/// A change matches a query exactly where its fields are what is asked for.
pub proof fn changes_match_by_their_fields(
    change: ChangeSummaryProjection,
    query: ChangeProjectionQuery,
)
    ensures
        crate::project_state::query::change_found(change, query) == change_fits(change, query),
{
    filters_ask(query.goal_id);
    filters_ask(query.priority);
    filters_ask(query.branch);
    filters_ask(query.q);
    if asks(query.q) {
        one_text_is_searched(change.searchable_text@, (query.q->0)@);
    }
}

proof fn words_differ()
    ensures
        "all"@ != "current"@,
        "all"@ != "unknown"@,
        "current"@ != "unknown"@,
{
    reveal_strlit("all");
    reveal_strlit("current");
    reveal_strlit("unknown");
    assert("all"@.len() == 3 && "current"@.len() == 7 && "unknown"@.len() == 7);
    assert("current"@[0] == 'c' && "unknown"@[0] == 'u');
}

/// A list holds a goal exactly where some recorded goal is that one and its
/// fields are what the query asks for.
pub proof fn goals_are_listed_by_their_fields(
    snapshot: ProjectionSnapshot,
    query: GoalProjectionQuery,
    records: RecordSearch,
    goal: GoalIndexProjection,
)
    ensures
        crate::project_state::query::listed_goals(snapshot, query, records).contains(goal) == exists|i: int|
            0 <= i < snapshot.goals.values().len() && (#[trigger] snapshot.goals.values()[i]).goal
                == goal && goal_fits(snapshot, snapshot.goals.values()[i], query, records),
{
    crate::project_state::query::lists_hold_exactly_the_matching_goals(snapshot, query, records, goal);
    let values = snapshot.goals.values();
    assert forall|i: int| 0 <= i < values.len() implies crate::project_state::query::goal_found(
        snapshot.activity@,
        #[trigger] values[i],
        query,
        records,
    ) == goal_fits(snapshot, values[i], query, records) by {
        goals_match_by_their_fields(snapshot, values[i], query, records);
    }
}

/// Where an assignee is asked for, every listed goal has that assignee.
pub proof fn listed_goals_have_the_asked_assignee(
    snapshot: ProjectionSnapshot,
    query: GoalProjectionQuery,
    records: RecordSearch,
    i: int,
)
    requires
        0 <= i < crate::project_state::query::listed_goals(snapshot, query, records).len(),
    ensures
        ({
            let goal = crate::project_state::query::listed_goals(snapshot, query, records)[i];
            &&& asks(query.assignee) ==> is_text(goal.assignee, (query.assignee->0)@)
            &&& asks(query.reporter) ==> is_text(goal.reporter, (query.reporter->0)@)
            &&& query.status is Some ==> goal.status == query.status->0
            &&& asks(query.node) ==> is_on(goal.node_id, (query.node->0)@, query.current_node_id)
            &&& asks(query.feature) ==> belongs_to(goal.feature_id, (query.feature->0)@)
            &&& query.rounds_gte is Some ==> query.rounds_gte->0 <= goal.round_count
            &&& query.rounds_lte is Some ==> goal.round_count <= query.rounds_lte->0
        }),
{
    let listed = crate::project_state::query::listed_goals(snapshot, query, records);
    assert(listed.contains(listed[i]));
    goals_are_listed_by_their_fields(snapshot, query, records, listed[i]);
}

/// A query that asks for an assignee and nothing else lists every goal with
/// that assignee, whoever reported it.
pub proof fn goals_of_an_assignee_are_listed(
    snapshot: ProjectionSnapshot,
    query: GoalProjectionQuery,
    records: RecordSearch,
    i: int,
)
    requires
        0 <= i < snapshot.goals.values().len(),
        is_text(snapshot.goals.values()[i].goal.assignee, (query.assignee->0)@),
        query.assignee is Some,
        query.status is None,
        !asks(query.reporter),
        !asks(query.node),
        !asks(query.feature),
        query.rounds_gte is None,
        query.rounds_lte is None,
        !asks_activity(query.severity),
        !asks_activity(query.category),
        !asks_activity(query.actor),
        !asks(query.q),
    ensures
        crate::project_state::query::listed_goals(snapshot, query, records).contains(snapshot.goals.values()[i].goal),
{
    goals_are_listed_by_their_fields(
        snapshot,
        query,
        records,
        snapshot.goals.values()[i].goal,
    );
    assert(goal_fits(snapshot, snapshot.goals.values()[i], query, records));
}

proof fn kept_rows<T>(rows: Seq<T>, keeps: spec_fn(T) -> bool, row: T)
    ensures
        rows.filter(keeps).contains(row) == (rows.contains(row) && keeps(row)),
{
    broadcast use vstd::seq_lib::group_filter_ensures;

    let kept = rows.filter(keeps);
    if kept.contains(row) {
        let i = kept.index_of(row);
        assert(keeps(kept[i]));
        rows.lemma_filter_contains_rev(keeps, row);
    }
    if rows.contains(row) && keeps(row) {
        assert(kept.contains(row));
    }
}

/// A list holds a feature exactly where some recorded feature has its contents
/// and its fields are what the query asks for.
pub proof fn features_are_listed_by_their_fields(
    snapshot: ProjectionSnapshot,
    query: FeatureProjectionQuery,
    row: crate::model::FeatureSummaryView,
)
    ensures
        crate::project_state::query::listed_features(snapshot, query).contains(row) == exists|i: int|
            0 <= i < snapshot.features.values().len() && (#[trigger] snapshot.features.values()[i])@
                == row && feature_fits(snapshot.features.values()[i], query),
{
    let values = snapshot.features.values();
    let keeps = crate::project_state::query::feature_filter(query);
    let found = values.filter(keeps);
    let rows = crate::project_state::query::found_features(snapshot, query);
    crate::project_state::ordering::sorting_keeps_the_rows(
        rows,
        rows.map_values(crate::project_state::query::feature_order(query.page.sort@)),
        query.page.dir@ == "asc"@,
        row,
    );
    if rows.contains(row) {
        let i = rows.index_of(row);
        assert(found.contains(found[i]));
        kept_rows(values, keeps, found[i]);
        features_match_by_their_fields(found[i], query);
        let k = values.index_of(found[i]);
        assert(values[k]@ == row);
    }
    if exists|i: int|
        0 <= i < values.len() && (#[trigger] values[i])@ == row && feature_fits(values[i], query) {
        let i = choose|i: int|
            0 <= i < values.len() && (#[trigger] values[i])@ == row && feature_fits(
                values[i],
                query,
            );
        features_match_by_their_fields(values[i], query);
        kept_rows(values, keeps, values[i]);
        let k = found.index_of(values[i]);
        assert(rows[k] == row);
    }
}

/// A list holds an activity entry exactly where it is recorded and its fields
/// are what the query asks for.
pub proof fn activity_is_listed_by_its_fields(
    snapshot: ProjectionSnapshot,
    query: ActivityProjectionQuery,
    row: ActivitySummaryProjection,
)
    ensures
        crate::project_state::query::listed_activity(snapshot, query).contains(row) == (snapshot.activity.values().contains(
            row,
        ) && activity_fits(row, query)),
{
    let values = snapshot.activity.values();
    let keeps = crate::project_state::query::activity_filter(query);
    let rows = values.filter(keeps);
    crate::project_state::ordering::sorting_keeps_the_rows(
        rows,
        rows.map_values(crate::project_state::query::activity_order(query.page.sort@)),
        query.page.dir@ == "asc"@,
        row,
    );
    kept_rows(values, keeps, row);
    activity_matches_by_its_fields(row, query);
}

/// A list holds a change exactly where it is recorded and its fields are what
/// the query asks for.
pub proof fn changes_are_listed_by_their_fields(
    snapshot: ProjectionSnapshot,
    query: ChangeProjectionQuery,
    key: Seq<char>,
    row: ChangeSummaryProjection,
)
    ensures
        crate::project_state::query::listed_changes(snapshot, query).contains((key, row)) == (change_fits(row, query)
            && exists|i: int|
            0 <= i < snapshot.changes.keys().len() && (#[trigger] snapshot.changes.keys()[i]) == key
                && snapshot.changes.values()[i] == row),
{
    let values = crate::project_state::query::keyed_changes(snapshot.changes);
    let keeps = crate::project_state::query::change_filter(query);
    let rows = values.filter(keeps);
    crate::project_state::ordering::sorting_keeps_the_rows(
        rows,
        rows.map_values(crate::project_state::query::change_order(query.page.sort@)),
        query.page.dir@ == "asc"@,
        (key, row),
    );
    kept_rows(values, keeps, (key, row));
    changes_match_by_their_fields(row, query);
    if values.contains((key, row)) {
        let i = values.index_of((key, row));
        assert(snapshot.changes.keys()[i] == key);
    }
    if exists|i: int|
        0 <= i < snapshot.changes.keys().len() && (#[trigger] snapshot.changes.keys()[i]) == key
            && snapshot.changes.values()[i] == row {
        let i = choose|i: int|
            0 <= i < snapshot.changes.keys().len() && (#[trigger] snapshot.changes.keys()[i]) == key
                && snapshot.changes.values()[i] == row;
        assert(values[i] == (key, row));
    }
}

/// A page holds the rows from its offset on, as many as there are and no more
/// than its limit.
pub proof fn pages_hold_their_part<T>(rows: Seq<T>, offset: int, limit: int)
    requires
        0 <= offset,
        0 <= limit,
    ensures
        ({
            let page = crate::project_state::ordering::page(rows, offset, limit);
            &&& page.len() <= limit
            &&& page.len() <= rows.len()
            &&& offset >= rows.len() ==> page.len() == 0
            &&& offset < rows.len() && limit <= rows.len() - offset ==> page.len() == limit
            &&& offset < rows.len() && limit > rows.len() - offset ==> page.len() == rows.len()
                - offset
            &&& forall|i: int| 0 <= i < page.len() ==> #[trigger] page[i] == rows[offset + i]
        }),
{
}

/// One text of a column may stand above another; between equal ones the ids
/// decide.
pub open spec fn text_above(a: Seq<char>, b: Seq<char>, a_id: Seq<char>, b_id: Seq<char>) -> bool {
    crate::text::text_before(a, b) || a == b && (a_id == b_id || crate::text::text_before(
        a_id,
        b_id,
    ))
}

/// One number of a column may stand above another; between equal ones the ids
/// decide.
pub open spec fn number_above(a: int, b: int, a_id: Seq<char>, b_id: Seq<char>) -> bool {
    a < b || a == b && (a_id == b_id || crate::text::text_before(a_id, b_id))
}

/// One value of a column may stand above another: an absent one above every
/// present one.
pub open spec fn value_above(
    a: Option<String>,
    b: Option<String>,
    a_id: Seq<char>,
    b_id: Seq<char>,
) -> bool {
    if a is Some && b is Some {
        text_above((a->0)@, (b->0)@, a_id, b_id)
    } else if a is None && b is None {
        a_id == b_id || crate::text::text_before(a_id, b_id)
    } else {
        a is None
    }
}

/// How far a status is in the workflow.
pub open spec fn stage_of(status: GoalStatus) -> int {
    match status {
        GoalStatus::Backlog => 0,
        GoalStatus::Todo => 1,
        GoalStatus::InProgress => 2,
        GoalStatus::Qa => 3,
        GoalStatus::ReadyMerge => 4,
        GoalStatus::Build => 5,
        GoalStatus::Review => 6,
        GoalStatus::Done => 7,
        GoalStatus::Failed => 8,
        GoalStatus::Cancelled => 9,
    }
}

/// How urgent a priority is.
pub open spec fn urgency_of(priority: GoalPriority) -> int {
    match priority {
        GoalPriority::Low => 0,
        GoalPriority::Medium => 1,
        GoalPriority::High => 2,
    }
}

proof fn columns_are_total(a: Seq<char>, b: Seq<char>)
    ensures
        crate::text::text_before(a, b) || crate::text::text_before(b, a) || a == b,
        !(crate::text::text_before(a, b) && crate::text::text_before(b, a)),
{
    crate::text::text_order_is_total(a, b);
}

proof fn values_are_total(a: Option<String>, b: Option<String>)
    ensures
        a is Some && b is Some ==> crate::text::text_before((a->0)@, (b->0)@)
            || crate::text::text_before((b->0)@, (a->0)@) || (a->0)@ == (b->0)@,
{
    if a is Some && b is Some {
        crate::text::text_order_is_total((a->0)@, (b->0)@);
    }
}

/// Of two listed goals the one that stands above has the lower value in the asked
/// column, in ascending order, and the higher one otherwise; a sort word that names
/// no column asks for the time of the last update.
pub proof fn goals_stand_in_the_asked_order(
    snapshot: ProjectionSnapshot,
    query: GoalProjectionQuery,
    records: RecordSearch,
    i: int,
    j: int,
)
    requires
        0 <= i < j < crate::project_state::query::listed_goals(snapshot, query, records).len(),
    ensures
        ({
            let sort = query.page.sort@;
            let listed = crate::project_state::query::listed_goals(snapshot, query, records);
            let (a, b) = if query.page.dir@ == "asc"@ {
                (listed[i], listed[j])
            } else {
                (listed[j], listed[i])
            };
            &&& sort == "name"@ ==> text_above(a.name@, b.name@, a.id@, b.id@)
            &&& sort == "status"@ ==> number_above(stage_of(a.status), stage_of(b.status), a.id@, b.id@)
            &&& sort == "priority"@ ==> number_above(urgency_of(a.priority), urgency_of(b.priority), a.id@, b.id@)
            &&& sort == "reporter"@ ==> value_above(a.reporter, b.reporter, a.id@, b.id@)
            &&& sort == "assignee"@ ==> value_above(a.assignee, b.assignee, a.id@, b.id@)
            &&& sort == "rounds"@ || sort == "round_count"@ ==> number_above(a.round_count as int, b.round_count as int, a.id@, b.id@)
            &&& sort == "node"@ ==> value_above(a.node_id, b.node_id, a.id@, b.id@)
            &&& sort == "created"@ ==> text_above(a.created@, b.created@, a.id@, b.id@)
            &&& sort == "id"@ ==> text_above(a.id@, b.id@, a.id@, b.id@)
            &&& sort != "name"@ && sort != "status"@ && sort != "priority"@ && sort != "reporter"@ && sort != "assignee"@ && sort != "rounds"@ && sort != "round_count"@ && sort != "node"@ && sort != "created"@ && sort != "id"@ ==> text_above(a.updated@, b.updated@, a.id@, b.id@)
        }),
{
    crate::project_state::query::listed_goals_stand_in_order(snapshot, query, records, i, j);
    let listed = crate::project_state::query::listed_goals(snapshot, query, records);
    let (a, b) = if query.page.dir@ == "asc"@ {
        (listed[i], listed[j])
    } else {
        (listed[j], listed[i])
    };
    reveal_strlit("name");
    reveal_strlit("status");
    reveal_strlit("priority");
    reveal_strlit("reporter");
    reveal_strlit("assignee");
    reveal_strlit("rounds");
    reveal_strlit("round_count");
    reveal_strlit("node");
    reveal_strlit("created");
    reveal_strlit("id");
    assert("name"@.len() == 4);
    assert("status"@.len() == 6);
    assert("priority"@.len() == 8);
    assert("reporter"@.len() == 8);
    assert("assignee"@.len() == 8);
    assert("rounds"@.len() == 6);
    assert("round_count"@.len() == 11);
    assert("node"@.len() == 4);
    assert("created"@.len() == 7);
    assert("id"@.len() == 2);
    assert("name"@[0] == 'n' && "name"@[1] == 'a');
    assert("status"@[0] == 's' && "status"@[1] == 't');
    assert("priority"@[0] == 'p' && "priority"@[1] == 'r');
    assert("reporter"@[0] == 'r' && "reporter"@[1] == 'e');
    assert("assignee"@[0] == 'a' && "assignee"@[1] == 's');
    assert("rounds"@[0] == 'r' && "rounds"@[1] == 'o');
    assert("round_count"@[0] == 'r' && "round_count"@[1] == 'o');
    assert("node"@[0] == 'n' && "node"@[1] == 'o');
    assert("created"@[0] == 'c' && "created"@[1] == 'r');
    assert("id"@[0] == 'i' && "id"@[1] == 'd');
    columns_are_total(a.id@, b.id@);
    columns_are_total(a.name@, b.name@);
    columns_are_total(a.created@, b.created@);
    columns_are_total(a.updated@, b.updated@);
    values_are_total(a.reporter, b.reporter);
    values_are_total(a.assignee, b.assignee);
    values_are_total(a.node_id, b.node_id);
}

/// Of two listed features the one that stands above has the lower value in the
/// asked column, in ascending order, and the higher one otherwise.
pub proof fn features_stand_in_the_asked_order(
    snapshot: ProjectionSnapshot,
    query: FeatureProjectionQuery,
    i: int,
    j: int,
)
    requires
        0 <= i < j < crate::project_state::query::listed_features(snapshot, query).len(),
    ensures
        ({
            let sort = query.page.sort@;
            let listed = crate::project_state::query::listed_features(snapshot, query);
            let (a, b) = if query.page.dir@ == "asc"@ {
                (listed[i], listed[j])
            } else {
                (listed[j], listed[i])
            };
            &&& sort == "name"@ ==> text_above(a.feature.name@, b.feature.name@, a.feature.id@, b.feature.id@)
            &&& sort == "status"@ ==> number_above(stage_of(a.status), stage_of(b.status), a.feature.id@, b.feature.id@)
            &&& sort == "reporter"@ ==> value_above(a.feature.reporter, b.feature.reporter, a.feature.id@, b.feature.id@)
            &&& sort == "assignee"@ ==> value_above(a.feature.assignee, b.feature.assignee, a.feature.id@, b.feature.id@)
            &&& sort == "node"@ ==> value_above(a.feature.node_id, b.feature.node_id, a.feature.id@, b.feature.id@)
            &&& sort == "created"@ ==> text_above(a.feature.created@, b.feature.created@, a.feature.id@, b.feature.id@)
            &&& sort == "id"@ ==> text_above(a.feature.id@, b.feature.id@, a.feature.id@, b.feature.id@)
            &&& sort != "name"@ && sort != "status"@ && sort != "reporter"@ && sort != "assignee"@ && sort != "node"@ && sort != "created"@ && sort != "id"@ ==> text_above(a.feature.updated@, b.feature.updated@, a.feature.id@, b.feature.id@)
        }),
{
    crate::project_state::query::listed_features_stand_in_order(snapshot, query, i, j);
    let listed = crate::project_state::query::listed_features(snapshot, query);
    let (a, b) = if query.page.dir@ == "asc"@ {
        (listed[i], listed[j])
    } else {
        (listed[j], listed[i])
    };
    reveal_strlit("name");
    reveal_strlit("status");
    reveal_strlit("reporter");
    reveal_strlit("assignee");
    reveal_strlit("node");
    reveal_strlit("created");
    reveal_strlit("id");
    assert("name"@.len() == 4);
    assert("status"@.len() == 6);
    assert("reporter"@.len() == 8);
    assert("assignee"@.len() == 8);
    assert("node"@.len() == 4);
    assert("created"@.len() == 7);
    assert("id"@.len() == 2);
    assert("name"@[0] == 'n' && "name"@[1] == 'a');
    assert("status"@[0] == 's' && "status"@[1] == 't');
    assert("reporter"@[0] == 'r' && "reporter"@[1] == 'e');
    assert("assignee"@[0] == 'a' && "assignee"@[1] == 's');
    assert("node"@[0] == 'n' && "node"@[1] == 'o');
    assert("created"@[0] == 'c' && "created"@[1] == 'r');
    assert("id"@[0] == 'i' && "id"@[1] == 'd');
    columns_are_total(a.feature.id@, b.feature.id@);
    columns_are_total(a.feature.name@, b.feature.name@);
    columns_are_total(a.feature.created@, b.feature.created@);
    columns_are_total(a.feature.updated@, b.feature.updated@);
    values_are_total(a.feature.reporter, b.feature.reporter);
    values_are_total(a.feature.assignee, b.feature.assignee);
    values_are_total(a.feature.node_id, b.feature.node_id);
}

/// Of two listed activity entries the one that stands above has the lower value in
/// the asked column, in ascending order, and the higher one otherwise.
pub proof fn activity_stands_in_the_asked_order(
    snapshot: ProjectionSnapshot,
    query: ActivityProjectionQuery,
    i: int,
    j: int,
)
    requires
        0 <= i < j < crate::project_state::query::listed_activity(snapshot, query).len(),
    ensures
        ({
            let sort = query.page.sort@;
            let listed = crate::project_state::query::listed_activity(snapshot, query);
            let (a, b) = if query.page.dir@ == "asc"@ {
                (listed[i].entry, listed[j].entry)
            } else {
                (listed[j].entry, listed[i].entry)
            };
            &&& sort == "severity"@ ==> text_above(a.severity@, b.severity@, a.id@, b.id@)
            &&& sort == "category"@ ==> text_above(a.category@, b.category@, a.id@, b.id@)
            &&& sort == "actor"@ ==> value_above(a.actor, b.actor, a.id@, b.id@)
            &&& sort == "goal_id"@ || sort == "goal"@ ==> value_above(a.goal_id, b.goal_id, a.id@, b.id@)
            &&& sort == "message"@ ==> text_above(a.message@, b.message@, a.id@, b.id@)
            &&& sort == "id"@ ==> text_above(a.id@, b.id@, a.id@, b.id@)
            &&& sort != "severity"@ && sort != "category"@ && sort != "actor"@ && sort != "goal_id"@ && sort != "goal"@ && sort != "message"@ && sort != "id"@ ==> text_above(a.datetime@, b.datetime@, a.id@, b.id@)
        }),
{
    crate::project_state::query::listed_activity_stands_in_order(snapshot, query, i, j);
    let listed = crate::project_state::query::listed_activity(snapshot, query);
    let (a, b) = if query.page.dir@ == "asc"@ {
        (listed[i].entry, listed[j].entry)
    } else {
        (listed[j].entry, listed[i].entry)
    };
    reveal_strlit("severity");
    reveal_strlit("category");
    reveal_strlit("actor");
    reveal_strlit("goal_id");
    reveal_strlit("goal");
    reveal_strlit("message");
    reveal_strlit("id");
    assert("severity"@.len() == 8);
    assert("category"@.len() == 8);
    assert("actor"@.len() == 5);
    assert("goal_id"@.len() == 7);
    assert("goal"@.len() == 4);
    assert("message"@.len() == 7);
    assert("id"@.len() == 2);
    assert("severity"@[0] == 's' && "severity"@[1] == 'e');
    assert("category"@[0] == 'c' && "category"@[1] == 'a');
    assert("actor"@[0] == 'a' && "actor"@[1] == 'c');
    assert("goal_id"@[0] == 'g' && "goal_id"@[1] == 'o');
    assert("goal"@[0] == 'g' && "goal"@[1] == 'o');
    assert("message"@[0] == 'm' && "message"@[1] == 'e');
    assert("id"@[0] == 'i' && "id"@[1] == 'd');
    columns_are_total(a.id@, b.id@);
    columns_are_total(a.severity@, b.severity@);
    columns_are_total(a.category@, b.category@);
    columns_are_total(a.message@, b.message@);
    columns_are_total(a.datetime@, b.datetime@);
    values_are_total(a.actor, b.actor);
    values_are_total(a.goal_id, b.goal_id);
}

/// Of two listed changes the one that stands above has the lower value in the asked
/// column, in ascending order, and the higher one otherwise; a sort word that names
/// no column asks for the newest first, and for the older time of two as new.
pub proof fn changes_stand_in_the_asked_order(
    snapshot: ProjectionSnapshot,
    query: ChangeProjectionQuery,
    i: int,
    j: int,
)
    requires
        0 <= i < j < crate::project_state::query::listed_changes(snapshot, query).len(),
    ensures
        ({
            let sort = query.page.sort@;
            let listed = crate::project_state::query::listed_changes(snapshot, query);
            let (a, b) = if query.page.dir@ == "asc"@ {
                (listed[i].1, listed[j].1)
            } else {
                (listed[j].1, listed[i].1)
            };
            &&& sort == "commit"@ ==> text_above(a.commit@, b.commit@, a.commit@, b.commit@)
            &&& sort == "subject"@ ==> text_above(a.subject@, b.subject@, a.commit@, b.commit@)
            &&& sort == "branch"@ ==> value_above(a.branch, b.branch, a.commit@, b.commit@)
            &&& sort == "goal_id"@ || sort == "goal"@ ==> value_above(a.goal_id, b.goal_id, a.commit@, b.commit@)
            &&& sort == "status"@ ==> (a.goal_status is None && b.goal_status is Some || a.goal_status is None && b.goal_status is None && number_above(0, 0, a.commit@, b.commit@) || a.goal_status is Some && b.goal_status is Some && number_above(stage_of(a.goal_status->0), stage_of(b.goal_status->0), a.commit@, b.commit@))
            &&& sort == "priority"@ ==> value_above(a.goal_priority, b.goal_priority, a.commit@, b.commit@)
            &&& sort == "assignee"@ ==> value_above(a.goal_assignee, b.goal_assignee, a.commit@, b.commit@)
            &&& sort != "commit"@ && sort != "subject"@ && sort != "branch"@ && sort != "goal_id"@ && sort != "goal"@ && sort != "status"@ && sort != "priority"@ && sort != "assignee"@ ==> (a.order > b.order || a.order == b.order && text_above(a.committed_time@, b.committed_time@, a.commit@, b.commit@))
        }),
{
    crate::project_state::query::listed_changes_stand_in_order(snapshot, query, i, j);
    let listed = crate::project_state::query::listed_changes(snapshot, query);
    let (a, b) = if query.page.dir@ == "asc"@ {
        (listed[i].1, listed[j].1)
    } else {
        (listed[j].1, listed[i].1)
    };
    reveal_strlit("commit");
    reveal_strlit("subject");
    reveal_strlit("branch");
    reveal_strlit("goal_id");
    reveal_strlit("goal");
    reveal_strlit("status");
    reveal_strlit("priority");
    reveal_strlit("assignee");
    assert("commit"@.len() == 6);
    assert("subject"@.len() == 7);
    assert("branch"@.len() == 6);
    assert("goal_id"@.len() == 7);
    assert("goal"@.len() == 4);
    assert("status"@.len() == 6);
    assert("priority"@.len() == 8);
    assert("assignee"@.len() == 8);
    assert("commit"@[0] == 'c' && "commit"@[1] == 'o');
    assert("subject"@[0] == 's' && "subject"@[1] == 'u');
    assert("branch"@[0] == 'b' && "branch"@[1] == 'r');
    assert("goal_id"@[0] == 'g' && "goal_id"@[1] == 'o');
    assert("goal"@[0] == 'g' && "goal"@[1] == 'o');
    assert("status"@[0] == 's' && "status"@[1] == 't');
    assert("priority"@[0] == 'p' && "priority"@[1] == 'r');
    assert("assignee"@[0] == 'a' && "assignee"@[1] == 's');
    columns_are_total(a.commit@, b.commit@);
    columns_are_total(a.subject@, b.subject@);
    columns_are_total(a.committed_time@, b.committed_time@);
    values_are_total(a.branch, b.branch);
    values_are_total(a.goal_id, b.goal_id);
    values_are_total(a.goal_priority, b.goal_priority);
    values_are_total(a.goal_assignee, b.goal_assignee);
}

/// A name that goals are counted under: their own, or a word where it is absent
/// or empty.
pub proof fn people_are_counted_under_their_names(goals: Seq<GoalIndexProjection>, i: int)
    requires
        0 <= i < goals.len(),
    ensures
        ({
            let reporter = crate::project_state::query::reporters_of(goals)[i];
            let assignee = crate::project_state::query::assignees_of(goals)[i];
            &&& goals[i].reporter is Some && (goals[i].reporter->0)@.len() > 0 ==> reporter == (
            goals[i].reporter->0)@
            &&& goals[i].reporter is None || (goals[i].reporter->0)@.len() == 0 ==> reporter
                == "unknown"@
            &&& goals[i].assignee is Some && (goals[i].assignee->0)@.len() > 0 ==> assignee == (
            goals[i].assignee->0)@
            &&& goals[i].assignee is None || (goals[i].assignee->0)@.len() == 0 ==> assignee
                == "unassigned"@
        }),
{
}

/// A dashboard covers every goal where all nodes are asked for, and otherwise
/// those on the current node, which is the default one where none is named.
pub proof fn dashboards_cover_their_nodes(
    node: Option<String>,
    current: Option<String>,
    summary: GoalSummaryProjection,
)
    ensures
        ({
            let scope = crate::project_state::query::dashboard_scope(node);
            let here = crate::project_state::query::dashboard_node(current);
            let covers = crate::project_state::query::scope_filter(scope, here);
            &&& is_text(node, "all"@) ==> scope == "all"@ && covers(summary)
            &&& !is_text(node, "all"@) ==> scope == "current"@ && covers(summary) == (node_of(
                summary.goal.node_id,
            ) == here)
            &&& !asks(current) ==> here == "default"@
            &&& asks(current) ==> here == crate::text::trimmed((current->0)@)
        }),
{
    words_differ();
    filters_ask(current);
    if current is Some {
        crate::laws::texts::blank_texts_hold_only_white_space((current->0)@);
    }
}

/// A dashboard shows recent activity of the goals that it covers, and other
/// activity only where all nodes are asked for.
pub proof fn dashboards_show_the_activity_of_their_goals(
    snapshot: ProjectionSnapshot,
    here: Seq<char>,
    id: String,
)
    ensures
        crate::project_state::query::recent_in_scope(snapshot, "all"@, here, id),
        crate::project_state::query::recent_in_scope(snapshot, "current"@, here, id) == (snapshot.activity@.contains_key(id@)
            && {
            let goal_id = snapshot.activity@[id@].entry.goal_id;
            goal_id is Some && snapshot.goals@.contains_key((goal_id->0)@) && node_of(
                snapshot.goals@[(goal_id->0)@].goal.node_id,
            ) == here
        }),
{
    words_differ();
}

/// A status occurs as often as there are positions that hold it.
pub proof fn statuses_are_counted(statuses: Seq<GoalStatus>, status: GoalStatus)
    ensures
        crate::model::occurrences(statuses, status) == statuses.filter(
            |s: GoalStatus| s == status,
        ).len(),
        crate::model::occurrences(statuses, status) == statuses.to_multiset().count(status),
    decreases statuses.len(),
{
    broadcast use vstd::seq_lib::group_to_multiset_ensures;

    reveal(Seq::filter);
    if statuses.len() > 0 {
        statuses_are_counted(statuses.drop_last(), status);
        assert(statuses.drop_last().push(statuses.last()) =~= statuses);
    }
}

/// The statuses that a name is counted with are those of the rows that carry
/// it.
pub proof fn names_are_counted_with_their_own_rows(
    names: Seq<Seq<char>>,
    statuses: Seq<GoalStatus>,
    name: Seq<char>,
    status: GoalStatus,
)
    requires
        names.len() == statuses.len(),
    ensures
        crate::model::occurrences(crate::project_state::query::statuses_under(names, statuses, name), status)
            == names.zip_with(statuses).filter(
            |row: (Seq<char>, GoalStatus)| row == (name, status),
        ).len(),
    decreases names.len(),
{
    reveal(Seq::filter);
    if names.len() > 0 {
        let (n, s) = (names.drop_last(), statuses.drop_last());
        names_are_counted_with_their_own_rows(n, s, name, status);
        assert(names.zip_with(statuses).drop_last() =~= n.zip_with(s));
        assert(names.zip_with(statuses).last() == (names.last(), statuses.last()));
        shorter_statuses(n, statuses, s, name);
        let longer = crate::project_state::query::statuses_under(names, statuses, name);
        if names.last() == name {
            assert(longer.drop_last() =~= crate::project_state::query::statuses_under(n, statuses, name));
        }
    }
}

proof fn shorter_statuses(
    names: Seq<Seq<char>>,
    statuses: Seq<GoalStatus>,
    shorter: Seq<GoalStatus>,
    name: Seq<char>,
)
    requires
        names.len() <= shorter.len() <= statuses.len(),
        shorter == statuses.take(shorter.len() as int),
    ensures
        crate::project_state::query::statuses_under(names, statuses, name) == crate::project_state::query::statuses_under(names, shorter, name),
    decreases names.len(),
{
    if names.len() > 0 {
        shorter_statuses(names.drop_last(), statuses, shorter, name);
    }
}

/// The goals in a status are those whose recorded status it is, each by its
/// key.
pub proof fn goals_are_found_by_their_status(
    keys: Seq<Seq<char>>,
    values: Seq<GoalSummaryProjection>,
    status: GoalStatus,
    key: Seq<char>,
)
    requires
        keys.len() <= values.len(),
    ensures
        crate::project_state::query::ids_in_status(keys, values, status).contains(key) == exists|i: int|
            0 <= i < keys.len() && (#[trigger] keys[i]) == key && values[i].goal.status == status,
    decreases keys.len(),
{
    if keys.len() > 0 {
        let rest = keys.drop_last();
        let last: int = keys.len() - 1;
        goals_are_found_by_their_status(rest, values, status, key);
        let before = crate::project_state::query::ids_in_status(rest, values, status);
        let all = crate::project_state::query::ids_in_status(keys, values, status);
        if before.contains(key) {
            let i = before.index_of(key);
            assert(all[i] == key);
            let k = choose|i: int|
                0 <= i < rest.len() && (#[trigger] rest[i]) == key && values[i].goal.status
                    == status;
            assert(keys[k] == key);
        }
        if values[last].goal.status == status {
            assert(all[all.len() - 1] == keys[last]);
        }
        if all.contains(key) && !before.contains(key) {
            let i = all.index_of(key);
            if i < before.len() {
                assert(before[i] == key);
            }
            assert(keys[last] == key);
        }
        if exists|i: int|
            0 <= i < keys.len() && (#[trigger] keys[i]) == key && values[i].goal.status == status {
            let i = choose|i: int|
                0 <= i < keys.len() && (#[trigger] keys[i]) == key && values[i].goal.status
                    == status;
            if i < last {
                assert(rest[i] == key);
            }
        }
    }
}

/// Every name that occurs, and no other, has a count for each status: as many as
/// there are rows with that name and that status.
pub proof fn every_name_has_the_counts_of_its_rows(
    names: Seq<Seq<char>>,
    statuses: Seq<GoalStatus>,
    stats: Map<Seq<char>, crate::model::StatusCounts>,
    name: Seq<char>,
    status: GoalStatus,
)
    requires
        crate::project_state::query::stats_are(names, statuses, stats),
        names.len() == statuses.len(),
    ensures
        stats.contains_key(name) == names.contains(name),
        stats.contains_key(name) ==> stats[name].count(status) == names.zip_with(statuses).filter(
            |row: (Seq<char>, GoalStatus)| row == (name, status),
        ).len(),
{
    names_are_counted_with_their_own_rows(names, statuses, name, status);
}

/// A choice offers every text that occurs and is not empty, once, in order.
pub proof fn choices_offer_what_occurs(
    texts: Seq<Seq<char>>,
    facet: Seq<Seq<char>>,
    text: Seq<char>,
    i: int,
    j: int,
)
    requires
        crate::project_state::query::facet_of(texts, facet),
        0 <= i < j < facet.len(),
    ensures
        facet.contains(text) == (text.len() > 0 && texts.contains(text)),
        crate::text::text_before(facet[i], facet[j]),
{
}

/// The choices of activity are taken from its actors, its categories and its
/// severities.
pub proof fn activity_is_chosen_by_its_fields(activity: Seq<ActivitySummaryProjection>, i: int)
    requires
        0 <= i < activity.len(),
    ensures
        ({
            let actors = crate::project_state::query::actors_of(activity);
            let categories = crate::project_state::query::categories_of(activity);
            let severities = crate::project_state::query::severities_of(activity);
            let entry = activity[i].entry;
            &&& actors.len() == activity.len()
            &&& categories.len() == activity.len() && categories[i] == entry.category@
            &&& severities.len() == activity.len() && severities[i] == entry.severity@
            &&& entry.actor is Some ==> actors[i] == (entry.actor->0)@
            &&& entry.actor is None ==> actors[i].len() == 0
        }),
{
    if activity[i].entry.actor is Some && (activity[i].entry.actor->0)@.len() == 0 {
        assert(Seq::<char>::empty() =~= (activity[i].entry.actor->0)@);
    }
}

} // verus!

//! Changes to many goals at once.
use vstd::prelude::*;

use crate::clock::timestamp;
use crate::errors::{goal_not_found_error, RefineError, RefineResult};
use crate::json::{clone_json, Json};
use crate::model::{FeatureSummaryProjection, GoalStatus, GoalSummaryProjection, ProjectionSnapshot};
use crate::project_state::ordering::{sort_positions, SortKey, SortValue};
use crate::text::{cat2, cat3, list_contains, text_eq, trim, uppercase};
use crate::work_items::{not_an_object_error, FileWorkItemService};

verus! {

/// Which goals a bulk change of status leaves alone.
#[derive(Clone, Copy, Debug, PartialEq, Eq, Structural)]
pub enum BulkGoalStatusProtection {
    Unprotected,
    Automated,
    WorkflowOwned,
}

/// Which records a bulk change is asked for: named ones, or all that a filter
/// matches, but for the excluded ones.
#[derive(Debug)]
pub struct BulkSelection {
    pub selected_ids: Option<Vec<String>>,
    pub exclude_ids: Vec<String>,
    /// The ids of the records that the filter matches.
    pub matching_ids: Vec<String>,
}

/// A goal that a bulk change left alone.
#[derive(Debug)]
pub struct BulkSkippedDetail {
    pub id: String,
    pub reason: String,
}

/// The goals that a bulk change takes, and those it leaves alone.
#[derive(Debug)]
pub struct BulkGoals {
    pub goals: Vec<GoalSummaryProjection>,
    pub skipped: Vec<BulkSkippedDetail>,
}

/// What a bulk change of status makes of one goal.
pub enum BulkGoalStatusMutation {
    /// The record to write, unless nothing changed.
    Updated(Option<Json>),
    Skipped(String),
}

/// What a bulk change makes of one goal, by its contents.
pub ghost enum BulkMutationView {
    Updated(Option<crate::json::JsonView>),
    Skipped(Seq<char>),
}

impl View for BulkGoalStatusMutation {
    type V = BulkMutationView;

    open spec fn view(&self) -> BulkMutationView {
        match self {
            BulkGoalStatusMutation::Updated(None) => BulkMutationView::Updated(None),
            BulkGoalStatusMutation::Updated(Some(record)) => BulkMutationView::Updated(
                Some(record@),
            ),
            BulkGoalStatusMutation::Skipped(reason) => BulkMutationView::Skipped(reason@),
        }
    }
}

/// What is known of a goal before a bulk change of its status.
pub struct BulkStatusFacts {
    /// Where the record is stored.
    pub path: String,
    /// The record, as it was read.
    pub record: RefineResult<Json>,
    /// The active node, as the node registry tells it.
    pub registered_node: RefineResult<String>,
    /// The statuses that automation owns.
    pub automated: Vec<GoalStatus>,
    /// The active claim on the goal, where there is one.
    pub claim: RefineResult<Option<String>>,
    /// The last workflow status before the current one.
    pub last_workflow_status: GoalStatus,
}

/// An id as it is compared: trimmed and in upper case.
pub open spec fn plain_id(id: Seq<char>) -> Seq<char> {
    crate::text::uppercased(crate::text::trimmed(id))
}

/// Ids as they are compared.
pub open spec fn plain_ids(ids: Seq<String>) -> Seq<Seq<char>> {
    ids.map_values(|i: String| plain_id(i@))
}

/// An id is among those that are excluded.
pub open spec fn excluded(ids: Seq<Seq<char>>, id: Seq<char>) -> bool {
    id.len() > 0 && ids.contains(id)
}

/// The goals with given plain ids that are not excluded, or the refusal of the
/// first unknown one.
pub open spec fn named_goals(
    goals: Map<Seq<char>, GoalSummaryProjection>,
    ids: Seq<Seq<char>>,
    exclude: Seq<Seq<char>>,
) -> Result<Seq<crate::model::GoalSummaryView>, crate::errors::ErrorView>
    decreases ids.len(),
{
    if ids.len() == 0 {
        Ok(Seq::empty())
    } else {
        match named_goals(goals, ids.drop_last(), exclude) {
            Err(e) => Err(e),
            Ok(before) => {
                let id = ids.last();
                if id.len() == 0 || excluded(exclude, id) {
                    Ok(before)
                } else if goals.contains_key(id) {
                    Ok(before.push(goals[id]@))
                } else {
                    Err(crate::errors::goal_not_found(id))
                }
            },
        }
    }
}

/// Tells the goals that a filter matches and that are not excluded.
pub open spec fn goal_taken(matching: Seq<Seq<char>>, exclude: Seq<Seq<char>>) -> spec_fn(
    GoalSummaryProjection,
) -> bool {
    |g: GoalSummaryProjection| !excluded(exclude, g.goal.id@) && matching.contains(g.goal.id@)
}

/// Goal summaries by their contents.
pub open spec fn goal_views(goals: Seq<GoalSummaryProjection>) -> Seq<crate::model::GoalSummaryView> {
    goals.map_values(|g: GoalSummaryProjection| g@)
}

/// The selected goals, before they are sorted.
pub open spec fn chosen_goals(snapshot: ProjectionSnapshot, selection: BulkSelection) -> Result<
    Seq<crate::model::GoalSummaryView>,
    crate::errors::ErrorView,
> {
    match selection.selected_ids {
        Some(ids) => named_goals(
            snapshot.goals@,
            plain_ids(ids@),
            plain_ids(selection.exclude_ids@),
        ),
        None => Ok(
            goal_views(
                snapshot.goals.values().filter(
                    goal_taken(
                        crate::text::views(selection.matching_ids@),
                        plain_ids(selection.exclude_ids@),
                    ),
                ),
            ),
        ),
    }
}

/// The order of goals by id.
pub open spec fn goal_id_key() -> spec_fn(
    crate::model::GoalSummaryView,
) -> crate::project_state::ordering::SortKeyView {
    |g: crate::model::GoalSummaryView|
        crate::project_state::ordering::SortKeyView {
            value: crate::project_state::ordering::SortValueView::Text(g.goal.id@),
            id: g.goal.id@,
        }
}

/// A status that a bulk change leaves alone.
pub open spec fn protected(
    status: GoalStatus,
    protection: BulkGoalStatusProtection,
    automated: Seq<GoalStatus>,
) -> bool {
    automated.contains(status) || (protection == BulkGoalStatusProtection::WorkflowOwned && (status
        == GoalStatus::Review || status == GoalStatus::Done))
}

/// Tells the goals that a bulk change takes.
pub open spec fn goal_kept(
    protection: BulkGoalStatusProtection,
    automated: Seq<GoalStatus>,
) -> spec_fn(crate::model::GoalSummaryView) -> bool {
    |g: crate::model::GoalSummaryView|
        protection == BulkGoalStatusProtection::Unprotected || !protected(
            g.goal.status,
            protection,
            automated,
        )
}

/// Tells the goals that a bulk change leaves alone.
pub open spec fn goal_skipped(
    protection: BulkGoalStatusProtection,
    automated: Seq<GoalStatus>,
) -> spec_fn(crate::model::GoalSummaryView) -> bool {
    |g: crate::model::GoalSummaryView| !goal_kept(protection, automated)(g)
}

/// Goals in the order of their ids.
pub open spec fn by_goal_id(goals: Seq<crate::model::GoalSummaryView>) -> Seq<
    crate::model::GoalSummaryView,
> {
    crate::project_state::ordering::arranged(goals, goals.map_values(goal_id_key()), true)
}

/// Why a goal was left alone.
pub open spec fn skip_reason(goal: crate::model::GoalSummaryView) -> (Seq<char>, Seq<char>) {
    (goal.goal.id@, "status:"@ + crate::model::status_name(goal.goal.status))
}

/// The reasons of goals that were left alone.
pub open spec fn skip_views(skipped: Seq<BulkSkippedDetail>) -> Seq<(Seq<char>, Seq<char>)> {
    skipped.map_values(|d: BulkSkippedDetail| (d.id@, d.reason@))
}

/// The features with given plain ids that are not excluded, or the refusal of
/// the first unknown one.
pub open spec fn named_features(
    features: Map<Seq<char>, FeatureSummaryProjection>,
    ids: Seq<Seq<char>>,
    exclude: Seq<Seq<char>>,
) -> Result<Seq<crate::model::FeatureSummaryView>, crate::errors::ErrorView>
    decreases ids.len(),
{
    if ids.len() == 0 {
        Ok(Seq::empty())
    } else {
        match named_features(features, ids.drop_last(), exclude) {
            Err(e) => Err(e),
            Ok(before) => {
                let id = ids.last();
                if id.len() == 0 || excluded(exclude, id) {
                    Ok(before)
                } else if features.contains_key(id) {
                    Ok(before.push(features[id]@))
                } else {
                    Err(feature_not_found(id))
                }
            },
        }
    }
}

/// The refusal for a feature that the projection does not hold.
pub open spec fn feature_not_found(feature_id: Seq<char>) -> crate::errors::ErrorView {
    crate::errors::ErrorView::NotFound("Feature "@ + feature_id + " was not found in refine state"@)
}

/// Builds the refusal for an unknown feature.
pub fn feature_not_found_error(feature_id: &str) -> (r: RefineError)
    ensures
        r@ == feature_not_found(feature_id@),
{
    RefineError::NotFound(cat3("Feature ", feature_id, " was not found in refine state"))
}

/// Tells the features that a filter matches and that are not excluded.
pub open spec fn feature_taken(matching: Seq<Seq<char>>, exclude: Seq<Seq<char>>) -> spec_fn(
    FeatureSummaryProjection,
) -> bool {
    |f: FeatureSummaryProjection|
        !excluded(exclude, f.feature.id@) && matching.contains(f.feature.id@)
}

/// The selected features, before they are sorted. A filter asks for the active
/// node, so it selects nothing where that cannot be told.
pub open spec fn chosen_features(
    service: FileWorkItemService,
    snapshot: ProjectionSnapshot,
    selection: BulkSelection,
    registered: RefineResult<String>,
) -> Result<Seq<crate::model::FeatureSummaryView>, crate::errors::ErrorView> {
    match selection.selected_ids {
        Some(ids) => named_features(
            snapshot.features@,
            plain_ids(ids@),
            plain_ids(selection.exclude_ids@),
        ),
        None => match crate::work_items::active_node(service, registered) {
            Err(e) => Err(e),
            Ok(_) => Ok(
                crate::project_state::query::feature_views(
                    snapshot.features.values().filter(
                        feature_taken(
                            crate::text::views(selection.matching_ids@),
                            plain_ids(selection.exclude_ids@),
                        ),
                    ),
                ),
            ),
        },
    }
}

/// Features in the order of their ids.
pub open spec fn by_feature_id(features: Seq<crate::model::FeatureSummaryView>) -> Seq<
    crate::model::FeatureSummaryView,
> {
    crate::project_state::ordering::arranged(
        features,
        features.map_values(crate::project_state::query::feature_order("id"@)),
        true,
    )
}

/// The status that a record holds; the backlog where it holds none.
pub open spec fn record_status(record: crate::json::JsonView) -> GoalStatus {
    match crate::json::text_field(record, "status"@) {
        Some(text) => match crate::model::status_named(text) {
            Some(status) => status,
            None => GoalStatus::Backlog,
        },
        None => GoalStatus::Backlog,
    }
}

/// A text under a key, unless it is empty.
pub open spec fn named_owner(record: crate::json::JsonView, key: Seq<char>) -> Option<Seq<char>> {
    match crate::json::text_field(record, key) {
        Some(t) => if t.len() == 0 { None } else { Some(t) },
        None => None,
    }
}

/// The node that owns a record: by its node, else by its instance.
pub open spec fn record_owner(record: crate::json::JsonView) -> Seq<char> {
    match named_owner(record, "node_id"@) {
        Some(node) => node,
        None => match named_owner(record, "instance_id"@) {
            Some(node) => node,
            None => "default"@,
        },
    }
}

/// The status that a bulk change asks for.
pub open spec fn bulk_target(raw: Seq<char>, last: GoalStatus) -> Option<GoalStatus> {
    if raw == "__last_workflow_state"@ {
        Some(last)
    } else {
        crate::model::status_named(raw)
    }
}

/// What a bulk change of status makes of a goal.
pub open spec fn bulk_mutation(
    service: FileWorkItemService,
    facts: BulkStatusFacts,
    raw_target: Seq<char>,
    protection: BulkGoalStatusProtection,
    now: Seq<char>,
) -> Result<BulkMutationView, crate::errors::ErrorView> {
    match facts.record {
        Err(e) => Err(e@),
        Ok(value) => if !(value@ is Object) {
            Err(crate::work_items::not_an_object("Goal"@, facts.path@))
        } else {
            match crate::work_items::active_node(service, facts.registered_node) {
                Err(e) => Err(e),
                Ok(active) => {
                    let status = record_status(value@);
                    let owner = record_owner(value@);
                    if owner != active {
                        Ok(BulkMutationView::Skipped("node:"@ + owner))
                    } else if protected(status, protection, facts.automated@) {
                        Ok(
                            BulkMutationView::Skipped(
                                "status:"@ + crate::model::status_name(status),
                            ),
                        )
                    } else {
                        match (service.active_node_root, facts.claim) {
                            (Some(_), Err(e)) => Err(e@),
                            (Some(_), Ok(Some(claim))) => Ok(
                                BulkMutationView::Skipped("claim:"@ + claim@),
                            ),
                            _ => match bulk_target(raw_target, facts.last_workflow_status) {
                                None => Err(
                                    crate::errors::ErrorView::InvalidInput("invalid status"@),
                                ),
                                Some(target) => Ok(
                                    BulkMutationView::Updated(
                                        if target != status || raw_target
                                            != "__last_workflow_state"@ {
                                            Some(
                                                crate::work_items::records::with_status(
                                                    value@,
                                                    target,
                                                    now,
                                                ),
                                            )
                                        } else {
                                            None
                                        },
                                    ),
                                ),
                            },
                        }
                    }
                },
            }
        },
    }
}

fn plain(ids: &Vec<String>) -> (r: Vec<String>)
    ensures
        crate::text::views(r@) == plain_ids(ids@),
{
    let mut out: Vec<String> = Vec::new();
    let mut i: usize = 0;
    while i < ids.len()
        invariant
            i <= ids.len(),
            out@.len() == i,
            forall|j: int| 0 <= j < i ==> (#[trigger] out@[j])@ == plain_id(ids@[j]@),
        decreases ids.len() - i,
    {
        out.push(uppercase(trim(ids[i].as_str())));
        i = i + 1;
    }
    assert(crate::text::views(out@) =~= plain_ids(ids@));
    out
}

fn is_excluded(ids: &Vec<String>, id: &str) -> (r: bool)
    ensures
        r == excluded(crate::text::views(ids@), id@),
{
    !id.is_empty() && list_contains(ids, id)
}

fn is_automated(automated: &Vec<GoalStatus>, status: GoalStatus) -> (r: bool)
    ensures
        r == automated@.contains(status),
{
    let mut i: usize = 0;
    while i < automated.len()
        invariant
            i <= automated.len(),
            forall|j: int| 0 <= j < i ==> #[trigger] automated@[j] != status,
        decreases automated.len() - i,
    {
        if automated[i] == status {
            assert(automated@[i as int] == status);
            return true;
        }
        i = i + 1;
    }
    false
}

fn is_protected(
    status: GoalStatus,
    protection: BulkGoalStatusProtection,
    automated: &Vec<GoalStatus>,
) -> (r: bool)
    ensures
        r == protected(status, protection, automated@),
{
    is_automated(automated, status) || (protection == BulkGoalStatusProtection::WorkflowOwned && (
    status == GoalStatus::Review || status == GoalStatus::Done))
}

proof fn an_unknown_goal_stops_the_rest(
    goals: Map<Seq<char>, GoalSummaryProjection>,
    ids: Seq<Seq<char>>,
    exclude: Seq<Seq<char>>,
    n: int,
)
    requires
        0 <= n <= ids.len(),
        named_goals(goals, ids.take(n), exclude) is Err,
    ensures
        named_goals(goals, ids, exclude) == named_goals(goals, ids.take(n), exclude),
    decreases ids.len() - n,
{
    if n < ids.len() {
        assert(ids.take(n + 1).drop_last() =~= ids.take(n));
        an_unknown_goal_stops_the_rest(goals, ids, exclude, n + 1);
    } else {
        assert(ids.take(n) =~= ids);
    }
}

proof fn an_unknown_feature_stops_the_rest(
    features: Map<Seq<char>, FeatureSummaryProjection>,
    ids: Seq<Seq<char>>,
    exclude: Seq<Seq<char>>,
    n: int,
)
    requires
        0 <= n <= ids.len(),
        named_features(features, ids.take(n), exclude) is Err,
    ensures
        named_features(features, ids, exclude) == named_features(features, ids.take(n), exclude),
    decreases ids.len() - n,
{
    if n < ids.len() {
        assert(ids.take(n + 1).drop_last() =~= ids.take(n));
        an_unknown_feature_stops_the_rest(features, ids, exclude, n + 1);
    } else {
        assert(ids.take(n) =~= ids);
    }
}

/// The goals with given plain ids that are not among the excluded ones.
pub fn goals_with_ids(
    snapshot: &ProjectionSnapshot,
    ids: &Vec<String>,
    exclude: &Vec<String>,
) -> (r: RefineResult<Vec<GoalSummaryProjection>>)
    ensures
        match r {
            Ok(goals) => named_goals(snapshot.goals@, crate::text::views(ids@), crate::text::views(exclude@)) == Ok::<
                _,
                crate::errors::ErrorView,
            >(goal_views(goals@)),
            Err(e) => named_goals(snapshot.goals@, crate::text::views(ids@), crate::text::views(exclude@)) == Err::<
                Seq<crate::model::GoalSummaryView>,
                _,
            >(e@),
        },
{
    let ghost names = crate::text::views(ids@);
    let ghost left_out = crate::text::views(exclude@);
    let mut out: Vec<GoalSummaryProjection> = Vec::new();
    let mut i: usize = 0;
    assert(names.take(0) =~= Seq::empty());
    assert(goal_views(out@) =~= Seq::empty());
    while i < ids.len()
        invariant
            i <= ids.len(),
            names == crate::text::views(ids@),
            left_out == crate::text::views(exclude@),
            named_goals(snapshot.goals@, names.take(i as int), left_out) == Ok::<
                _,
                crate::errors::ErrorView,
            >(goal_views(out@)),
        decreases ids.len() - i,
    {
        assert(names.take(i as int + 1).drop_last() =~= names.take(i as int));
        let id = &ids[i];
        if !id.as_str().is_empty() && !is_excluded(exclude, id.as_str()) {
            match snapshot.goals.get(id.as_str()) {
                Some(goal) => {
                    let ghost before = out@;
                    let copy = goal.clone();
                    out.push(copy);
                    assert(goal_views(out@) =~= goal_views(before).push(goal@));
                },
                None => {
                    proof {
                        an_unknown_goal_stops_the_rest(
                            snapshot.goals@,
                            names,
                            left_out,
                            i as int + 1,
                        );
                    }
                    return Err(goal_not_found_error(id.as_str()));
                },
            }
        }
        i = i + 1;
    }
    assert(names.take(ids.len() as int) =~= names);
    Ok(out)
}

/// The goals that a filter matches and that are not among the excluded plain
/// ids.
pub fn matching_goals(
    snapshot: &ProjectionSnapshot,
    matching: &Vec<String>,
    exclude: &Vec<String>,
) -> (r: Vec<GoalSummaryProjection>)
    ensures
        goal_views(r@) == goal_views(snapshot.goals.values().filter(goal_taken(crate::text::views(matching@), crate::text::views(exclude@)))),
{
    let ghost p = goal_taken(crate::text::views(matching@), crate::text::views(exclude@));
    let ghost values = snapshot.goals.values();
    let n: usize = snapshot.goals.len();
    let mut out: Vec<GoalSummaryProjection> = Vec::new();
    let mut i: usize = 0;
    proof {
        crate::lists::no_match_at_first(values, p);
    }
    assert(goal_views(out@) =~= goal_views(values.take(0).filter(p)));
    while i < n
        invariant
            i <= n == snapshot.goals.keys().len() == snapshot.goals.values().len(),
            values == snapshot.goals.values(),
            p == goal_taken(crate::text::views(matching@), crate::text::views(exclude@)),
            goal_views(out@) == goal_views(values.take(i as int).filter(p)),
        decreases n - i,
    {
        proof {
            crate::lists::matches_grow(values, p, i as int);
        }
        let goal = snapshot.goals.value_at(i);
        if !is_excluded(exclude, goal.goal.id.as_str()) && list_contains(
            matching,
            goal.goal.id.as_str(),
        ) {
            let ghost before = out@;
            let ghost short = values.take(i as int).filter(p);
            out.push(goal.clone());
            assert(goal_views(out@) =~= goal_views(before).push(goal@));
            assert(goal_views(short.push(*goal)) =~= goal_views(short).push(goal@));
        }
        i = i + 1;
    }
    assert(values.take(n as int) =~= values);
    out
}

/// The features with given plain ids that are not among the excluded ones.
pub fn features_with_ids(
    snapshot: &ProjectionSnapshot,
    ids: &Vec<String>,
    exclude: &Vec<String>,
) -> (r: RefineResult<Vec<FeatureSummaryProjection>>)
    ensures
        match r {
            Ok(features) => named_features(snapshot.features@, crate::text::views(ids@), crate::text::views(exclude@)) == Ok::<
                _,
                crate::errors::ErrorView,
            >(crate::project_state::query::feature_views(features@)),
            Err(e) => named_features(snapshot.features@, crate::text::views(ids@), crate::text::views(exclude@)) == Err::<
                Seq<crate::model::FeatureSummaryView>,
                _,
            >(e@),
        },
{
    let ghost names = crate::text::views(ids@);
    let ghost left_out = crate::text::views(exclude@);
    let mut out: Vec<FeatureSummaryProjection> = Vec::new();
    let mut i: usize = 0;
    assert(names.take(0) =~= Seq::empty());
    assert(crate::project_state::query::feature_views(out@) =~= Seq::empty());
    while i < ids.len()
        invariant
            i <= ids.len(),
            names == crate::text::views(ids@),
            left_out == crate::text::views(exclude@),
            named_features(snapshot.features@, names.take(i as int), left_out) == Ok::<
                _,
                crate::errors::ErrorView,
            >(crate::project_state::query::feature_views(out@)),
        decreases ids.len() - i,
    {
        assert(names.take(i as int + 1).drop_last() =~= names.take(i as int));
        let id = &ids[i];
        if !id.as_str().is_empty() && !is_excluded(exclude, id.as_str()) {
            match snapshot.features.get(id.as_str()) {
                Some(feature) => {
                    let ghost before = out@;
                    out.push(feature.clone());
                    assert(crate::project_state::query::feature_views(out@)
                        =~= crate::project_state::query::feature_views(before).push(feature@));
                },
                None => {
                    proof {
                        an_unknown_feature_stops_the_rest(
                            snapshot.features@,
                            names,
                            left_out,
                            i as int + 1,
                        );
                    }
                    return Err(feature_not_found_error(id.as_str()));
                },
            }
        }
        i = i + 1;
    }
    assert(names.take(ids.len() as int) =~= names);
    Ok(out)
}

/// The features that a filter matches and that are not among the excluded plain
/// ids.
pub fn matching_features(
    snapshot: &ProjectionSnapshot,
    matching: &Vec<String>,
    exclude: &Vec<String>,
) -> (r: Vec<FeatureSummaryProjection>)
    ensures
        crate::project_state::query::feature_views(r@)
            == crate::project_state::query::feature_views(
            snapshot.features.values().filter(feature_taken(crate::text::views(matching@), crate::text::views(exclude@))),
        ),
{
    let ghost p = feature_taken(crate::text::views(matching@), crate::text::views(exclude@));
    let ghost values = snapshot.features.values();
    let n: usize = snapshot.features.len();
    let mut out: Vec<FeatureSummaryProjection> = Vec::new();
    let mut i: usize = 0;
    proof {
        crate::lists::no_match_at_first(values, p);
    }
    assert(crate::project_state::query::feature_views(out@)
        =~= crate::project_state::query::feature_views(values.take(0).filter(p)));
    while i < n
        invariant
            i <= n == snapshot.features.keys().len() == snapshot.features.values().len(),
            values == snapshot.features.values(),
            p == feature_taken(crate::text::views(matching@), crate::text::views(exclude@)),
            crate::project_state::query::feature_views(out@)
                == crate::project_state::query::feature_views(values.take(i as int).filter(p)),
        decreases n - i,
    {
        proof {
            crate::lists::matches_grow(values, p, i as int);
        }
        let feature = snapshot.features.value_at(i);
        if !is_excluded(exclude, feature.feature.id.as_str()) && list_contains(
            matching,
            feature.feature.id.as_str(),
        ) {
            let ghost before = out@;
            let ghost short = values.take(i as int).filter(p);
            out.push(feature.clone());
            assert(crate::project_state::query::feature_views(out@)
                =~= crate::project_state::query::feature_views(before).push(feature@));
            assert(crate::project_state::query::feature_views(short.push(*feature))
                =~= crate::project_state::query::feature_views(short).push(feature@));
        }
        i = i + 1;
    }
    assert(values.take(n as int) =~= values);
    out
}

fn sort_goals_by_id(goals: &Vec<GoalSummaryProjection>) -> (r: Vec<GoalSummaryProjection>)
    ensures
        goal_views(r@) == by_goal_id(goal_views(goals@)),
{
    let ghost views = goal_views(goals@);
    let mut keys: Vec<SortKey> = Vec::new();
    let mut i: usize = 0;
    while i < goals.len()
        invariant
            i <= goals.len(),
            keys@.len() == i,
            views == goal_views(goals@),
            forall|j: int| 0 <= j < i ==> (#[trigger] keys@[j])@ == goal_id_key()(views[j]),
        decreases goals.len() - i,
    {
        keys.push(
            SortKey {
                value: SortValue::Text(goals[i].goal.id.clone()),
                id: goals[i].goal.id.clone(),
            },
        );
        i = i + 1;
    }
    assert(crate::project_state::ordering::key_views(keys@) =~= views.map_values(goal_id_key()));
    let order = sort_positions(&keys, true);
    let ghost sorted = by_goal_id(views);
    let mut out: Vec<GoalSummaryProjection> = Vec::new();
    let mut k: usize = 0;
    assert(sorted.len() == order@.len());
    while k < order.len()
        invariant
            k <= order@.len() == goals@.len() == sorted.len(),
            out@.len() == k,
            views == goal_views(goals@),
            forall|j: int| 0 <= j < order@.len() ==> #[trigger] order@[j] < goals@.len(),
            forall|j: int|
                0 <= j < order@.len() ==> #[trigger] sorted[j] == views[order@[j] as int],
            forall|j: int| 0 <= j < k ==> (#[trigger] out@[j])@ == sorted[j],
        decreases order.len() - k,
    {
        let at: usize = order[k];
        assert(sorted[k as int] == views[at as int]);
        out.push(goals[at].clone());
        k = k + 1;
    }
    assert(goal_views(out@) =~= sorted);
    out
}

fn sort_features_by_id(features: &Vec<FeatureSummaryProjection>) -> (r: Vec<
    FeatureSummaryProjection,
>)
    ensures
        crate::project_state::query::feature_views(r@) == by_feature_id(
            crate::project_state::query::feature_views(features@),
        ),
{
    let ghost views = crate::project_state::query::feature_views(features@);
    let mut keys: Vec<SortKey> = Vec::new();
    let mut i: usize = 0;
    while i < features.len()
        invariant
            i <= features.len(),
            keys@.len() == i,
            views == crate::project_state::query::feature_views(features@),
            forall|j: int|
                0 <= j < i ==> (#[trigger] keys@[j])@
                    == crate::project_state::ordering::feature_key(views[j], "id"@),
        decreases features.len() - i,
    {
        keys.push(crate::project_state::ordering::feature_sort_key(&features[i], "id"));
        i = i + 1;
    }
    assert(crate::project_state::ordering::key_views(keys@) =~= views.map_values(
        crate::project_state::query::feature_order("id"@),
    ));
    let order = sort_positions(&keys, true);
    let ghost sorted = by_feature_id(views);
    let mut out: Vec<FeatureSummaryProjection> = Vec::new();
    let mut k: usize = 0;
    assert(sorted.len() == order@.len());
    while k < order.len()
        invariant
            k <= order@.len() == features@.len() == sorted.len(),
            out@.len() == k,
            views == crate::project_state::query::feature_views(features@),
            forall|j: int| 0 <= j < order@.len() ==> #[trigger] order@[j] < features@.len(),
            forall|j: int|
                0 <= j < order@.len() ==> #[trigger] sorted[j] == views[order@[j] as int],
            forall|j: int| 0 <= j < k ==> (#[trigger] out@[j])@ == sorted[j],
        decreases order.len() - k,
    {
        let at: usize = order[k];
        assert(sorted[k as int] == views[at as int]);
        out.push(features[at].clone());
        k = k + 1;
    }
    assert(crate::project_state::query::feature_views(out@) =~= sorted);
    out
}

fn owner_in(record: &Json) -> (r: &str)
    ensures
        r@ == record_owner(record@),
{
    if let Some(node) = record.get_text("node_id") {
        if !node.is_empty() {
            return node;
        }
    }
    if let Some(node) = record.get_text("instance_id") {
        if !node.is_empty() {
            return node;
        }
    }
    "default"
}

fn status_in(record: &Json) -> (r: GoalStatus)
    ensures
        r == record_status(record@),
{
    match record.get_text("status") {
        Some(text) => match GoalStatus::parse_wire(text) {
            Some(status) => status,
            None => GoalStatus::Backlog,
        },
        None => GoalStatus::Backlog,
    }
}

impl FileWorkItemService {
    /// The goals that a bulk change takes and those it leaves alone, each in
    /// the order of their ids.
    pub fn select_bulk_goal_summaries(
        &self,
        snapshot: &ProjectionSnapshot,
        selection: &BulkSelection,
        protection: BulkGoalStatusProtection,
        automated: &Vec<GoalStatus>,
    ) -> (r: RefineResult<BulkGoals>)
        ensures
            match r {
                Ok(bulk) => {
                    &&& chosen_goals(*snapshot, *selection) is Ok
                    &&& goal_views(bulk.goals@) == by_goal_id(
                        chosen_goals(*snapshot, *selection)->Ok_0,
                    ).filter(goal_kept(protection, automated@))
                    &&& skip_views(bulk.skipped@) == by_goal_id(
                        chosen_goals(*snapshot, *selection)->Ok_0,
                    ).filter(goal_skipped(protection, automated@)).map_values(
                        |g: crate::model::GoalSummaryView| skip_reason(g),
                    )
                },
                Err(e) => chosen_goals(*snapshot, *selection) == Err::<
                    Seq<crate::model::GoalSummaryView>,
                    _,
                >(e@),
            },
    {
        let exclude = plain(&selection.exclude_ids);
        let chosen = match &selection.selected_ids {
            Some(ids) => match goals_with_ids(snapshot, &plain(ids), &exclude) {
                Ok(goals) => goals,
                Err(e) => {
                    return Err(e);
                },
            },
            None => matching_goals(snapshot, &selection.matching_ids, &exclude),
        };
        let sorted = sort_goals_by_id(&chosen);
        let ghost views = goal_views(sorted@);
        let ghost kept = goal_kept(protection, automated@);
        let ghost left = goal_skipped(protection, automated@);
        let ghost why = |g: crate::model::GoalSummaryView| skip_reason(g);
        let mut goals: Vec<GoalSummaryProjection> = Vec::new();
        let mut skipped: Vec<BulkSkippedDetail> = Vec::new();
        let mut i: usize = 0;
        proof {
            crate::lists::no_match_at_first(views, kept);
            crate::lists::no_match_at_first(views, left);
        }
        assert(goal_views(goals@) =~= views.take(0).filter(kept));
        assert(skip_views(skipped@) =~= views.take(0).filter(left).map_values(why));
        while i < sorted.len()
            invariant
                i <= sorted.len(),
                views == goal_views(sorted@),
                kept == goal_kept(protection, automated@),
                left == goal_skipped(protection, automated@),
                why == (|g: crate::model::GoalSummaryView| skip_reason(g)),
                goal_views(goals@) == views.take(i as int).filter(kept),
                skip_views(skipped@) == views.take(i as int).filter(left).map_values(why),
            decreases sorted.len() - i,
        {
            proof {
                crate::lists::matches_grow(views, kept, i as int);
                crate::lists::matches_grow(views, left, i as int);
            }
            let goal = &sorted[i];
            assert(views[i as int] == goal@);
            if protection != BulkGoalStatusProtection::Unprotected && is_protected(
                goal.goal.status,
                protection,
                automated,
            ) {
                let ghost before = skipped@;
                let ghost short = views.take(i as int).filter(left);
                skipped.push(
                    BulkSkippedDetail {
                        id: goal.goal.id.clone(),
                        reason: cat2("status:", goal.goal.status.as_str()),
                    },
                );
                assert(skip_views(skipped@) =~= skip_views(before).push(skip_reason(goal@)));
                assert(short.push(goal@).map_values(why) =~= short.map_values(why).push(
                    skip_reason(goal@),
                ));
            } else {
                let ghost before = goals@;
                goals.push(goal.clone());
                assert(goal_views(goals@) =~= goal_views(before).push(goal@));
            }
            i = i + 1;
        }
        assert(views.take(sorted.len() as int) =~= views);
        Ok(BulkGoals { goals, skipped })
    }

    /// The features that a bulk change takes, in the order of their ids.
    pub fn select_bulk_feature_summaries(
        &self,
        snapshot: &ProjectionSnapshot,
        selection: &BulkSelection,
        registered: &RefineResult<String>,
    ) -> (r: RefineResult<Vec<FeatureSummaryProjection>>)
        ensures
            match r {
                Ok(features) => {
                    let chosen = chosen_features(*self, *snapshot, *selection, *registered);
                    chosen is Ok && crate::project_state::query::feature_views(features@)
                        == by_feature_id(chosen->Ok_0)
                },
                Err(e) => chosen_features(*self, *snapshot, *selection, *registered) == Err::<
                    Seq<crate::model::FeatureSummaryView>,
                    _,
                >(e@),
            },
    {
        let exclude = plain(&selection.exclude_ids);
        let chosen = match &selection.selected_ids {
            Some(ids) => match features_with_ids(snapshot, &plain(ids), &exclude) {
                Ok(features) => features,
                Err(e) => {
                    return Err(e);
                },
            },
            None => match self.active_node_id(registered) {
                Ok(_) => matching_features(snapshot, &selection.matching_ids, &exclude),
                Err(e) => {
                    return Err(e);
                },
            },
        };
        Ok(sort_features_by_id(&chosen))
    }

    /// What a bulk change of status makes of a goal, as of a given time.
    pub fn mutate_bulk_goal_status_if_eligible_at(
        &self,
        facts: &BulkStatusFacts,
        raw_target: &str,
        protection: BulkGoalStatusProtection,
        now: &str,
    ) -> (r: RefineResult<BulkGoalStatusMutation>)
        ensures
            crate::errors::viewed(r) == bulk_mutation(
                *self,
                *facts,
                raw_target@,
                protection,
                now@,
            ),
    {
        let value = match &facts.record {
            Ok(value) => value,
            Err(e) => {
                return Err(e.clone());
            },
        };
        if !value.is_object() {
            return Err(not_an_object_error("Goal", facts.path.as_str()));
        }
        let status = status_in(value);
        let owner = owner_in(value);
        let active = match self.active_node_id(&facts.registered_node) {
            Ok(active) => active,
            Err(e) => {
                return Err(e);
            },
        };
        if !text_eq(owner, active.as_str()) {
            return Ok(BulkGoalStatusMutation::Skipped(cat2("node:", owner)));
        }
        if is_protected(status, protection, &facts.automated) {
            return Ok(BulkGoalStatusMutation::Skipped(cat2("status:", status.as_str())));
        }
        if self.active_node_root.is_some() {
            match &facts.claim {
                Err(e) => {
                    return Err(e.clone());
                },
                Ok(Some(claim)) => {
                    return Ok(BulkGoalStatusMutation::Skipped(cat2("claim:", claim.as_str())));
                },
                Ok(None) => {},
            }
        }
        let last = text_eq(raw_target, "__last_workflow_state");
        let target = if last {
            facts.last_workflow_status
        } else {
            match GoalStatus::parse_wire(raw_target) {
                Some(target) => target,
                None => {
                    return Err(RefineError::InvalidInput("invalid status".to_owned()));
                },
            }
        };
        if target != status || !last {
            let mut record = clone_json(value);
            match self.write_goal_status_value_at(
                facts.path.as_str(),
                &mut record,
                &target,
                now,
            ) {
                Ok(()) => Ok(BulkGoalStatusMutation::Updated(Some(record))),
                Err(e) => Err(e),
            }
        } else {
            Ok(BulkGoalStatusMutation::Updated(None))
        }
    }

    /// What a bulk change of status makes of a goal.
    pub fn mutate_bulk_goal_status_if_eligible(
        &self,
        facts: &BulkStatusFacts,
        raw_target: &str,
        protection: BulkGoalStatusProtection,
    ) -> (r: RefineResult<BulkGoalStatusMutation>)
        ensures
            exists|now: Seq<char>|
                crate::errors::viewed(r) == #[trigger] bulk_mutation(
                    *self,
                    *facts,
                    raw_target@,
                    protection,
                    now,
                ),
    {
        let now = timestamp();
        self.mutate_bulk_goal_status_if_eligible_at(facts, raw_target, protection, now.as_str())
    }
}

/// A bulk change never writes a goal that another node owns, that automation
/// owns, or that has an active claim.
pub proof fn bulk_changes_spare_protected_goals(
    service: FileWorkItemService,
    facts: BulkStatusFacts,
    raw_target: Seq<char>,
    protection: BulkGoalStatusProtection,
    now: Seq<char>,
)
    requires
        bulk_mutation(service, facts, raw_target, protection, now) is Ok,
        bulk_mutation(service, facts, raw_target, protection, now)->Ok_0 is Updated,
    ensures
        facts.record is Ok,
        crate::work_items::active_node(service, facts.registered_node) == Ok::<
            _,
            crate::errors::ErrorView,
        >(record_owner(facts.record->Ok_0@)),
        !facts.automated@.contains(record_status(facts.record->Ok_0@)),
        service.active_node_root is Some ==> facts.claim is Ok && facts.claim->Ok_0 is None,
{
}

} // verus!

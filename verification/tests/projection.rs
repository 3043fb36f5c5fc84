use refine::model::{
    ActivityEntry, ActivitySummaryProjection, ChangeSummaryProjection, DashboardProjection,
    FeatureIndexProjection, FeatureRollup, FeatureSummaryProjection, GoalIndexProjection,
    GoalPriority, GoalStatus, GoalSummaryProjection, ProjectionSnapshot, SourceFingerprint,
    StatusCounts,
};
use refine::project_state::incremental::{
    fingerprint_matches, patch_projection, source_delta, ObservedSource, ObservedSources,
};
use refine::project_state::query::{
    any_text_holds, goal_matches_in, sort_goals, ActivityProjectionQuery, ChangeProjectionQuery,
    DashboardProjectionQuery, FeatureProjectionQuery, GoalProjectionQuery, PageRequest,
    ProjectionQuery, RecordSearch,
};
use refine::text_map::TextMap;

fn goal(id: &str, name: &str, status: GoalStatus) -> GoalSummaryProjection {
    GoalSummaryProjection {
        goal: GoalIndexProjection {
            id: id.to_string(),
            name: name.to_string(),
            status,
            priority: GoalPriority::Low,
            reporter: None,
            assignee: None,
            round_count: 0,
            created: "2026-01-01T00:00:00Z".to_string(),
            updated: "2026-01-01T00:00:00Z".to_string(),
            branch_name: None,
            node_id: None,
            feature_id: None,
            feature_order: None,
            json_path: format!("goals/{}/{}/goal.json", &id[..2], &id[2..]),
        },
        node_display_name: None,
        latest_round_prompt: None,
        searchable_text: name.to_string(),
        activity_ids: Vec::new(),
    }
}

fn feature(id: &str, name: &str) -> FeatureSummaryProjection {
    FeatureSummaryProjection {
        feature: FeatureIndexProjection {
            id: id.to_string(),
            name: name.to_string(),
            description: None,
            reporter: None,
            assignee: None,
            node_id: None,
            created: "2026-01-01T00:00:00Z".to_string(),
            updated: "2026-01-01T00:00:00Z".to_string(),
            json_path: format!("features/{id}/feature.json"),
        },
        status: GoalStatus::Todo,
        rollup: FeatureRollup { total: 2, done: 1, failed: 0, active: 1 },
        goal_ids: Vec::new(),
    }
}

fn entry(id: &str, severity: &str, category: &str, actor: Option<&str>, goal_id: Option<&str>) -> ActivitySummaryProjection {
    ActivitySummaryProjection {
        entry: ActivityEntry {
            id: id.to_string(),
            datetime: format!("2026-01-0{}T00:00:00Z", id.len()),
            severity: severity.to_string(),
            category: category.to_string(),
            message: format!("message of {id}"),
            actor: actor.map(str::to_string),
            goal_id: goal_id.map(str::to_string),
        },
        searchable_text: category.to_string(),
    }
}

fn change(commit: &str, order: u64, status: Option<GoalStatus>) -> ChangeSummaryProjection {
    ChangeSummaryProjection {
        commit: commit.to_string(),
        subject: format!("subject of {commit}"),
        branch: None,
        committed_time: "2026-01-01T00:00:00Z".to_string(),
        order,
        goal_id: None,
        goal_name: None,
        goal_status: status,
        goal_priority: None,
        goal_assignee: None,
        searchable_text: commit.to_string(),
    }
}

fn snapshot(goals: Vec<GoalSummaryProjection>) -> ProjectionSnapshot {
    let statuses = goals.iter().map(|g| g.goal.status).collect();
    let mut map = TextMap::new();
    for g in goals {
        map.insert(g.goal.id.clone(), g);
    }
    ProjectionSnapshot {
        version: 2,
        generated_at: "cached".to_string(),
        refine_dir: None,
        source_fingerprints: TextMap::new(),
        goals: map,
        features: TextMap::new(),
        activity: TextMap::new(),
        changes: TextMap::new(),
        dashboard: DashboardProjection {
            recent_activity_ids: Vec::new(),
            all_node_status_counts: StatusCounts::of(&statuses),
        },
    }
}

fn resident() -> RecordSearch {
    RecordSearch { incomplete: Vec::new(), matching: Vec::new() }
}

fn page(sort: &str, dir: &str, offset: usize, limit: usize) -> PageRequest {
    PageRequest { sort: sort.to_string(), dir: dir.to_string(), offset, limit }
}

fn all_goals(sort: &str, dir: &str) -> GoalProjectionQuery {
    GoalProjectionQuery {
        status: None,
        reporter: None,
        assignee: None,
        node: None,
        current_node_id: None,
        feature: None,
        rounds_gte: None,
        rounds_lte: None,
        severity: None,
        category: None,
        actor: None,
        q: None,
        page: page(sort, dir, 0, 100),
    }
}

fn fingerprint(path: &str, modified: u64) -> SourceFingerprint {
    SourceFingerprint {
        path: path.to_string(),
        size: 10,
        modified_unix_ms: modified,
        change_unix_ns: Some(modified),
        content_hash: None,
    }
}

fn observed(path: &str, modified: u64) -> ObservedSource {
    ObservedSource { rel_path: path.to_string(), fingerprint: fingerprint(path, modified) }
}

fn found(goals: Vec<ObservedSource>) -> ObservedSources {
    ObservedSources {
        goals,
        features: Vec::new(),
        logs: Vec::new(),
        activity: None,
        git_head: None,
    }
}

fn known(paths: &[(&str, u64)]) -> TextMap<SourceFingerprint> {
    let mut map = TextMap::new();
    for (path, modified) in paths {
        map.insert(path.to_string(), fingerprint(path, *modified));
    }
    map
}

const FIRST: &str = "goals/GO/AL1/goal.json";
const SECOND: &str = "goals/GO/AL2/goal.json";

#[test]
fn goal_writes_patch_the_projection_without_a_full_rebuild() {
    let cached = snapshot(vec![
        goal("GOAL1", "GOAL1 original", GoalStatus::Todo),
        goal("GOAL2", "GOAL2 original", GoalStatus::Todo),
    ]);
    let delta = source_delta(
        &known(&[(FIRST, 1), (SECOND, 1)]),
        &found(vec![observed(FIRST, 2), observed(SECOND, 1)]),
        "activity.jsonl",
    );
    assert!(!delta.is_empty());
    assert_eq!(delta.goals_changed, vec![FIRST]);
    assert!(delta.goals_added.is_empty());
    let reread = vec![Some(goal("GOAL1", "GOAL1 renamed", GoalStatus::Done))];

    let patch = patch_projection(cached, delta, "projection-incremental/.refine", &reread, &Vec::new());

    assert!(!patch.rescan_activity);
    assert!(!patch.rescan_changes);
    let patched = patch.snapshot;
    assert_eq!(patched.goals.get("GOAL1").unwrap().goal.name, "GOAL1 renamed");
    assert_eq!(patched.goals.get("GOAL1").unwrap().goal.status, GoalStatus::Done);
    assert_eq!(patched.goals.get("GOAL2").unwrap().goal.name, "GOAL2 original");
    assert_eq!(patched.dashboard.all_node_status_counts.get(&GoalStatus::Done), Some(1));
    assert_eq!(patched.dashboard.all_node_status_counts.get(&GoalStatus::Todo), Some(1));
    assert_eq!(patched.generated_at, "unknown");
    assert_eq!(patched.refine_dir.as_deref(), Some("projection-incremental/.refine"));

    let again = source_delta(
        &patched.source_fingerprints,
        &found(vec![observed(FIRST, 2), observed(SECOND, 1)]),
        "activity.jsonl",
    );
    assert!(again.is_empty());
}

#[test]
fn removing_a_goal_record_drops_it_from_the_patched_projection() {
    let cached = snapshot(vec![
        goal("GOAL1", "GOAL1", GoalStatus::Todo),
        goal("GOAL2", "GOAL2", GoalStatus::Todo),
    ]);
    let delta = source_delta(
        &known(&[(FIRST, 1), (SECOND, 1)]),
        &found(vec![observed(FIRST, 1)]),
        "activity.jsonl",
    );
    assert_eq!(delta.goals_removed, vec![SECOND]);

    let patch = patch_projection(
        cached,
        delta,
        "projection-incremental-remove/.refine",
        &Vec::new(),
        &Vec::new(),
    );

    assert!(patch.rescan_activity);
    assert!(patch.snapshot.goals.contains_key("GOAL1"));
    assert!(
        !patch.snapshot.goals.contains_key("GOAL2"),
        "a deleted record must leave the projection"
    );
    assert_eq!(
        patch.snapshot.dashboard.all_node_status_counts.get(&GoalStatus::Todo),
        Some(1)
    );
}

#[test]
fn a_goal_whose_id_was_corrected_leaves_its_old_key() {
    let mut renamed = goal("GOAL9", "GOAL9", GoalStatus::Todo);
    renamed.goal.json_path = FIRST.to_string();
    let cached = snapshot(vec![goal("GOAL1", "GOAL1", GoalStatus::Todo)]);
    let delta = source_delta(
        &known(&[(FIRST, 1)]),
        &found(vec![observed(FIRST, 2)]),
        "activity.jsonl",
    );
    let patch = patch_projection(cached, delta, ".refine", &vec![Some(renamed)], &Vec::new());
    assert!(!patch.snapshot.goals.contains_key("GOAL1"));
    assert!(patch.snapshot.goals.contains_key("GOAL9"));
}

#[test]
fn changed_features_are_read_again_and_removed_ones_are_dropped() {
    let mut cached = snapshot(Vec::new());
    for (id, name) in [("FEA1", "kept"), ("FEA2", "changed"), ("FEA3", "removed")] {
        cached.features.insert(id.to_string(), feature(id, name));
    }
    let expected = known(&[
        ("features/FEA1/feature.json", 1),
        ("features/FEA2/feature.json", 1),
        ("features/FEA3/feature.json", 1),
    ]);
    let mut sources = found(Vec::new());
    sources.features = vec![
        observed("features/FEA1/feature.json", 1),
        observed("features/FEA2/feature.json", 2),
    ];
    let delta = source_delta(&expected, &sources, "activity.jsonl");
    assert_eq!(delta.features_changed, vec!["features/FEA2/feature.json"]);
    assert_eq!(delta.features_removed, vec!["features/FEA3/feature.json"]);
    let reread = vec![Some(feature("FEA2", "read again").feature)];
    let patch = patch_projection(cached, delta, ".refine", &Vec::new(), &reread);
    let names: Vec<&str> = patch.feature_records.iter().map(|f| f.name.as_str()).collect();
    assert_eq!(names, vec!["kept", "read again"]);
    assert!(patch.snapshot.features.contains_key("FEA1"));
    assert!(!patch.snapshot.features.contains_key("FEA3"));
}

#[test]
fn a_patch_is_completed_with_what_was_derived() {
    let mut cached = snapshot(vec![goal("GOAL1", "GOAL1", GoalStatus::Todo)]);
    cached.activity.insert("a".to_string(), entry("a", "info", "workflow", None, None));
    cached.changes.insert("c1".to_string(), change("c1", 1, None));
    let delta = source_delta(
        &known(&[(FIRST, 1)]),
        &found(vec![observed(FIRST, 1), observed(SECOND, 1)]),
        "activity.jsonl",
    );
    let reread = vec![Some(goal("GOAL2", "GOAL2", GoalStatus::Done))];
    let patch = patch_projection(cached, delta, ".refine", &reread, &Vec::new());
    assert!(patch.rescan_activity);
    assert!(!patch.rescan_changes);
    let mut features = TextMap::new();
    features.insert("FEA1".to_string(), feature("FEA1", "derived"));
    let mut activity = TextMap::new();
    activity.insert("bb".to_string(), entry("bb", "info", "workflow", None, None));
    let complete = patch.complete(features, activity, TextMap::new());
    assert!(complete.features.contains_key("FEA1"));
    assert!(complete.activity.contains_key("bb"));
    assert!(!complete.activity.contains_key("a"));
    assert!(complete.changes.contains_key("c1"));
    assert_eq!(complete.dashboard.all_node_status_counts.get(&GoalStatus::Done), Some(1));
    assert_eq!(complete.dashboard.all_node_status_counts.get(&GoalStatus::Todo), Some(1));
}

#[test]
fn a_second_look_at_the_same_sources_finds_nothing() {
    let mut sources = found(vec![observed(FIRST, 3), observed(SECOND, 4)]);
    sources.features = vec![observed("features/FEA1/feature.json", 5)];
    sources.logs = vec![observed("runtime/goals/GOAL1/logs.jsonl", 6)];
    sources.activity = Some(observed("runtime/activity.jsonl", 7));
    sources.git_head = Some(fingerprint("git:HEAD", 8));
    let first = source_delta(&known(&[("features/OLD/feature.json", 1)]), &sources, "activity.jsonl");
    assert!(!first.is_empty());
    let second = source_delta(&first.fingerprints, &sources, "activity.jsonl");
    assert!(second.is_empty());
    sources.logs[0].fingerprint.change_unix_ns = None;
    let undated = source_delta(&first.fingerprints, &sources, "activity.jsonl");
    assert!(!undated.is_empty());
}

#[test]
fn logs_activity_and_the_git_head_are_told_apart() {
    let expected = known(&[
        ("runtime/goals/GOAL1/logs.jsonl", 1),
        ("runtime/activity.jsonl", 1),
        ("git:HEAD", 1),
        ("settings.toml", 1),
    ]);
    let mut sources = found(Vec::new());
    sources.logs = vec![observed("runtime/goals/GOAL1/logs.jsonl", 1)];
    sources.activity = Some(observed("runtime/activity.jsonl", 1));
    let delta = source_delta(&expected, &sources, "activity.jsonl");
    assert!(!delta.activity_changed);
    assert!(delta.git_head_changed);

    let expected = known(&[("runtime/goals/GOAL1/logs.jsonl", 1), ("git:HEAD", 1)]);
    let delta = source_delta(&expected, &found(Vec::new()), "activity.jsonl");
    assert!(delta.activity_changed);
    assert!(!delta.git_head_changed);

    let mut moved = found(Vec::new());
    moved.git_head = Some(SourceFingerprint {
        content_hash: Some("abc".to_string()),
        ..fingerprint("git:HEAD", 1)
    });
    let delta = source_delta(&known(&[("git:HEAD", 1)]), &moved, "activity.jsonl");
    assert!(delta.git_head_changed);
    assert!(delta.fingerprints.contains_key("git:HEAD"));
}

#[test]
fn a_fingerprint_without_a_change_time_counts_as_changed() {
    let current = fingerprint("a", 1);
    let old = SourceFingerprint { change_unix_ns: None, ..fingerprint("a", 1) };
    assert!(fingerprint_matches(&fingerprint("a", 1), &current));
    assert!(!fingerprint_matches(&old, &current));
    assert!(!fingerprint_matches(&fingerprint("a", 2), &current));
}

#[test]
fn goals_are_filtered_sorted_and_paged() {
    let mut first = goal("GOAL1", "Beta", GoalStatus::Todo);
    first.goal.priority = GoalPriority::High;
    first.goal.reporter = Some("ann".to_string());
    first.goal.round_count = 3;
    let mut second = goal("GOAL2", "Alpha", GoalStatus::Done);
    second.goal.feature_id = Some("FEA1".to_string());
    second.goal.node_id = Some("worker".to_string());
    let third = goal("GOAL3", "Alpha", GoalStatus::Todo);
    let all = snapshot(vec![first, second, third]);

    let listed = all.list_goals(all_goals("name", "asc"), &resident());
    assert_eq!(listed.matching_ids, vec!["GOAL2", "GOAL3", "GOAL1"]);
    let listed = all.list_goals(all_goals("name", "desc"), &resident());
    assert_eq!(listed.matching_ids, vec!["GOAL1", "GOAL3", "GOAL2"]);
    let listed = all.list_goals(all_goals("priority", "desc"), &resident());
    assert_eq!(listed.matching_ids[0], "GOAL1");
    let listed = all.list_goals(all_goals("rounds", "asc"), &resident());
    assert_eq!(listed.matching_ids[2], "GOAL1");

    let mut query = all_goals("id", "asc");
    query.page = page("id", "asc", 1, 1);
    let listed = all.list_goals(query, &resident());
    assert_eq!(listed.total, 3);
    assert_eq!(listed.goals.len(), 1);
    assert_eq!(listed.goals[0].id, "GOAL2");
    assert_eq!(listed.filtered_status_counts.get(&GoalStatus::Todo), Some(2));
    let mut beyond = all_goals("id", "asc");
    beyond.page = page("id", "asc", 7, 1);
    assert!(all.list_goals(beyond, &resident()).goals.is_empty());

    let ids = |edit: &dyn Fn(&mut GoalProjectionQuery)| {
        let mut query = all_goals("id", "asc");
        edit(&mut query);
        all.list_goals(query, &resident()).matching_ids
    };
    assert_eq!(ids(&|q| q.status = Some(GoalStatus::Done)), vec!["GOAL2"]);
    assert_eq!(ids(&|q| q.reporter = Some("ann".to_string())), vec!["GOAL1"]);
    assert_eq!(ids(&|q| q.reporter = Some("  ".to_string())).len(), 3);
    assert_eq!(ids(&|q| q.feature = Some("standalone".to_string())), vec!["GOAL1", "GOAL3"]);
    assert_eq!(ids(&|q| q.feature = Some("FEA1".to_string())), vec!["GOAL2"]);
    assert_eq!(ids(&|q| q.rounds_gte = Some(1)), vec!["GOAL1"]);
    assert_eq!(ids(&|q| q.rounds_lte = Some(2)), vec!["GOAL2", "GOAL3"]);
    assert_eq!(ids(&|q| q.node = Some("unknown".to_string())), vec!["GOAL1", "GOAL3"]);
    assert_eq!(ids(&|q| q.node = Some("worker".to_string())), vec!["GOAL2"]);
    assert_eq!(ids(&|q| q.node = Some("current".to_string())), vec!["GOAL1", "GOAL3"]);
    assert_eq!(ids(&|q| q.node = Some("all".to_string())).len(), 3);
}

#[test]
fn text_queries_ignore_case_and_fall_back_to_records() {
    let all = snapshot(vec![
        goal("GOAL1", "Größe ÄNDERN", GoalStatus::Todo),
        goal("GOAL2", "other", GoalStatus::Todo),
    ]);
    let mut query = all_goals("id", "asc");
    query.q = Some("ändern".to_string());
    assert_eq!(all.list_goals(query, &resident()).matching_ids, vec!["GOAL1"]);
    let mut query = all_goals("id", "asc");
    query.q = Some("deep text".to_string());
    let found_in = |incomplete: &[&str]| {
        let mut query = all_goals("id", "asc");
        query.q = Some("deep text".to_string());
        let records = RecordSearch {
            incomplete: incomplete.iter().map(|id| id.to_string()).collect(),
            matching: vec!["GOAL2".to_string()],
        };
        all.list_goals(query, &records).matching_ids
    };
    assert!(all.list_goals(query, &resident()).matching_ids.is_empty());
    assert_eq!(found_in(&["GOAL1", "GOAL2"]), vec!["GOAL2"]);
    assert!(found_in(&["GOAL1"]).is_empty());
}

#[test]
fn goals_can_be_asked_for_by_their_activity() {
    let mut first = goal("GOAL1", "first", GoalStatus::Todo);
    first.activity_ids = vec!["a".to_string(), "bb".to_string()];
    let mut all = snapshot(vec![first, goal("GOAL2", "second", GoalStatus::Todo)]);
    all.activity.insert("a".to_string(), entry("a", "info", "workflow", Some("ann"), Some("GOAL1")));
    all.activity.insert("bb".to_string(), entry("bb", "error", "merge", None, Some("GOAL1")));
    let mut query = all_goals("id", "asc");
    query.severity = Some("error".to_string());
    query.category = Some("merge".to_string());
    assert_eq!(all.list_goals(query, &resident()).matching_ids, vec!["GOAL1"]);
    let mut query = all_goals("id", "asc");
    query.severity = Some("error".to_string());
    query.actor = Some("ann".to_string());
    assert!(all.list_goals(query, &resident()).matching_ids.is_empty());
}

#[test]
fn activity_is_listed_with_its_facets() {
    let mut all = snapshot(Vec::new());
    all.activity.insert("a".to_string(), entry("a", "info", "workflow", Some("ann"), Some("GOAL1")));
    all.activity.insert("bb".to_string(), entry("bb", "error", "merge", None, None));
    all.activity.insert("ccc".to_string(), entry("ccc", "info", "merge", Some("ann"), None));
    let listed = all.list_activity(ActivityProjectionQuery {
        goal_id: None,
        severity: None,
        category: Some("merge".to_string()),
        actor: None,
        q: None,
        page: page("datetime", "desc", 0, 10),
    });
    assert_eq!(listed.matching_ids, vec!["ccc", "bb"]);
    assert_eq!(listed.activity[0].message, "message of ccc");
    assert_eq!(listed.facets.categories, vec!["merge", "workflow"]);
    assert_eq!(listed.facets.severities, vec!["error", "info"]);
    assert_eq!(listed.facets.actors, vec!["ann"]);
}

#[test]
fn changes_stand_newest_first_when_ascending() {
    let mut all = snapshot(Vec::new());
    all.changes.insert("key-a".to_string(), change("aaa", 1, Some(GoalStatus::Done)));
    all.changes.insert("key-b".to_string(), change("bbb", 2, None));
    let query = |sort: &str, dir: &str| ChangeProjectionQuery {
        goal_id: None,
        status: None,
        priority: None,
        branch: None,
        q: None,
        page: page(sort, dir, 0, 10),
    };
    assert_eq!(all.list_changes(query("", "asc")).matching_ids, vec!["key-b", "key-a"]);
    assert_eq!(all.list_changes(query("", "desc")).matching_ids, vec!["key-a", "key-b"]);
    assert_eq!(all.list_changes(query("status", "asc")).changes[0].commit, "bbb");
    let mut done = query("commit", "asc");
    done.status = Some(GoalStatus::Done);
    assert_eq!(all.list_changes(done).matching_ids, vec!["key-a"]);
}

#[test]
fn features_are_listed_and_rolled_up() {
    let mut all = snapshot(Vec::new());
    all.features.insert("FEA1".to_string(), feature("FEA1", "Login"));
    all.features.insert("FEA2".to_string(), feature("FEA2", "Billing"));
    let listed = all.list_features(FeatureProjectionQuery {
        status: None,
        reporter: None,
        assignee: None,
        node: None,
        current_node_id: None,
        q: Some("LOG".to_string()),
        page: page("name", "asc", 0, 10),
    });
    assert_eq!(listed.total, 1);
    assert_eq!(listed.features[0].feature.id, "FEA1");
    assert_eq!(all.feature_rollup("FEA2").unwrap().total, 2);
    assert!(all.feature_rollup("FEA3").is_none());
}

#[test]
fn the_dashboard_covers_one_node_or_all() {
    let mut own = goal("GOAL1", "own", GoalStatus::Failed);
    own.goal.reporter = Some("ann".to_string());
    let mut foreign = goal("GOAL2", "foreign", GoalStatus::Done);
    foreign.goal.node_id = Some("worker".to_string());
    let mut all = snapshot(vec![own, foreign]);
    all.activity.insert("a".to_string(), entry("a", "info", "workflow", None, Some("GOAL1")));
    all.activity.insert("b".to_string(), entry("b", "info", "workflow", None, Some("GOAL2")));
    all.dashboard.recent_activity_ids =
        vec!["a".to_string(), "b".to_string(), "gone".to_string()];

    let current = all.dashboard_summary(DashboardProjectionQuery {
        node: None,
        current_node_id: Some("  ".to_string()),
    });
    assert_eq!(current.node_filter, "current");
    assert_eq!(current.current_node_id, "default");
    assert_eq!(current.counts.get(&GoalStatus::Failed), Some(1));
    assert_eq!(current.counts.get(&GoalStatus::Done), None);
    assert_eq!(current.all_node_counts.get(&GoalStatus::Done), Some(1));
    assert_eq!(current.attention_indicators, vec!["1 failed Goal(s) need recovery"]);
    assert_eq!(current.recent_activity_ids, vec!["a"]);
    assert_eq!(current.reporter_stats.get("ann").unwrap().get(&GoalStatus::Failed), Some(1));
    assert!(current.assignee_stats.contains_key("unassigned"));

    let every = all.dashboard_summary(DashboardProjectionQuery {
        node: Some("all".to_string()),
        current_node_id: None,
    });
    assert_eq!(every.counts.get(&GoalStatus::Done), Some(1));
    assert_eq!(every.recent_activity_ids, vec!["a", "b", "gone"]);
    assert!(every.reporter_stats.contains_key("unknown"));
}

#[test]
fn goal_ids_and_cache_paths_are_exact() {
    let all = snapshot(vec![
        goal("GOAL2", "b", GoalStatus::Todo),
        goal("GOAL1", "a", GoalStatus::Todo),
        goal("GOAL3", "c", GoalStatus::Done),
    ]);
    assert_eq!(all.goal_ids_for_status(&GoalStatus::Todo), vec!["GOAL1", "GOAL2"]);
    assert_eq!(all.cache_path_for_port("run", 8080), "run/8080/cache");
}

#[test]
fn the_other_direction_is_the_reverse() {
    let mut goals: Vec<GoalSummaryProjection> =
        (0..6).map(|i| goal(&format!("GOAL{i}"), "same name", GoalStatus::Todo)).collect();
    goals[4].goal.name = "another".to_string();
    goals[1].goal.reporter = Some("ann".to_string());
    let all = snapshot(goals);
    for sort in ["name", "reporter", "status", "id", "updated"] {
        let mut up = all.list_goals(all_goals(sort, "asc"), &resident()).matching_ids;
        let down = all.list_goals(all_goals(sort, "desc"), &resident()).matching_ids;
        up.reverse();
        assert_eq!(up, down);
    }
}

#[test]
fn pages_follow_each_other() {
    let all = snapshot(
        (0..7).map(|i| goal(&format!("GOAL{i}"), "same name", GoalStatus::Todo)).collect(),
    );
    let ids = |offset: usize, limit: usize| {
        let mut query = all_goals("name", "desc");
        query.page = page("name", "desc", offset, limit);
        let listed = all.list_goals(query, &resident());
        listed.goals.into_iter().map(|goal| goal.id).collect::<Vec<_>>()
    };
    let mut joined = ids(0, 3);
    joined.extend(ids(3, 4));
    assert_eq!(joined, ids(0, 7));
    assert_eq!(ids(0, 100).len(), 7);
    assert_eq!(ids(5, usize::MAX).len(), 2);
}

#[test]
fn every_direction_but_ascending_is_the_reverse() {
    let mut rows = Vec::new();
    for (i, name) in ["d", "b", "c", "b", "a", "b", "e", "a"].iter().enumerate() {
        let mut row = goal(&format!("GOAL{i}"), name, GoalStatus::Todo).goal;
        row.updated = format!("2026-01-0{}T00:00:00Z", 9 - i);
        rows.push(row);
    }
    let ids = |sort: &str, dir: &str| {
        let mut sorted = rows.clone();
        sort_goals(&mut sorted, sort, dir);
        sorted.into_iter().map(|row| row.id).collect::<Vec<_>>()
    };
    let named = vec!["GOAL4", "GOAL7", "GOAL1", "GOAL3", "GOAL5", "GOAL2", "GOAL0", "GOAL6"];
    assert_eq!(ids("name", "asc"), named);
    for dir in ["desc", "ASC", ""] {
        let mut turned = ids("name", dir);
        turned.reverse();
        assert_eq!(turned, named);
    }
    let updated = vec!["GOAL7", "GOAL6", "GOAL5", "GOAL4", "GOAL3", "GOAL2", "GOAL1", "GOAL0"];
    assert_eq!(ids("no such column", "asc"), updated);
    assert_eq!(ids("updated", "asc"), updated);
}

#[test]
fn converted_texts_are_searched_as_they_are() {
    let texts = vec!["größe ändern".to_string(), "goal1".to_string()];
    assert!(any_text_holds(&texts, "ändern"));
    assert!(any_text_holds(&texts, ""));
    assert!(!any_text_holds(&texts, "Ändern"));
    assert!(!any_text_holds(&Vec::new(), ""));

    let row = goal("GOAL1", "Größe ÄNDERN", GoalStatus::Todo);
    let all = snapshot(vec![goal("GOAL1", "Größe ÄNDERN", GoalStatus::Todo)]);
    let found = |search: Option<&str>, texts: &Vec<String>, status: GoalStatus| {
        let mut query = all_goals("id", "asc");
        query.status = Some(status);
        let search = search.map(str::to_string);
        goal_matches_in(&all, &row, &query, &search, texts, &resident())
    };
    assert!(found(Some("größe"), &texts, GoalStatus::Todo));
    assert!(!found(Some("größe"), &Vec::new(), GoalStatus::Todo));
    assert!(found(None, &Vec::new(), GoalStatus::Todo));
    assert!(!found(Some("größe"), &texts, GoalStatus::Done));
}

#[test]
fn large_projections_are_looked_up_and_sorted() {
    let mut rows = Vec::new();
    for i in 0..300 {
        let id = format!("GOAL{:03}", (i * 7) % 300);
        rows.push(goal(&id, &format!("name {}", i % 5), GoalStatus::Todo));
    }
    let all = snapshot(rows);
    assert_eq!(all.goals.len(), 300);
    for i in 0..300 {
        assert!(all.goals.contains_key(&format!("GOAL{i:03}")));
    }
    assert!(!all.goals.contains_key("GOAL"));
    assert!(!all.goals.contains_key("GOAL300"));
    let listed = all.list_goals(all_goals("id", "asc"), &resident());
    let expected = (0..300).map(|i| format!("GOAL{i:03}")).collect::<Vec<_>>();
    assert_eq!(listed.matching_ids, expected);
    let listed = all.list_goals(all_goals("name", "asc"), &resident());
    assert_eq!(listed.goals[0].name, "name 0");
    assert_eq!(listed.matching_ids.len(), 300);
}

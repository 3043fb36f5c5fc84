use refine::errors::{RefineError, RefineResult};
use refine::json::{clone_json, Json};
use refine::model::{
    DashboardProjection, FeatureIndexProjection, GoalIndexProjection, GoalPriority, GoalStatus,
    GoalSummaryProjection, ProjectionSnapshot, StatusCounts,
};
use refine::nodes::{ActiveNodeSelection, Node, SelectionRead};
use refine::text_map::TextMap;
use refine::work_items::bulk::{BulkGoalStatusProtection, BulkSelection};
use refine::work_items::queries::{
    check_goal_id, goal_json_path, resolve_goal_id, DetailContext, NewGoal,
};
use refine::work_items::records::PersonName;
use refine::work_items::rounds::{GitRefs, MetadataEdit, RoundEdit, RoundInput};
use refine::work_items::{
    set_workflow_revision, validate_automated_goal_transition, validate_manual_goal_transition,
    FileWorkItemService, GoalAccess, GoalCancellationTransaction, OperationDecision,
    ProjectionSource,
};

const NOW: &str = "2026-07-25T12:00:00Z";

fn text(value: &str) -> String {
    value.to_string()
}

fn index(id: &str, name: &str, status: GoalStatus, node_id: Option<&str>) -> GoalIndexProjection {
    GoalIndexProjection {
        id: text(id),
        name: text(name),
        status,
        priority: GoalPriority::Low,
        reporter: None,
        assignee: None,
        round_count: 0,
        created: text(NOW),
        updated: text(NOW),
        branch_name: None,
        node_id: node_id.map(str::to_string),
        feature_id: None,
        feature_order: None,
        json_path: format!("goals/{}/{}/goal.json", &id[..2], &id[2..]),
    }
}

fn summary(goal: GoalIndexProjection) -> GoalSummaryProjection {
    GoalSummaryProjection {
        searchable_text: goal.name.clone(),
        goal,
        node_display_name: None,
        latest_round_prompt: None,
        activity_ids: Vec::new(),
    }
}

fn snapshot(goals: Vec<GoalIndexProjection>) -> ProjectionSnapshot {
    let mut map = TextMap::new();
    for goal in goals {
        map.insert(goal.id.clone(), summary(goal));
    }
    ProjectionSnapshot {
        version: 2,
        generated_at: text(NOW),
        refine_dir: None,
        source_fingerprints: TextMap::new(),
        goals: map,
        features: TextMap::new(),
        activity: TextMap::new(),
        changes: TextMap::new(),
        dashboard: DashboardProjection {
            recent_activity_ids: Vec::new(),
            all_node_status_counts: StatusCounts::of(&Vec::new()),
        },
    }
}

/// A goal of the active node, with its record as it is stored.
fn access(record: &Json, active: &str) -> GoalAccess {
    let id = record.get_text("id").unwrap();
    let status = GoalStatus::parse_wire(record.get_text("status").unwrap()).unwrap();
    let name = record.get_text("name").unwrap();
    let mut goal = index(id, name, status, record.get_text("node_id"));
    goal.round_count = record.get_array("rounds").map_or(0, |rounds| rounds.len());
    GoalAccess {
        goal_id: text(id),
        summary: Some(goal),
        registered_node: Ok(text(active)),
        refusal: None,
        record: Ok(clone_json(record)),
    }
}

fn unknown_goal() -> GoalAccess {
    GoalAccess {
        goal_id: text("GONE"),
        summary: None,
        registered_node: Ok(text("default")),
        refusal: None,
        record: Ok(Json::object()),
    }
}

fn refused(record: &Json) -> GoalAccess {
    GoalAccess {
        refusal: Some(RefineError::InvalidInput(text("not now"))),
        ..access(record, "default")
    }
}

fn person(name: &str) -> PersonName {
    PersonName { text: text(name), acceptable: true }
}

fn created(service: &FileWorkItemService, name: &str, id: &str, active: &str) -> NewGoal {
    service
        .create_goal_summary(name, Some(id), "GENERATED", false, &Ok(text(active)))
        .ok()
        .unwrap()
}

fn round(reporter: &str, prompt: &str) -> Json {
    let mut value = Json::object();
    value.set("reporter", Json::text(reporter));
    value.set("prompt", Json::text(prompt));
    value
}

fn rounds_of(record: &Json) -> &Vec<Json> {
    record.get_array("rounds").unwrap()
}

fn failure<T>(result: RefineResult<T>) -> String {
    result.err().unwrap().describe()
}

#[test]
fn a_nested_projection_cache_still_resolves_the_real_active_node() {
    let refine_dir = "work-item-nested-cache-active-node/.refine";
    let runtime_root = "work-item-nested-cache-active-node/run/8082";

    let owned = created(
        &FileWorkItemService::for_node(refine_dir, "bo2lnxnevo03-buddy"),
        "Owned by the active node",
        "GOAL1",
        "default",
    );
    assert_eq!(owned.record.get_text("node_id"), Some("bo2lnxnevo03-buddy"));

    let nested_cache = format!("{runtime_root}/cache/workflow/CLAIM123");
    let service =
        FileWorkItemService::with_projection_cache(refine_dir, runtime_root, &nested_cache);
    let registry = service.node_registry_service();
    assert_eq!(registry.active_root.as_deref(), Some(runtime_root));
    let nodes = vec![Node {
        id: text("bo2lnxnevo03-buddy"),
        display_name: text("Buddy"),
        user_named: true,
        enabled: true,
        archived: false,
        health: None,
    }];
    let (active, _) = registry.resolve_active_selection(
        &nodes,
        &SelectionRead::Scoped(ActiveNodeSelection {
            active_node_id: text("bo2lnxnevo03-buddy"),
            refine_dir: text(refine_dir),
            same_project: true,
        }),
    );
    let moved = service
        .set_goal_status_unchecked(&access(&owned.record, &active), &GoalStatus::Todo)
        .ok()
        .unwrap();
    assert_eq!(moved.get_text("status"), Some("todo"));
    match service.projection_source() {
        ProjectionSource::Cached { runtime_root: root, cache_dir } => {
            assert_eq!(root.as_deref(), Some(runtime_root));
            assert_eq!(cache_dir, nested_cache);
        }
        ProjectionSource::Rebuilt => panic!("the cache is configured"),
    }
}

#[test]
fn file_work_item_service_creates_and_lists_goal_json() {
    let service = FileWorkItemService::new("work-item-create/.refine");
    let goal = created(&service, "Created from Rust", "GOAL1", "default");
    assert_eq!(goal.id, "GOAL1");
    assert_eq!(goal.record.get_text("status"), Some("backlog"));
    assert_eq!(goal.path, "work-item-create/.refine/goals/GO/AL1/goal.json");
    assert_eq!(goal.json_path, "goals/GO/AL1/goal.json");
    let projected =
        snapshot(vec![index("GOAL1", "Created from Rust", GoalStatus::Backlog, None)]);
    assert_eq!(service.list_goal_summaries(&projected).len(), 1);
    let shown = service.show_goal_summary(&projected, "GOAL1").unwrap();
    assert_eq!(shown.goal.name, "Created from Rust");
    assert_eq!(
        service.show_goal_summary(&projected, "GOAL2").unwrap_err().describe(),
        "Goal GOAL2 was not found in refine state"
    );
}

#[test]
fn retrying_a_failed_goal_clears_the_recorded_failure_reason() {
    let service = FileWorkItemService::new("work-item-retry-clears-failure/.refine");
    let record = created(&service, "Stale candidate", "GOAL1", "default").record;
    let record = service
        .append_goal_round_summary(
            &access(&record, "default"),
            person("Reporter"),
            "Prompt",
            &round("Reporter", "Prompt"),
        )
        .ok()
        .unwrap();
    let mut record = record;
    for status in [GoalStatus::Todo, GoalStatus::InProgress, GoalStatus::Failed] {
        record = service
            .set_goal_status_unchecked(&access(&record, "default"), &status)
            .ok()
            .unwrap();
    }
    let mut evaluation = Json::object();
    evaluation.set("failure_category", Json::text("merge"));
    evaluation.set(
        "failure_message",
        Json::text("Candidate abc123 is stale: recorded base def456 is not its ancestor"),
    );
    evaluation.set("failure_at", Json::text("2026-07-25T12:02:30Z"));
    let failed = service
        .update_latest_goal_round_evaluation_summary(&access(&record, "default"), &evaluation)
        .ok()
        .unwrap();
    assert_eq!(rounds_of(&failed)[0].get_text("failure_category"), Some("merge"));
    assert!(rounds_of(&failed)[0].get_text("failure_message").unwrap().contains("is stale"));

    let retried = service
        .set_goal_status_unchecked(&access(&failed, "default"), &GoalStatus::ReadyMerge)
        .ok()
        .unwrap();
    assert_eq!(retried.get_text("status"), Some("ready-merge"));
    assert_eq!(rounds_of(&retried)[0].get_text("failure_category"), Some(""));
    assert_eq!(rounds_of(&retried)[0].get_text("failure_message"), Some(""));
    assert_eq!(rounds_of(&retried)[0].get_text("failure_at"), Some(""));

    let again = service
        .set_goal_status_unchecked(&access(&failed, "default"), &GoalStatus::Failed)
        .ok()
        .unwrap();
    assert_eq!(rounds_of(&again)[0].get_text("failure_category"), Some("merge"));
}

#[test]
fn file_work_item_service_uses_active_node_and_rejects_foreign_mutations() {
    let service = FileWorkItemService::new("work-item-node-ownership/.refine");
    let record = created(&service, "Remote-owned", "GOAL1", "remote-node").record;
    assert_eq!(record.get_text("node_id"), Some("remote-node"));

    let rename = |name: &str| MetadataEdit {
        name: Some(text(name)),
        priority: None,
        reporter: None,
        assignee: None,
    };
    let error = service
        .update_goal_metadata_summary(&access(&record, "default"), &rename("Blocked"))
        .err()
        .unwrap();
    assert!(matches!(error, RefineError::Conflict(_)));
    assert_eq!(
        error.describe(),
        "Goal GOAL1 is owned by node remote-node, not active node default"
    );

    let feature = FeatureIndexProjection {
        id: text("FEA1"),
        name: text("Remote feature"),
        description: None,
        reporter: None,
        assignee: None,
        node_id: Some(text("remote-node")),
        created: text(NOW),
        updated: text(NOW),
        json_path: text("features/FEA1/feature.json"),
    };
    let error = service.ensure_feature_owned(&feature, &Ok(text("default"))).err().unwrap();
    assert!(matches!(error, RefineError::Conflict(_)));
    assert_eq!(
        error.describe(),
        "Feature FEA1 is owned by node remote-node, not active node default"
    );

    let selected = service
        .select_bulk_goal_summaries(
            &snapshot(vec![index("GOAL1", "Goal", GoalStatus::Backlog, Some("remote-node"))]),
            &BulkSelection {
                selected_ids: Some(vec![text("GOAL1")]),
                exclude_ids: Vec::new(),
                matching_ids: Vec::new(),
            },
            BulkGoalStatusProtection::Unprotected,
            &Vec::new(),
        )
        .ok()
        .unwrap();
    assert_eq!(selected.goals[0].goal.id, "GOAL1");
    let target = service.validate_transfer_target_node("default", &Ok(())).ok().unwrap();
    let moved = service
        .set_goal_node_unchecked(&access(&record, "remote-node"), &target)
        .ok()
        .unwrap();
    let updated = service
        .update_goal_metadata_summary(&access(&moved, "default"), &rename("Default-owned"))
        .ok()
        .unwrap();
    assert_eq!(updated.metadata.get_text("name"), Some("Default-owned"));
}

#[test]
fn notes_of_several_writers_are_all_kept() {
    let service = FileWorkItemService::new("goal-lock-same-record/.refine");
    let mut record = created(&service, "Contended", "GOALSAME", "default").record;
    for writer in 0..6 {
        for note in 0..4 {
            record = service
                .add_goal_note_summary(
                    &access(&record, "default"),
                    "tester",
                    &format!("writer {writer} note {note}"),
                    &format!("NOTE{writer}{note}"),
                )
                .ok()
                .unwrap();
        }
    }
    let notes = record.get_array("notes").unwrap();
    assert_eq!(notes.len(), 24);
    for writer in 0..6 {
        for note in 0..4 {
            let needle = format!("writer {writer} note {note}");
            assert!(notes.iter().any(|entry| entry.get_text("body") == Some(needle.as_str())));
        }
    }
}

#[test]
fn ids_are_upper_case_and_at_least_three_bytes_long() {
    assert_eq!(resolve_goal_id(Some(" goal1 "), "GENERATED").unwrap(), "GOAL1");
    assert_eq!(resolve_goal_id(Some("straße"), "GENERATED").unwrap(), "STRASSE");
    assert_eq!(resolve_goal_id(Some("  "), "GENERATED").unwrap(), "GENERATED");
    assert_eq!(resolve_goal_id(None, "GENERATED").unwrap(), "GENERATED");
    assert_eq!(
        resolve_goal_id(Some("ab"), "GENERATED").unwrap_err().describe(),
        "Goal id must be at least three characters"
    );
    assert_eq!(goal_json_path("app/.refine", "GOAL1"), "app/.refine/goals/GO/AL1/goal.json");
    assert_eq!(check_goal_id(text("STRASSE"), "GENERATED").unwrap(), "STRASSE");
    assert_eq!(check_goal_id(text(""), "GENERATED").unwrap(), "GENERATED");
    assert!(check_goal_id(text("AB"), "GENERATED").is_err());
    assert!(check_goal_id(text(""), "G").is_err());
}

#[test]
fn new_goals_need_a_name_and_a_free_id() {
    let service = FileWorkItemService::new(".refine");
    let active = Ok(text("default"));
    let error = |name: &str, taken: bool, active: &RefineResult<String>| {
        service
            .create_goal_summary_at(name, Some("GOAL1"), "GENERATED", taken, active, NOW)
            .err()
            .unwrap()
            .describe()
    };
    assert_eq!(error("  ", false, &active), "Goal name is required");
    assert_eq!(error("Name", true, &active), "Goal GOAL1 already exists");
    assert_eq!(error("Name", false, &Err(RefineError::Io(text("registry gone")))), "registry gone");
    let goal = service
        .create_goal_summary_at(" Name ", Some("goal1"), "GENERATED", false, &active, NOW)
        .ok()
        .unwrap();
    assert_eq!(goal.record.get_text("name"), Some("Name"));
    assert_eq!(goal.record.get_text("created"), Some(NOW));
    assert_eq!(goal.record.get_text("priority"), Some("low"));
    assert!(goal.record.get("reporter").unwrap().is_null());
    assert!(rounds_of(&goal.record).is_empty());
}

#[test]
fn new_goals_carry_the_time_of_their_creation() {
    let service = FileWorkItemService::new(".refine");
    let record = created(&service, "Timed", "GOAL1", "default").record;
    let stamp = record.get_text("created").unwrap();
    assert!(stamp > "2024-01-01T00:00:00");
    assert_eq!(record.get_text("updated"), Some(stamp));
}

#[test]
fn transitions_of_users_and_automation_are_checked() {
    let decide = |allowed: bool, reason: Option<&str>| {
        validate_manual_goal_transition(OperationDecision {
            allowed,
            reason: reason.map(str::to_string),
        })
    };
    assert!(decide(true, None).is_ok());
    assert_eq!(decide(false, Some("why")).unwrap_err().describe(), "why");
    assert_eq!(decide(false, None).unwrap_err().describe(), "transition is not allowed");
    assert!(validate_automated_goal_transition(&GoalStatus::Qa, &GoalStatus::Done).is_ok());
    assert!(validate_automated_goal_transition(&GoalStatus::Build, &GoalStatus::Done).is_err());
    assert_eq!(
        validate_automated_goal_transition(&GoalStatus::Done, &GoalStatus::Todo)
            .unwrap_err()
            .describe(),
        "automated transition done -> todo is not allowed"
    );
}

#[test]
fn metadata_is_checked_before_it_is_written() {
    let service = FileWorkItemService::new(".refine");
    let record = created(&service, "Goal", "GOAL1", "default").record;
    let goal = access(&record, "default");
    let edit = |name: Option<&str>, priority: Option<&str>, reporter: Option<PersonName>| {
        MetadataEdit {
            name: name.map(str::to_string),
            priority: priority.map(str::to_string),
            reporter,
            assignee: None,
        }
    };
    assert_eq!(
        failure(service.update_goal_metadata_summary(&goal, &edit(Some(" "), None, None))),
        "Goal name cannot be empty"
    );
    assert_eq!(
        failure(service.update_goal_metadata_summary(&goal, &edit(None, Some("urgent"), None))),
        "priority must be one of low, medium, or high"
    );
    let nameless = PersonName { text: text("a\nb"), acceptable: false };
    assert_eq!(
        failure(service.update_goal_metadata_summary(&goal, &edit(None, None, Some(nameless)))),
        "invalid reporter name"
    );
    assert_eq!(
        failure(service.update_goal_metadata_summary(&unknown_goal(), &edit(None, None, None))),
        "Goal GONE was not found in refine state"
    );
    assert_eq!(
        failure(service.update_goal_metadata_summary(&refused(&record), &edit(None, None, None))),
        "not now"
    );
    let changed = service
        .update_goal_metadata_summary_at(
            &goal,
            &edit(Some(" New "), Some("high"), Some(person(" ann "))),
            NOW,
            NOW,
        )
        .ok()
        .unwrap();
    assert!(changed.assigned.is_none());
    let changed = changed.metadata;
    assert_eq!(changed.get_text("name"), Some("New"));
    assert_eq!(changed.get_text("priority"), Some("high"));
    assert_eq!(changed.get_text("reporter"), Some("ann"));
    assert_eq!(changed.get_text("updated"), Some(NOW));
    assert_eq!(changed.get_text("created"), record.get_text("created"));
}

#[test]
fn a_record_that_is_no_object_is_refused() {
    let service = FileWorkItemService::new("app/.refine");
    let record = created(&service, "Goal", "GOAL1", "default").record;
    let mut goal = access(&record, "default");
    goal.record = Ok(Json::array(Vec::new()));
    assert_eq!(
        failure(service.set_goal_priority_unchecked(&goal, "high")),
        "Goal app/.refine/goals/GO/AL1/goal.json is not a JSON object"
    );
    goal.record = Err(RefineError::Io(text("unreadable")));
    assert_eq!(failure(service.set_goal_priority_unchecked(&goal, "high")), "unreadable");
    let known = index("GOAL1", "Goal", GoalStatus::Todo, None);
    assert!(service.decode_goal_record(&known, b"{\"id\":\"GOAL1\"}").is_ok());
    assert!(service.decode_goal_record(&known, b"{").is_err());
}

#[test]
fn notes_are_cleaned_when_they_are_replaced() {
    let service = FileWorkItemService::new(".refine");
    let record = created(&service, "Goal", "GOAL1", "default").record;
    let goal = access(&record, "default");
    let mut kept = Json::object();
    kept.set("id", Json::text("N1"));
    kept.set("author", Json::text(" ann "));
    kept.set("body", Json::text(" text "));
    kept.set("created", Json::text("2026-01-01T00:00:00Z"));
    let mut fresh = Json::object();
    fresh.set("body", Json::text("second"));
    let ids = vec![text("F1"), text("F2")];
    let replaced = service
        .replace_goal_notes_summary_at(&goal, &vec![kept, fresh], &ids, NOW)
        .ok()
        .unwrap();
    let notes = replaced.get_array("notes").unwrap();
    assert_eq!(notes[0].get_text("id"), Some("N1"));
    assert_eq!(notes[0].get_text("author"), Some("ann"));
    assert_eq!(notes[0].get_text("created"), Some("2026-01-01T00:00:00Z"));
    assert_eq!(notes[0].get_text("updated"), Some(NOW));
    assert_eq!(notes[1].get_text("id"), Some("F2"));
    assert_eq!(notes[1].get_text("author"), Some(""));

    let one = vec![text("F1")];
    assert_eq!(
        failure(service.replace_goal_notes_summary(&goal, &vec![Json::text("x")], &one)),
        "notes must be an array of objects"
    );
    assert_eq!(
        failure(service.replace_goal_notes_summary(&goal, &vec![Json::object()], &one)),
        "note body cannot be empty"
    );
    assert_eq!(
        failure(service.add_goal_note_summary(&goal, "ann", "  ", "F1")),
        "note body cannot be empty"
    );
}

#[test]
fn metadata_and_assignee_are_written_one_after_the_other() {
    let service = FileWorkItemService::new(".refine");
    let mut record = created(&service, "Goal", "GOAL1", "default").record;
    let assign = |name: PersonName| MetadataEdit {
        name: Some(text("New")),
        priority: None,
        reporter: Some(person(" ann ")),
        assignee: Some(name),
    };
    let later = "2026-07-25T12:00:01Z";
    let without = service
        .update_goal_metadata_summary_at(
            &access(&record, "default"),
            &assign(person("bob")),
            NOW,
            later,
        )
        .ok()
        .unwrap();
    assert_eq!(without.metadata.get_text("name"), Some("New"));
    assert_eq!(failure(without.assigned.unwrap()), "Goal GOAL1 has no rounds");

    record.set("rounds", Json::array(vec![round("ann", "one"), round("ann", "two")]));
    let goal = access(&record, "default");
    let both = service
        .update_goal_metadata_summary_at(&goal, &assign(person(" bob ")), NOW, later)
        .ok()
        .unwrap();
    assert_eq!(both.metadata.get_text("updated"), Some(NOW));
    let assigned = both.assigned.unwrap().ok().unwrap();
    assert_eq!(assigned.get_text("name"), Some("New"));
    assert_eq!(assigned.get_text("updated"), Some(later));
    assert_eq!(rounds_of(&assigned)[1].get_text("assignee"), Some("bob"));
    assert_eq!(rounds_of(&assigned)[0].get_text("assignee"), None);
    assert_eq!(rounds_of(&assigned)[0].get_text("prompt"), Some("one"));
    assert_eq!(assigned.get_text("status"), record.get_text("status"));
    let refused_name = PersonName { text: text("b\nc"), acceptable: false };
    let refused = service.update_goal_metadata_summary(&goal, &assign(refused_name)).ok().unwrap();
    assert_eq!(refused.metadata.get_text("name"), Some("New"));
    assert_eq!(failure(refused.assigned.unwrap()), "invalid assignee name");
}

#[test]
fn the_reporter_of_a_write_is_named_before_it() {
    let service = FileWorkItemService::new(".refine");
    let record = created(&service, "Goal", "GOAL1", "default").record;
    let goal = access(&record, "default");
    let edit = |reporter: Option<PersonName>| MetadataEdit {
        name: None,
        priority: None,
        reporter,
        assignee: None,
    };
    assert_eq!(
        service.metadata_reporter(&goal, &edit(Some(person(" ann ")))).unwrap().as_deref(),
        Some("ann")
    );
    assert_eq!(service.metadata_reporter(&goal, &edit(None)).unwrap(), None);
    assert_eq!(
        failure(service.metadata_reporter(&refused(&record), &edit(Some(person("ann"))))),
        "not now"
    );
    let rewrite = |reporter: Option<PersonName>, assignee: Option<PersonName>| RoundEdit {
        reporter,
        assignee,
        prompt: None,
    };
    let nameless = || PersonName { text: text("a\nb"), acceptable: false };
    assert_eq!(
        service.round_edit_reporter(&rewrite(Some(person("ann ")), None)).unwrap().as_deref(),
        Some("ann")
    );
    assert_eq!(service.round_edit_reporter(&rewrite(None, None)).unwrap(), None);
    assert_eq!(
        failure(service.round_edit_reporter(&rewrite(Some(nameless()), None))),
        "invalid reporter name"
    );
    assert_eq!(
        failure(service.round_edit_reporter(&rewrite(None, Some(nameless())))),
        "invalid assignee name"
    );
}

#[test]
fn a_record_that_is_no_object_takes_no_status() {
    let service = FileWorkItemService::new(".refine");
    let mut broken = Json::text("broken");
    assert_eq!(
        failure(service.write_goal_status_value("goals/a/goal.json", &mut broken, &GoalStatus::Todo)),
        "Goal goals/a/goal.json is not a JSON object"
    );
    assert_eq!(broken.as_text(), Some("broken"));
    let mut record = Json::object();
    record.set("name", Json::text("kept"));
    let mut failing = round("ann", "one");
    failing.set("failure_message", Json::text("why"));
    record.set("rounds", Json::array(vec![failing]));
    service
        .write_goal_status_value_at("goals/a/goal.json", &mut record, &GoalStatus::Failed, NOW)
        .unwrap();
    assert_eq!(record.get_text("status"), Some("failed"));
    assert_eq!(rounds_of(&record)[0].get_text("failure_message"), Some("why"));
    service
        .write_goal_status_value_at("goals/a/goal.json", &mut record, &GoalStatus::Todo, NOW)
        .unwrap();
    assert_eq!(record.get_text("status"), Some("todo"));
    assert_eq!(record.get_text("name"), Some("kept"));
    assert_eq!(record.get_text("updated"), Some(NOW));
    assert_eq!(rounds_of(&record)[0].get_text("failure_message"), Some(""));
}

#[test]
fn an_appended_round_says_who_asked_for_what() {
    let service = FileWorkItemService::new(".refine");
    let record = created(&service, "Goal", "GOAL1", "default").record;
    let append = |assignee: Option<PersonName>, base: &Json| {
        let input = RoundInput { reporter: person(" ann "), assignee, prompt: text(" do it ") };
        let after = service
            .append_goal_round_summary_with_assignee(&access(&record, "default"), &input, base)
            .ok()
            .unwrap();
        clone_json(rounds_of(&after).last().unwrap())
    };
    let mut base = round("someone", "something");
    base.set("state", Json::text("fresh"));
    let alone = append(None, &base);
    assert_eq!(alone.get_text("reporter"), Some("ann"));
    assert_eq!(alone.get_text("assignee"), Some("ann"));
    assert_eq!(alone.get_text("prompt"), Some("do it"));
    assert_eq!(alone.get_text("state"), Some("fresh"));
    let given = append(Some(person(" bob ")), &Json::null());
    assert_eq!(given.get_text("assignee"), Some("bob"));
    assert_eq!(given.get_text("reporter"), Some("ann"));
}

#[test]
fn rounds_are_appended_and_the_latest_is_edited() {
    let service = FileWorkItemService::new(".refine");
    let record = created(&service, "Goal", "GOAL1", "default").record;
    let goal = access(&record, "default");
    let input = |prompt: &str| RoundInput {
        reporter: person("ann"),
        assignee: None,
        prompt: text(prompt),
    };
    assert_eq!(
        failure(service.append_goal_round_summary_with_assignee(
            &goal,
            &input(" "),
            &round("ann", " ")
        )),
        "round reporter and prompt are required"
    );
    let edit = |prompt: &str| RoundEdit {
        reporter: None,
        assignee: Some(person("bob")),
        prompt: Some(text(prompt)),
    };
    assert_eq!(
        failure(service.edit_latest_goal_round_summary(&goal, &edit("x"))),
        "Goal GOAL1 has no rounds"
    );
    let first = service
        .append_goal_round_summary_with_assignee(&goal, &input("one"), &round("ann", "one"))
        .ok()
        .unwrap();
    let second = service
        .append_goal_round_summary_with_assignee(
            &access(&first, "default"),
            &input("two"),
            &round("ann", "two"),
        )
        .ok()
        .unwrap();
    assert_eq!(rounds_of(&second).len(), 2);
    let edited = service
        .edit_latest_goal_round_summary_at(&access(&second, "default"), &edit(" three "), NOW)
        .ok()
        .unwrap();
    assert_eq!(rounds_of(&edited)[0].get_text("prompt"), Some("one"));
    assert_eq!(rounds_of(&edited)[1].get_text("prompt"), Some("three"));
    assert_eq!(rounds_of(&edited)[1].get_text("assignee"), Some("bob"));
}

#[test]
fn evaluations_reach_only_known_fields_of_one_round() {
    let service = FileWorkItemService::new(".refine");
    let mut record = created(&service, "Goal", "GOAL1", "default").record;
    record.set("rounds", Json::array(vec![round("ann", "one"), Json::text("broken")]));
    let goal = access(&record, "default");
    let mut evaluation = Json::object();
    evaluation.set("quality_state", Json::text("passed"));
    evaluation.set("prompt", Json::text("rewritten"));
    let evaluated = service
        .update_goal_round_evaluation_summary(&goal, 0, &evaluation)
        .ok()
        .unwrap();
    assert_eq!(rounds_of(&evaluated)[0].get_text("quality_state"), Some("passed"));
    assert_eq!(rounds_of(&evaluated)[0].get_text("prompt"), Some("one"));
    assert_eq!(
        failure(service.update_goal_round_evaluation_summary(&goal, 1, &evaluation)),
        "round 2 for Goal GOAL1 is not a JSON object"
    );
    assert_eq!(
        failure(service.update_goal_round_evaluation_summary(&goal, 2, &evaluation)),
        "Goal GOAL1 has no round 3"
    );
    assert_eq!(
        failure(service.update_goal_round_evaluation_summary(&goal, 0, &Json::null())),
        "round evaluation body must be a JSON object"
    );
    assert_eq!(
        failure(service.update_latest_goal_round_implementation_report(&goal, " ")),
        "implementation report cannot be empty"
    );
}

#[test]
fn git_refs_and_branches_are_trimmed_and_required() {
    let service = FileWorkItemService::new(".refine");
    let record = created(&service, "Goal", "GOAL1", "default").record;
    let goal = access(&record, "default");
    let refs = |base: &str, candidate: Option<&str>| GitRefs {
        branch_name: text(" refine/GOAL1/round-1 "),
        target_branch: text("main"),
        base_commit: text(base),
        candidate_commit: candidate.map(str::to_string),
    };
    let changed = service.update_goal_git_refs(&goal, &refs("abc", Some("def"))).ok().unwrap();
    assert_eq!(changed.get_text("branch_name"), Some("refine/GOAL1/round-1"));
    assert_eq!(changed.get_text("base_commit"), Some("abc"));
    assert_eq!(changed.get_text("candidate_commit"), Some("def"));
    assert_eq!(
        failure(service.update_goal_git_refs(&goal, &refs(" ", None))),
        "base_commit is required"
    );
    assert_eq!(
        failure(service.update_goal_candidate_commit(&goal, " ")),
        "candidate commit is required"
    );
    let cleared = service.update_goal_branch_name(&goal, Some("  ")).ok().unwrap();
    assert!(cleared.get("branch_name").unwrap().is_null());
}

#[test]
fn membership_assignee_and_transfer_are_recorded() {
    let service = FileWorkItemService::new(".refine");
    let mut record = created(&service, "Goal", "GOAL1", "default").record;
    record.set("rounds", Json::array(vec![round("ann", "one")]));
    let goal = access(&record, "default");
    let member =
        service.set_goal_feature_membership(&goal, Some("FEA1"), Some(-1)).ok().unwrap();
    assert_eq!(member.get_text("feature_id"), Some("FEA1"));
    let alone = service.set_goal_feature_membership(&goal, None, None).ok().unwrap();
    assert!(alone.get("feature_order").unwrap().is_null());
    let assigned = service.update_goal_assignee_summary(&goal, &person(" bob ")).ok().unwrap();
    assert_eq!(rounds_of(&assigned)[0].get_text("assignee"), Some("bob"));
    let unassigned = service.update_goal_assignee_summary(&goal, &person(" ")).ok().unwrap();
    assert!(rounds_of(&unassigned)[0].get("assignee").unwrap().is_null());

    assert_eq!(service.validate_transfer_target_node(" worker ", &Ok(())).unwrap(), "worker");
    assert_eq!(
        service.validate_transfer_target_node(" ", &Ok(())).unwrap_err().describe(),
        "target_node_id is required"
    );
    let unknown = Err(RefineError::NotFound(text("Node worker was not found")));
    assert!(service.validate_transfer_target_node("worker", &unknown).is_err());
    let feature = FileWorkItemService::set_feature_node_unchecked(
        "feature.json",
        &Ok(Json::object()),
        "worker",
    );
    assert_eq!(feature.ok().unwrap().get_text("node_id"), Some("worker"));
}

#[test]
fn deleting_a_goal_names_its_directory_and_leaves_the_index() {
    let service = FileWorkItemService::new("app/.refine");
    let record = created(&service, "Goal", "GOAL1", "default").record;
    let deletion = service.delete_goal_record(&access(&record, "default")).ok().unwrap();
    assert_eq!(deletion.path, "app/.refine/goals/GO/AL1/goal.json");
    assert_eq!(deletion.directory, "app/.refine/goals/GO/AL1");
    assert_eq!(deletion.index_record.id, "GOAL1");
    assert!(deletion.index_record.removed);
    assert!(service.delete_goal_record(&access(&record, "worker")).is_err());
}

#[test]
fn a_restored_cancellation_leaves_the_record_as_it_was() {
    let service = FileWorkItemService::new(".refine");
    let record = created(&service, "Goal", "GOAL1", "default").record;
    let mut settled = clone_json(&record);
    settled.set("status", Json::text("cancelled"));
    let settled = set_workflow_revision(&settled, 7).ok().unwrap();
    let mut transaction = GoalCancellationTransaction {
        goal_id: text("GOAL1"),
        goal_path: text("goal.json"),
        original: clone_json(&record),
        settled,
        committed: false,
    };
    assert!(transaction.restore().ok().unwrap().is_none());
    let written = transaction.commit().ok().unwrap().unwrap();
    assert_eq!(written.get_text("status"), Some("cancelled"));
    transaction.committed();
    assert!(transaction.commit().ok().unwrap().is_none());
    let restored = transaction.restore().ok().unwrap().unwrap();
    assert_eq!(restored.get_text("status"), Some("backlog"));
    transaction.restored();
    assert!(!transaction.committed);
    assert!(set_workflow_revision(&Json::null(), 1).is_err());
}

#[test]
fn details_name_the_node_and_keep_the_rounds() {
    let service = FileWorkItemService::new(".refine");
    let mut record = created(&service, "Goal", "GOAL1", "worker").record;
    record.set("rounds", Json::array(vec![round("ann", "one")]));
    let projected = snapshot(vec![index("GOAL1", "Goal", GoalStatus::Backlog, Some("worker"))]);
    let context = |nodes: RefineResult<Vec<Node>>| DetailContext {
        nodes,
        blocking_notice: Some(Json::text("blocked")),
        logs: vec![Ok(Vec::new())],
        latest_fields: Ok(vec![(text("session"), Json::text("s1"))]),
    };
    let node = |id: &str, name: &str| Node {
        id: text(id),
        display_name: text(name),
        user_named: false,
        enabled: true,
        archived: false,
        health: None,
    };
    let stored: RefineResult<Json> = Ok(clone_json(&record));
    let shown = |nodes: RefineResult<Vec<Node>>| {
        service.show_goal_detail(&projected, "GOAL1", &stored, &context(nodes)).ok().unwrap()
    };
    let detail = shown(Ok(Vec::new()));
    assert_eq!(detail.get_text("node_display_name"), Some("worker"));
    assert_eq!(rounds_of(&detail).len(), 1);
    assert_eq!(rounds_of(&detail)[0].get_text("prompt"), Some("one"));
    assert!(detail.get("feature_blocking_notice").is_none());
    let detail = shown(Ok(vec![node("other", "Other"), node("worker", "Worker")]));
    assert_eq!(detail.get_text("node_display_name"), Some("Worker"));
    assert!(detail.get("node_identity_diagnostics").is_none());
    let detail = shown(Err(RefineError::Io(text("unreadable"))));
    assert_eq!(detail.get_text("node_display_name"), Some("worker"));
    let missing = service.show_goal_detail(&projected, "GOAL9", &stored, &context(Ok(Vec::new())));
    assert!(missing.is_err());

    let mut owned = index("GOAL1", "Goal", GoalStatus::Backlog, Some("default"));
    owned.feature_id = Some(text("FEA1"));
    let projected = snapshot(vec![owned]);
    let nodes = Ok(vec![node("default", "Box (QA)")]);
    let detail =
        service.show_goal_detail(&projected, "GOAL1", &stored, &context(nodes)).ok().unwrap();
    assert_eq!(detail.get_text("node_display_name"), Some("Default"));
    let diagnostics = detail.get_array("node_identity_diagnostics").unwrap();
    assert_eq!(diagnostics[0].get_text("code"), Some("ambiguous_legacy_default_display_name"));
    assert_eq!(detail.get_text("feature_blocking_notice"), Some("blocked"));
}

#[test]
fn reporters_are_set_and_cleared() {
    let service = FileWorkItemService::new(".refine");
    let record = created(&service, "Goal", "GOAL1", "default").record;
    let goal = access(&record, "default");
    let set = service.set_goal_reporter_unchecked_at(&goal, &person(" ann "), NOW).ok().unwrap();
    assert_eq!(set.get_text("reporter"), Some("ann"));
    let cleared = service.update_goal_reporter_summary(&goal, &person("  ")).ok().unwrap();
    assert!(cleared.get("reporter").unwrap().is_null());
    assert_eq!(
        failure(service.set_latest_round_assignee(&goal, &person("bob"))),
        "Goal GOAL1 has no rounds"
    );
}

#[test]
fn goals_and_features_of_other_nodes_are_guarded() {
    let service = FileWorkItemService::new(".refine");
    let active = Ok(text("default"));
    let own = summary(index("GOAL1", "Goal", GoalStatus::Todo, Some("default")));
    let foreign = summary(index("GOAL1", "Goal", GoalStatus::Todo, Some("worker")));
    assert!(service.ensure_goal_owned(&own, &active).is_ok());
    assert!(service.ensure_goal_owned(&foreign, &active).is_err());
    let fixed = FileWorkItemService::for_node(".refine", "worker");
    assert!(fixed.ensure_goal_owned(&foreign, &active).is_ok());
    assert_eq!(fixed.active_node_id(&active).unwrap(), "worker");
}

#[test]
fn a_restored_record_is_read_back() {
    let transaction = GoalCancellationTransaction {
        goal_id: text("GOAL1"),
        goal_path: text("goal.json"),
        original: Json::object(),
        settled: Json::object(),
        committed: true,
    };
    let restored = transaction.restored_record(b"{\"status\":\"todo\"}").ok().unwrap();
    assert_eq!(restored.get_text("status"), Some("todo"));
    assert!(transaction.restored_record(b"[").is_err());
    assert!(transaction.original_value().is_object());
    assert!(transaction.settled_value().is_object());
    let projected = snapshot(vec![index("GOAL1", "Goal", GoalStatus::Todo, None)]);
    assert_eq!(transaction.projection(&projected).ok().unwrap().goal.id, "GOAL1");
}

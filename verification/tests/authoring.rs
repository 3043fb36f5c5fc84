use refine::errors::{RefineError, RefineResult};
use refine::json::Json;
use refine::model::{
    DashboardProjection, FeatureIndexProjection, FeatureRollup, FeatureSummaryProjection,
    GoalIndexProjection, GoalPriority, GoalStatus, GoalSummaryProjection, ProjectionSnapshot,
    StatusCounts,
};
use refine::text_map::TextMap;
use refine::work_items::authoring::{
    authoring_operations, creation_steps, edit_steps, goal_written, original_moved,
    AuthoringContext, AuthoringDecisions, AuthoringPlan,
    FeatureGoalAuthoringRequest, GoalAuthoringRequest,
};
use refine::work_items::bulk::{
    goals_with_ids, matching_goals, BulkGoalStatusMutation, BulkGoalStatusProtection,
    BulkSelection, BulkStatusFacts,
};
use refine::work_items::placement::{FeatureGoal, FeatureGoalPlacement};
use refine::work_items::records::PersonName;
use refine::work_items::{FileWorkItemService, OperationDecision};

const NOW: &str = "2026-07-25T12:00:00Z";

fn text(value: &str) -> String {
    value.to_string()
}

fn person(name: &str) -> PersonName {
    PersonName { text: text(name), acceptable: true }
}

fn goal(id: &str, status: GoalStatus, prompt: Option<&str>) -> GoalSummaryProjection {
    GoalSummaryProjection {
        goal: GoalIndexProjection {
            id: text(id),
            name: text(id),
            status,
            priority: GoalPriority::Low,
            reporter: None,
            assignee: None,
            round_count: if prompt.is_some() { 1 } else { 0 },
            created: text(NOW),
            updated: text(NOW),
            branch_name: None,
            node_id: None,
            feature_id: None,
            feature_order: None,
            json_path: format!("goals/{}/{}/goal.json", &id[..2], &id[2..]),
        },
        node_display_name: None,
        latest_round_prompt: prompt.map(str::to_string),
        searchable_text: String::new(),
        activity_ids: Vec::new(),
    }
}

fn in_feature(mut goal: GoalSummaryProjection, feature: &str, order: Option<i64>) -> GoalSummaryProjection {
    goal.goal.feature_id = Some(text(feature));
    goal.goal.feature_order = order;
    goal
}

fn feature(id: &str, node_id: Option<&str>) -> FeatureSummaryProjection {
    FeatureSummaryProjection {
        feature: FeatureIndexProjection {
            id: text(id),
            name: text(id),
            description: None,
            reporter: None,
            assignee: None,
            node_id: node_id.map(str::to_string),
            created: text(NOW),
            updated: text(NOW),
            json_path: format!("features/{id}/feature.json"),
        },
        status: GoalStatus::Todo,
        rollup: FeatureRollup { total: 0, done: 0, failed: 0, active: 0 },
        goal_ids: Vec::new(),
    }
}

fn snapshot(
    goals: Vec<GoalSummaryProjection>,
    features: Vec<FeatureSummaryProjection>,
) -> ProjectionSnapshot {
    let mut goal_map = TextMap::new();
    for goal in goals {
        goal_map.insert(goal.goal.id.clone(), goal);
    }
    let mut feature_map = TextMap::new();
    for feature in features {
        feature_map.insert(feature.feature.id.clone(), feature);
    }
    ProjectionSnapshot {
        version: 2,
        generated_at: text(NOW),
        refine_dir: None,
        source_fingerprints: TextMap::new(),
        goals: goal_map,
        features: feature_map,
        activity: TextMap::new(),
        changes: TextMap::new(),
        dashboard: DashboardProjection {
            recent_activity_ids: Vec::new(),
            all_node_status_counts: StatusCounts::of(&Vec::new()),
        },
    }
}

fn allowed() -> OperationDecision {
    OperationDecision { allowed: true, reason: None }
}

fn decisions() -> AuthoringDecisions {
    AuthoringDecisions {
        edit_metadata: allowed(),
        submit_new_round: allowed(),
        edit_latest_round: allowed(),
        reorder_in_feature: allowed(),
    }
}

fn denied(reason: &str) -> OperationDecision {
    OperationDecision { allowed: false, reason: Some(text(reason)) }
}

fn context() -> AuthoringContext {
    AuthoringContext {
        derived_name: Some(text("Derived")),
        registered_node: Ok(text("default")),
        decisions: decisions(),
        prerequisite: None,
    }
}

fn request(goal_id: Option<&str>, prompt: &str, decision: &str) -> GoalAuthoringRequest {
    GoalAuthoringRequest {
        goal_id: goal_id.map(str::to_string),
        id: None,
        name: Some(text("Named")),
        prompt: text(prompt),
        reporter: person("ann"),
        assignee: None,
        priority: text("high"),
        feature_id: None,
        placement: FeatureGoalPlacement::Unordered,
        duplicate_decision: text(decision),
    }
}

fn failure(result: RefineResult<AuthoringPlan>) -> String {
    result.err().unwrap().describe()
}

#[test]
fn a_duplicate_prompt_asks_for_a_decision() {
    let service = FileWorkItemService::new(".refine");
    let known = snapshot(vec![goal("GOAL1", GoalStatus::Todo, Some("Do it"))], Vec::new());
    match service.author_goal(&request(None, " Do it ", ""), &known, &context()).ok().unwrap() {
        AuthoringPlan::Finished(result) => {
            assert!(!result.created);
            assert!(result.requires_duplicate_decision);
            assert_eq!(result.duplicate.unwrap().id, "GOAL1");
        }
        _ => panic!("a duplicate is not created unasked"),
    }
    match service.author_goal(&request(None, "Other", ""), &known, &context()).ok().unwrap() {
        AuthoringPlan::CreateDirect(goal) | AuthoringPlan::Create(goal) => {
            assert_eq!(goal.name, "Named");
            assert_eq!(goal.prompt, "Other");
            assert_eq!(goal.priority, "high");
        }
        _ => panic!("a new prompt is created"),
    }
    let found = FileWorkItemService::latest_round_duplicate_in_snapshot(&known, "Do it").unwrap();
    assert_eq!(found.id, "GOAL1");
    assert!(service.latest_round_duplicate(&known, "Do").is_none());
}

#[test]
fn an_unusable_request_is_refused() {
    let service = FileWorkItemService::new(".refine");
    let known = snapshot(Vec::new(), Vec::new());
    let mut unnamed = request(None, "Do it", "");
    unnamed.name = Some(text(" "));
    let mut nothing_derived = context();
    nothing_derived.derived_name = None;
    assert_eq!(
        failure(service.author_goal(&unnamed, &known, &nothing_derived)),
        "Goal name is required"
    );
    let mut twice = request(Some("GOAL1"), "Do it", "");
    twice.id = Some(text("GOAL2"));
    assert_eq!(
        failure(service.author_goal(&twice, &known, &context())),
        "id cannot be supplied when editing a Goal"
    );
    let mut placed = request(None, "Do it", "");
    placed.placement = FeatureGoalPlacement::First;
    assert_eq!(
        failure(service.author_goal(&placed, &known, &context())),
        "Goal placement requires a Feature"
    );
    let mut odd = request(None, "Do it", "");
    odd.priority = text("urgent");
    assert_eq!(
        failure(service.author_goal(&odd, &known, &context())),
        "priority must be one of low, medium, or high"
    );
    assert_eq!(
        failure(service.author_goal(&request(Some("GONE"), "Do it", ""), &known, &context())),
        "Goal GONE was not found in refine state"
    );
    let mut nameless = request(None, "Do it", "");
    nameless.reporter = PersonName { text: text("?"), acceptable: false };
    assert_eq!(
        failure(service.author_goal(&nameless, &known, &context())),
        "invalid reporter name"
    );
}

#[test]
fn features_of_another_node_get_no_goals() {
    let service = FileWorkItemService::new(".refine");
    let known =
        snapshot(Vec::new(), vec![feature("FEA1", Some("worker")), feature("FEA2", None)]);
    let inline = |feature_id: &str| {
        service.author_feature_goal(
            feature_id,
            FeatureGoalAuthoringRequest {
                goal_id: None,
                name: Some(text("Named")),
                prompt: text("Do it"),
                reporter: person("ann"),
                assignee: None,
                priority: text("low"),
                placement: FeatureGoalPlacement::Unordered,
                duplicate_decision: String::new(),
            },
            &known,
            &context(),
        )
    };
    assert_eq!(
        failure(inline("FEA1")),
        "Feature FEA1 is owned by node worker, not active node default"
    );
    assert_eq!(failure(inline("FEA9")), "Feature FEA9 was not found in refine state");
    match inline("FEA2").ok().unwrap() {
        AuthoringPlan::Create(goal) | AuthoringPlan::CreateDirect(goal) => {
            assert_eq!(goal.feature_id.as_deref(), Some("FEA2"));
        }
        _ => panic!("an own feature takes goals"),
    }
}

#[test]
fn edits_name_the_goal_that_is_edited() {
    let service = FileWorkItemService::new(".refine");
    let known = snapshot(vec![goal("GOAL1", GoalStatus::Todo, Some("Old"))], Vec::new());
    let plan =
        service.author_goal(&request(Some("GOAL1"), "New", ""), &known, &context()).ok().unwrap();
    match &plan {
        AuthoringPlan::Edit(edit) => {
            assert_eq!(edit.goal_id, "GOAL1");
            assert_eq!(edit.prompt, "New");
            assert!(!edit.first_round);
        }
        _ => panic!("a known goal is edited"),
    }
    if let AuthoringPlan::Edit(edit) = &plan {
        let steps = edit_steps(edit, true);
        assert_eq!(steps.metadata.priority.as_deref(), Some("high"));
        assert!(steps.append.is_none());
        let rewrite = steps.rewrite.unwrap();
        assert_eq!(rewrite.prompt.as_deref(), Some("New"));
        assert_eq!(rewrite.assignee.unwrap().text, "ann");
    }
    let saved = goal("GOAL1", GoalStatus::Todo, None).goal;
    let written = goal_written(&plan, saved);
    assert!(!written.created);
    assert_eq!(written.goal.unwrap().id, "GOAL1");

    let mut refusing = context();
    refusing.decisions.edit_metadata = denied("running");
    assert!(service.author_goal(&request(Some("GOAL1"), "New", ""), &known, &refusing).is_err());
    let begun = goal("GOAL1", GoalStatus::Todo, Some("Do it"));
    let capability =
        FileWorkItemService::feature_goal_authoring_capability(&begun, &refusing.decisions);
    assert!(!capability.editable);
    assert_eq!(capability.reason.as_deref(), Some("running"));
    assert_eq!(authoring_operations(0).len(), authoring_operations(1).len());
}

#[test]
fn only_the_operations_that_authoring_takes_are_asked_for() {
    let new = goal("GOAL1", GoalStatus::Todo, None);
    let begun = goal("GOAL1", GoalStatus::Todo, Some("Do it"));
    let mut first = decisions();
    first.submit_new_round = denied("no new round");
    first.reorder_in_feature = denied("no order");
    let capability = FileWorkItemService::feature_goal_authoring_capability(&new, &first);
    assert_eq!(capability.reason.as_deref(), Some("no new round"));
    let capability = FileWorkItemService::feature_goal_authoring_capability(&begun, &first);
    assert_eq!(capability.reason.as_deref(), Some("no order"));
    let mut latest = decisions();
    latest.edit_latest_round = denied("no edit");
    assert!(FileWorkItemService::feature_goal_authoring_capability(&new, &latest).editable);
    assert!(!FileWorkItemService::feature_goal_authoring_capability(&begun, &latest).editable);
}

#[test]
fn a_cancelled_original_is_moved_on_request() {
    let service = FileWorkItemService::new(".refine");
    let asked = |status: GoalStatus| {
        let known = snapshot(vec![goal("GOAL1", status, Some("Do it"))], Vec::new());
        let request = request(None, "Do it", "move_original_to_backlog");
        service.author_goal(&request, &known, &context()).ok().unwrap()
    };
    let duplicate = |plan: AuthoringPlan| match plan {
        AuthoringPlan::MoveOriginal(duplicate) => duplicate,
        _ => panic!("a cancelled original is moved"),
    };
    let moved = original_moved(duplicate(asked(GoalStatus::Cancelled)), true);
    assert!(!moved.created);
    assert_eq!(moved.duplicate_action.as_deref(), Some("move_original_to_backlog"));
    let report = moved.move_result.unwrap();
    assert!(report.moved);
    assert_eq!(report.from, GoalStatus::Cancelled);
    assert_eq!(report.to, GoalStatus::Backlog);
    let stays = original_moved(duplicate(asked(GoalStatus::InProgress)), false);
    assert_eq!(stays.move_result.unwrap().reason.as_deref(), Some("protected_status"));
    match asked(GoalStatus::Backlog) {
        AuthoringPlan::Finished(result) => {
            let report = result.move_result.unwrap();
            assert!(!report.moved);
            assert_eq!(report.reason.as_deref(), Some("already_backlog"));
        }
        _ => panic!("nothing is moved out of the backlog"),
    }
    let known = snapshot(vec![goal("GOAL1", GoalStatus::Todo, Some("Do it"))], Vec::new());
    assert_eq!(
        failure(service.author_goal(&request(None, "Do it", "maybe"), &known, &context())),
        "unknown duplicate_decision: maybe"
    );
}

#[test]
fn an_authored_goal_starts_with_its_round() {
    let service = FileWorkItemService::new("app/.refine");
    let known = snapshot(Vec::new(), Vec::new());
    let plan = service.author_goal(&request(None, "Do it", ""), &known, &context()).ok().unwrap();
    let authored = match plan {
        AuthoringPlan::CreateDirect(goal) | AuthoringPlan::Create(goal) => goal,
        _ => panic!("a new prompt is created"),
    };
    let steps = creation_steps(&authored);
    assert_eq!(steps.metadata.priority.as_deref(), Some("high"));
    assert_eq!(steps.round.unwrap().assignee.unwrap().text, "ann");
    let mut round = Json::object();
    round.set("prompt", Json::text("elsewhere"));
    round.set("state", Json::text("fresh"));
    let written = service
        .create_authored_goal(&authored, "GOAL7", false, &Ok(text("default")), &round)
        .ok()
        .unwrap();
    assert_eq!(written.goal.id, "GOAL7");
    assert_eq!(written.goal.record.get_text("priority"), Some("high"));
    let rounds = written.goal.record.get_array("rounds").unwrap();
    assert_eq!(rounds.len(), 1);
    assert_eq!(rounds[0].get_text("reporter"), Some(authored.reporter.as_str()));
    assert_eq!(rounds[0].get_text("assignee"), Some("ann"));
    assert_eq!(rounds[0].get_text("prompt"), Some("Do it"));
    assert_eq!(rounds[0].get_text("state"), Some("fresh"));
    assert_eq!(written.projection.ok().unwrap().goal.id, "GOAL7");
    assert!(service
        .create_authored_goal(&authored, "GOAL7", true, &Ok(text("default")), &round)
        .is_err());
}

#[test]
fn a_goal_is_placed_behind_its_prerequisite() {
    let place = |placement: &FeatureGoalPlacement, ids: &[&str]| {
        FileWorkItemService::apply_feature_goal_placement(
            "FEA1",
            "GOAL2",
            placement,
            &ids.iter().map(|id| text(id)).collect(),
        )
    };
    let ids = ["GOAL1", "GOAL3", "GOAL2"];
    let first = place(&FeatureGoalPlacement::First, &ids).unwrap();
    let after = place(&FeatureGoalPlacement::After(text("GOAL1")), &ids).unwrap();
    assert!(first < after);
    assert!(place(&FeatureGoalPlacement::After(text("GOAL9")), &ids).is_err());

    let prerequisite = |goal: GoalSummaryProjection| {
        Some(FeatureGoal { summary: goal, ordered: true, rank: 0 })
    };
    let check = |placement: &FeatureGoalPlacement, found: &Option<FeatureGoal>| {
        FileWorkItemService::validate_feature_goal_placement(
            "FEA1",
            Some("GOAL2"),
            placement,
            found,
        )
    };
    let after = FeatureGoalPlacement::After(text("GOAL1"));
    assert!(check(&FeatureGoalPlacement::Unordered, &None).is_ok());
    assert!(check(&after, &None).is_err());
    let own = prerequisite(in_feature(goal("GOAL1", GoalStatus::Todo, None), "FEA1", Some(1)));
    assert!(check(&after, &own).is_ok());
    let foreign = prerequisite(in_feature(goal("GOAL1", GoalStatus::Todo, None), "FEA2", Some(1)));
    assert!(check(&after, &foreign).is_err());
}

#[test]
fn feature_orders_are_compacted_and_continued() {
    let member = |id: &str, order: i64, rank: u64| FeatureGoal {
        summary: in_feature(goal(id, GoalStatus::Todo, None), "FEA1", Some(order)),
        ordered: true,
        rank,
    };
    let goals = vec![member("GOAL1", 7, 0), member("GOAL2", 9, 1), member("GOAL3", 30, 2)];
    let compacted = FileWorkItemService::compact_feature_orders(&goals, "FEA1");
    let ids: Vec<&str> = compacted.iter().map(|(id, _)| id.as_str()).collect();
    assert_eq!(ids, vec!["GOAL1", "GOAL2", "GOAL3"]);
    let orders: Vec<i64> = compacted.iter().map(|(_, order)| *order).collect();
    assert_eq!(orders[1], orders[0] + 1);
    assert_eq!(orders[2], orders[1] + 1);
    let indexes: Vec<GoalIndexProjection> =
        goals.into_iter().map(|goal| goal.summary.goal).collect();
    assert_eq!(FileWorkItemService::next_feature_order(&indexes, "FEA1"), 31);
}

#[test]
fn bulk_changes_skip_what_is_protected() {
    let service = FileWorkItemService::new(".refine");
    let known = snapshot(
        vec![
            goal("GOAL1", GoalStatus::Todo, None),
            goal("GOAL2", GoalStatus::InProgress, None),
            goal("GOAL3", GoalStatus::Backlog, None),
        ],
        Vec::new(),
    );
    let automated = vec![GoalStatus::InProgress];
    let all = BulkSelection {
        selected_ids: None,
        exclude_ids: vec![text("GOAL3")],
        matching_ids: vec![text("GOAL1"), text("GOAL2"), text("GOAL3")],
    };
    let ids = |protection: BulkGoalStatusProtection| {
        let selected = service
            .select_bulk_goal_summaries(&known, &all, protection, &automated)
            .ok()
            .unwrap();
        (
            selected.goals.iter().map(|goal| goal.goal.id.clone()).collect::<Vec<_>>(),
            selected.skipped.iter().map(|skip| skip.id.clone()).collect::<Vec<_>>(),
        )
    };
    assert_eq!(ids(BulkGoalStatusProtection::Unprotected).0, vec!["GOAL1", "GOAL2"]);
    let (kept, skipped) = ids(BulkGoalStatusProtection::Automated);
    assert_eq!(kept, vec!["GOAL1"]);
    assert_eq!(skipped, vec!["GOAL2"]);
    let found = |ids: &[&str], exclude: &[&str]| {
        let ids = ids.iter().map(|id| text(id)).collect::<Vec<_>>();
        let exclude = exclude.iter().map(|id| text(id)).collect::<Vec<_>>();
        goals_with_ids(&known, &ids, &exclude)
            .map(|goals| goals.into_iter().map(|goal| goal.goal.id).collect::<Vec<_>>())
    };
    assert_eq!(found(&["GOAL2", "", "GOAL1"], &["GOAL1", ""]).ok().unwrap(), vec!["GOAL2"]);
    assert_eq!(
        found(&["goal1"], &[]).err().unwrap().describe(),
        "Goal goal1 was not found in refine state"
    );
    let filtered = matching_goals(&known, &all.matching_ids, &vec![text("GOAL3")]);
    assert_eq!(filtered.len(), 2);
    let lower = BulkSelection {
        selected_ids: Some(vec![text(" goal2 "), text("goal1")]),
        exclude_ids: vec![text("Goal1")],
        matching_ids: Vec::new(),
    };
    let chosen = service
        .select_bulk_goal_summaries(
            &known,
            &lower,
            BulkGoalStatusProtection::Unprotected,
            &automated,
        )
        .ok()
        .unwrap();
    assert_eq!(chosen.goals.len(), 1);
    assert_eq!(chosen.goals[0].goal.id, "GOAL2");
    let missing = BulkSelection {
        selected_ids: Some(vec![text("GONE")]),
        exclude_ids: Vec::new(),
        matching_ids: Vec::new(),
    };
    assert!(service
        .select_bulk_goal_summaries(
            &known,
            &missing,
            BulkGoalStatusProtection::Unprotected,
            &automated
        )
        .is_err());
}

#[test]
fn a_bulk_status_change_reads_the_record_again() {
    let service = FileWorkItemService::new(".refine");
    let facts = |status: &str, claim: Option<&str>| {
        let mut record = Json::object();
        record.set("id", Json::text("GOAL1"));
        record.set("status", Json::text(status));
        BulkStatusFacts {
            path: text("goal.json"),
            record: Ok(record),
            registered_node: Ok(text("default")),
            automated: vec![GoalStatus::InProgress],
            claim: Ok(claim.map(str::to_string)),
            last_workflow_status: GoalStatus::Todo,
        }
    };
    let change = |facts: &BulkStatusFacts, target: &str| {
        service.mutate_bulk_goal_status_if_eligible_at(
            facts,
            target,
            BulkGoalStatusProtection::Automated,
            NOW,
        )
    };
    match change(&facts("backlog", None), "todo").ok().unwrap() {
        BulkGoalStatusMutation::Updated(Some(record)) => {
            assert_eq!(record.get_text("status"), Some("todo"));
            assert_eq!(record.get_text("updated"), Some(NOW));
        }
        _ => panic!("an unprotected goal is moved"),
    }
    assert!(matches!(
        change(&facts("in-progress", None), "todo").ok().unwrap(),
        BulkGoalStatusMutation::Skipped(_)
    ));
    assert!(change(&facts("backlog", None), "nowhere").is_err());
    let mut unreadable = facts("backlog", None);
    unreadable.record = Err(RefineError::Io(text("unreadable")));
    assert_eq!(change(&unreadable, "todo").err().unwrap().describe(), "unreadable");
}

#[test]
fn placements_take_only_the_steps_they_need() {
    let steps = |placement: &FeatureGoalPlacement, ordered: bool| {
        let steps = FileWorkItemService::placement_steps(placement, ordered);
        (steps.unorder, steps.order, steps.reorder)
    };
    assert_eq!(steps(&FeatureGoalPlacement::Unordered, false), (false, false, false));
    assert_eq!(steps(&FeatureGoalPlacement::Unordered, true), (true, false, false));
    assert_eq!(steps(&FeatureGoalPlacement::First, true), (false, false, true));
    assert_eq!(steps(&FeatureGoalPlacement::After(text("GOAL1")), false), (false, true, true));
}

#[test]
fn the_goals_of_a_feature_stand_in_their_order() {
    let member = |id: &str, feature: &str, rank: u64| FeatureGoal {
        summary: in_feature(goal(id, GoalStatus::Todo, None), feature, Some(1)),
        ordered: true,
        rank,
    };
    let goals =
        vec![member("GOAL1", "FEA1", 2), member("GOAL2", "FEA2", 0), member("GOAL3", "FEA1", 1)];
    let listed = FileWorkItemService::feature_goal_summaries(&goals, "FEA1");
    let ids: Vec<&str> = listed.iter().map(|goal| goal.goal.id.as_str()).collect();
    assert_eq!(ids, vec!["GOAL3", "GOAL1"]);
}

#[test]
fn bulk_features_are_chosen_by_id_or_filter() {
    let service = FileWorkItemService::new(".refine");
    let known = snapshot(Vec::new(), vec![feature("FEA2", None), feature("FEA1", None)]);
    let registered = Ok(text("default"));
    let choose = |selected: Option<Vec<String>>, exclude: Vec<String>| {
        service.select_bulk_feature_summaries(
            &known,
            &BulkSelection {
                selected_ids: selected,
                exclude_ids: exclude,
                matching_ids: vec![text("FEA1"), text("FEA2")],
            },
            &registered,
        )
    };
    let ids = |chosen: RefineResult<Vec<FeatureSummaryProjection>>| {
        chosen.ok().unwrap().into_iter().map(|f| f.feature.id).collect::<Vec<_>>()
    };
    assert_eq!(ids(choose(None, Vec::new())), vec!["FEA1", "FEA2"]);
    assert_eq!(ids(choose(None, vec![text("FEA1")])), vec!["FEA2"]);
    assert_eq!(ids(choose(Some(vec![text("FEA2")]), Vec::new())), vec!["FEA2"]);
    assert_eq!(
        choose(Some(vec![text("FEA9")]), Vec::new()).err().unwrap().describe(),
        "Feature FEA9 was not found in refine state"
    );
    let by_filter =
        BulkSelection { selected_ids: None, exclude_ids: Vec::new(), matching_ids: Vec::new() };
    let lost = Err(RefineError::Io(text("registry gone")));
    assert!(service.select_bulk_feature_summaries(&known, &by_filter, &lost).is_err());
}

use refine::errors::{RefineError, RefineResult};
use refine::json::Json;
use refine::model::{GoalIndexProjection, GoalPriority, GoalStatus, GoalSummaryProjection};
use refine::next_actions::FileNextActionsService;
use refine::nodes::Node;

fn node(id: &str) -> Node {
    Node {
        id: id.to_string(),
        display_name: id.to_string(),
        user_named: true,
        enabled: true,
        archived: false,
        health: None,
    }
}

fn goal(id: &str, name: &str, status: GoalStatus, node_id: &str) -> GoalSummaryProjection {
    GoalSummaryProjection {
        goal: GoalIndexProjection {
            id: id.to_string(),
            name: name.to_string(),
            status,
            priority: GoalPriority::Low,
            reporter: None,
            assignee: None,
            round_count: 0,
            created: "2026-01-01T00:00:00Z".to_string(),
            updated: "2026-01-01T00:00:00Z".to_string(),
            branch_name: None,
            node_id: Some(node_id.to_string()),
            feature_id: None,
            feature_order: None,
            json_path: format!("goals/{}/{}/goal.json", &id[..2], &id[2..]),
        },
        node_display_name: None,
        latest_round_prompt: None,
        searchable_text: name.to_string(),
        activity_ids: Vec::new(),
    }
}

fn texts<'a>(response: &'a Json, key: &str) -> Vec<&'a str> {
    response
        .get_array("suggestions")
        .unwrap()
        .iter()
        .map(|suggestion| suggestion.get_text(key).unwrap())
        .collect()
}

#[test]
fn next_suggests_first_goal_when_nothing_is_tracked() {
    let response = FileNextActionsService::new("guidance-empty/.refine").next_response(
        &vec![node("default")],
        &Ok("default".to_string()),
        &Vec::new(),
        &Ok(0),
    );
    assert_eq!(texts(&response, "id")[0], "capture-first-goal");
}

#[test]
fn next_suggests_distribution_and_convergence() {
    let nodes = vec![node("default"), node("fly-worker-1")];
    let goals = vec![
        goal("GOAL1", "Goal A", GoalStatus::Backlog, "default"),
        goal("GOAL2", "Goal B", GoalStatus::Backlog, "default"),
        goal("GOAL3", "Goal C", GoalStatus::Review, "fly-worker-1"),
    ];
    let response = FileNextActionsService::new("guidance-fleet/.refine")
        .next_response(&nodes, &Ok("default".to_string()), &goals, &Ok(0));
    let ids = texts(&response, "id");
    assert!(ids.contains(&"distribute-work"), "ids: {ids:?}");
    assert!(ids.contains(&"converge-reviewables"), "ids: {ids:?}");
    let commands = texts(&response, "command");
    assert!(commands.contains(&"refine cluster distribute --converge --to default"));
}

#[test]
fn next_reports_steady_state_when_nothing_needs_attention() {
    let goals = vec![goal("GOAL1", "Done goal", GoalStatus::Done, "default")];
    let response = FileNextActionsService::new("guidance-quiet/.refine").next_response(
        &vec![node("default")],
        &Ok("default".to_string()),
        &goals,
        &Ok(0),
    );
    assert_eq!(texts(&response, "id")[0], "all-quiet");
}

#[test]
fn claims_count_only_with_a_runtime_that_can_be_read() {
    let lost = || RefineError::Io("lost".to_string());
    let shown = |service: FileNextActionsService, claims: RefineResult<usize>| {
        let nodes = vec![node("default")];
        let response = service.next_response(&nodes, &Err(lost()), &Vec::new(), &claims);
        assert_eq!(response.get_text("active_node_id"), Some("default"));
        response.get("state").unwrap().get_unsigned("active_claims").unwrap()
    };
    let with_runtime = || FileNextActionsService::with_runtime_root(".refine", "run/8080");
    assert_eq!(shown(with_runtime(), Ok(3)), 3);
    assert_eq!(shown(with_runtime(), Err(lost())), 0);
    assert_eq!(shown(FileNextActionsService::new(".refine"), Ok(3)), 0);
    let registry = with_runtime().node_registry_service();
    assert_eq!(registry.active_root.as_deref(), Some("run/8080"));
}

#[test]
fn failed_nodes_are_to_be_inspected_and_not_counted() {
    let mut failed = node("worker");
    failed.health = Some("failed".to_string());
    let mut archived = node("old");
    archived.archived = true;
    let goals = vec![goal("GOAL1", "Open", GoalStatus::Todo, "default")];
    let response = FileNextActionsService::new(".refine").next_response(
        &vec![node("default"), failed, archived],
        &Ok("default".to_string()),
        &goals,
        &Ok(0),
    );
    assert_eq!(texts(&response, "id"), vec!["inspect-failed-node"]);
    assert_eq!(texts(&response, "command"), vec!["refine cluster show worker"]);
    let state = response.get("state").unwrap();
    assert_eq!(state.get_unsigned("nodes_enabled"), Some(2));
    assert_eq!(state.get_unsigned("nodes_healthy"), Some(1));
    assert_eq!(
        state.get("open_goals_by_node").unwrap().get_unsigned("default"),
        Some(1)
    );
}

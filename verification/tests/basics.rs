use refine::errors::{error_with_message, goal_not_found_error, RefineError};
use refine::model::{owner_of, GoalPriority, GoalStatus};
use refine::nodes::{FileNodeRegistryService, Node};
use refine::paths::{file_name_of, join_path, parent_of};
use refine::project_registry::{
    default_registry, AppRegistry, FileProjectRegistryService, ProjectRegistryService,
    RegisteredApp,
};

const STATUSES: [GoalStatus; 10] = [
    GoalStatus::Backlog,
    GoalStatus::Todo,
    GoalStatus::InProgress,
    GoalStatus::Qa,
    GoalStatus::ReadyMerge,
    GoalStatus::Build,
    GoalStatus::Review,
    GoalStatus::Done,
    GoalStatus::Failed,
    GoalStatus::Cancelled,
];

#[test]
fn every_status_and_priority_is_read_back_from_its_name() {
    for status in STATUSES {
        assert_eq!(GoalStatus::parse_wire(status.as_str()), Some(status));
    }
    assert_eq!(GoalStatus::parse_wire("ready-merge"), Some(GoalStatus::ReadyMerge));
    assert_eq!(GoalStatus::parse_wire("Ready-Merge"), None);
    for priority in [GoalPriority::Low, GoalPriority::Medium, GoalPriority::High] {
        assert_eq!(GoalPriority::parse_wire(priority.as_str()), Some(priority));
    }
    assert_eq!(GoalPriority::parse_wire("urgent"), None);
}

#[test]
fn the_last_message_of_an_error_stands() {
    let errors = || {
        vec![
            RefineError::InvalidInput("a".to_string()),
            RefineError::NotFound("a".to_string()),
            RefineError::Unauthorized("a".to_string()),
            RefineError::Conflict("a".to_string()),
            RefineError::Degraded("a".to_string()),
            RefineError::Io("a".to_string()),
            RefineError::Serialization("a".to_string()),
            RefineError::NotImplemented("a".to_string()),
        ]
    };
    for error in errors() {
        let first = error_with_message(error, "b".to_string());
        let second = error_with_message(first, "c".to_string());
        assert_eq!(second.describe(), "c");
    }
    let stale = RefineError::StaleCandidate {
        candidate_commit: "cand".to_string(),
        recorded_base: "base".to_string(),
        target_branch: "main".to_string(),
        target_commit: "tip".to_string(),
    };
    assert!(stale.describe().contains("cand"));
    assert!(matches!(error_with_message(stale, "d".to_string()), RefineError::Conflict(_)));
    assert!(matches!(goal_not_found_error("GOAL1"), RefineError::NotFound(_)));
}

#[test]
fn paths_are_joined_and_taken_apart() {
    assert_eq!(join_path("a/b", "c"), "a/b/c");
    assert_eq!(join_path("a/b", "/c"), "/c");
    assert_eq!(file_name_of("a/b/c.json"), Some("c.json"));
    assert_eq!(parent_of("a/b/c.json"), "a/b");
}

#[test]
fn goals_without_a_node_belong_to_the_default_one() {
    assert_eq!(owner_of(&None), "default");
    assert_eq!(owner_of(&Some("worker".to_string())), "worker");
}

fn app(name: &str, path: &str) -> RegisteredApp {
    RegisteredApp {
        name: name.to_string(),
        path: path.to_string(),
        added_at: "2026-01-01T00:00:00Z".to_string(),
        last_used_at: None,
    }
}

fn paths(registry: &AppRegistry) -> Vec<String> {
    (0..registry.apps.len()).map(|i| registry.apps.key_at(i).clone()).collect()
}

#[test]
fn removing_a_project_undoes_its_registration() {
    let service = FileProjectRegistryService::new("run/8080", None);
    let before = service.register(default_registry(), app("one", "/one"));
    let with_two = service.register(service.register(default_registry(), app("one", "/one")), app("two", "/two"));
    assert_eq!(paths(&with_two), vec!["/one", "/two"]);
    let after = service.remove(with_two, "two").unwrap();
    assert_eq!(paths(&after), paths(&before));
    assert!(service.remove(after, "two").is_err());
}

#[test]
fn removing_the_attached_project_attaches_to_nothing() {
    let service = FileProjectRegistryService::new("run/8080", None);
    let attached = service
        .register_path(&Ok("/one".to_string()), Ok(default_registry()), None, true, &Ok(()))
        .ok()
        .unwrap();
    assert_eq!(attached.active_app.as_deref(), Some("/one"));
    let after = service.remove(attached, "/one").unwrap();
    assert!(after.active_app.is_none());
}

#[test]
fn projects_without_a_path_are_dropped_once() {
    let service = FileProjectRegistryService::new("run/8080", None);
    let mut stored = default_registry();
    stored.apps.insert("/one".to_string(), app("one", "/one"));
    stored.apps.insert("lost".to_string(), app("lost", "  "));
    let loaded = service.load(Some(stored));
    assert_eq!(paths(&loaded), vec!["/one"]);
    let again = service.load(Some(loaded));
    assert_eq!(paths(&again), vec!["/one"]);
}

#[test]
fn unknown_nodes_are_not_found() {
    let service = FileNodeRegistryService::new(".refine");
    let nodes: Vec<Node> = Vec::new();
    assert_eq!(
        service.node_identity(&nodes, "worker").err().unwrap().describe(),
        "node worker was not found"
    );
}

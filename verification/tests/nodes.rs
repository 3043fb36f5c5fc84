use refine::json::Json;
use refine::nodes::{
    invalid_selection_diagnostic, legacy_label_diagnostic, legacy_selection_diagnostic,
    project_mismatch_diagnostic, ActiveNodeSelection, FileNodeRegistryService, Node, SelectionRead,
};

fn node(id: &str, display_name: &str) -> Node {
    Node {
        id: id.to_string(),
        display_name: display_name.to_string(),
        user_named: false,
        enabled: true,
        archived: false,
        health: None,
    }
}

fn named_node(id: &str, display_name: &str) -> Node {
    Node { user_named: true, ..node(id, display_name) }
}

fn selected(node_id: &str, refine_dir: &str, same_project: bool) -> SelectionRead {
    SelectionRead::Scoped(ActiveNodeSelection {
        active_node_id: node_id.to_string(),
        refine_dir: refine_dir.to_string(),
        same_project,
    })
}

#[test]
fn file_node_registry_manages_nodes_and_active_selection() {
    let service = FileNodeRegistryService::new("nodes/.refine");
    let mut nodes = vec![node("default", "Default")];
    let (active, diagnostics) = service.resolve_active_selection(&nodes, &SelectionRead::Missing);
    assert_eq!(active, "default");
    assert!(diagnostics.is_empty());

    nodes.push(named_node("node-1", "Node One"));
    let (active, _) =
        service.resolve_active_selection(&nodes, &selected("node-1", "nodes/.refine", true));
    assert_eq!(active, "node-1");

    nodes[1].archived = true;
    let (active, diagnostics) =
        service.resolve_active_selection(&nodes, &selected("node-1", "nodes/.refine", true));
    assert_eq!(active, "default");
    assert_eq!(diagnostics.len(), 1);
}

#[test]
fn file_node_registry_can_keep_active_selection_outside_shared_refine_dir() {
    let refine_dir = "nodes-active-root/app/.refine";
    let service_a = FileNodeRegistryService::with_active_root(refine_dir, "run/8082");
    let service_b = FileNodeRegistryService::with_active_root(refine_dir, "run/8083");
    let nodes = vec![
        node("default", "Default"),
        named_node("node-a", "Ethan"),
        named_node("node-b", "QA"),
    ];
    let a = service_a.active_identity(&nodes, &selected("node-a", refine_dir, true));
    let b = service_b.active_identity(&nodes, &selected("node-b", refine_dir, true));
    assert_eq!(a.id, "node-a");
    assert_eq!(b.id, "node-b");
    assert_eq!(a.display_name, "Ethan");
    assert_eq!(b.display_name, "QA");
}

#[test]
fn stale_legacy_default_label_is_diagnostic_until_explicitly_confirmed() {
    let service = FileNodeRegistryService::with_active_root(
        "nodes-stale-default-label/app/.refine",
        "run/8082",
    );
    let mut nodes = vec![node("default", "BO2LNXNEVO04 (QA)"), node("qa", "Quality Assurance")];

    let active = service.active_identity(&nodes, &SelectionRead::Missing);
    assert_eq!(active.id, "default");
    assert_eq!(active.display_name, "Default");
    assert_eq!(active.diagnostics[0].code, "ambiguous_legacy_default_display_name");
    let identities = service.node_identities(&nodes);
    let default = identities.get("default").unwrap();
    assert_eq!(default.display_name, "Default");
    assert_eq!(default.registry_display_name, "BO2LNXNEVO04 (QA)");
    assert_eq!(default.diagnostics[0].code, "ambiguous_legacy_default_display_name");
    assert!(default.diagnostics[0].message.contains("\"BO2LNXNEVO04 (QA)\""));
    let qa = identities.get("qa").unwrap();
    assert_eq!(qa.display_name, "Quality Assurance");

    nodes[0] = named_node("default", "Local Workstation");
    let confirmed = service.active_identity(&nodes, &SelectionRead::Missing);
    assert_eq!(confirmed.display_name, "Local Workstation");
    assert!(confirmed.diagnostics.is_empty());
}

#[test]
fn runtime_selection_is_scoped_to_the_attached_project_across_restart() {
    let refine_a = "nodes-project-selection/app-a/.refine";
    let refine_b = "nodes-project-selection/app-b/.refine";
    let service_a = FileNodeRegistryService::with_active_root(refine_a, "run/8082");
    let service_b = FileNodeRegistryService::with_active_root(refine_b, "run/8082");
    let nodes_a = vec![node("default", "Default"), node("ethan", "ethan")];
    let nodes_b = vec![node("default", "Default"), node("qa", "qa")];

    let own = service_a.active_identity(&nodes_a, &selected("ethan", refine_a, true));
    assert_eq!(own.id, "ethan");
    let switched = service_b.active_identity(&nodes_b, &selected("ethan", refine_a, false));
    assert_eq!(switched.id, "default");
    assert_eq!(switched.diagnostics[0].code, "active_node_selection_project_mismatch");

    let restarted = FileNodeRegistryService::with_active_root(refine_b, "run/8082")
        .active_identity(&nodes_b, &selected("ethan", refine_a, false));
    assert_eq!(restarted.id, "default");
    assert_eq!(restarted.diagnostics[0].code, "active_node_selection_project_mismatch");

    let activated = service_b.active_identity(&nodes_b, &selected("qa", refine_b, true));
    assert_eq!(activated.id, "qa");
    let left = service_a.active_identity(&nodes_a, &selected("qa", refine_b, false));
    assert_eq!(left.id, "default");
}

#[test]
fn legacy_unscoped_runtime_selection_requires_reactivation() {
    let refine_dir = "nodes-legacy-active-selection/app/.refine";
    let service = FileNodeRegistryService::with_active_root(refine_dir, "run/8082");
    let nodes = vec![node("default", "Default"), node("worker", "worker")];
    let mut unscoped = Json::object();
    unscoped.set("active_node_id", Json::text("worker"));

    let legacy = service.active_identity(&nodes, &SelectionRead::Unscoped(unscoped));
    assert_eq!(legacy.id, "default");
    assert_eq!(legacy.diagnostics[0].code, "legacy_unscoped_active_node_selection");
    let active = service.active_identity(&nodes, &selected("worker", refine_dir, true));
    assert_eq!(active.id, "worker");
}

#[test]
fn an_unknown_node_has_no_identity() {
    let service = FileNodeRegistryService::new("app/.refine");
    let nodes = vec![node("default", "Default")];
    let error = service.node_identity(&nodes, "worker").unwrap_err();
    assert_eq!(error.describe(), "node worker was not found");
    assert_eq!(service.node_identity(&nodes, "default").unwrap().display_name, "Default");
}

#[test]
fn diagnostics_carry_the_quoted_text() {
    let label = legacy_label_diagnostic("\"QA\"");
    assert_eq!(label.code, "ambiguous_legacy_default_display_name");
    assert!(label.message.starts_with("The shared legacy default node label \"QA\" has no"));
    let mismatch = project_mismatch_diagnostic("\"n\"", "a/.refine", "b/.refine");
    assert_eq!(
        mismatch.message,
        "Ignored active node \"n\" because its runtime-local selection belongs to a/.refine, \
         not b/.refine. This project is using node id \"default\"."
    );
    let legacy = legacy_selection_diagnostic("\"n\"");
    assert_eq!(legacy.code, "legacy_unscoped_active_node_selection");
    assert!(legacy.message.starts_with("Ignored legacy runtime-local active node \"n\" because"));
    let invalid = invalid_selection_diagnostic("\"n\"");
    assert_eq!(invalid.code, "invalid_active_node_selection");
    assert!(invalid.message.starts_with("Ignored active node \"n\" because that node is missing"));
}

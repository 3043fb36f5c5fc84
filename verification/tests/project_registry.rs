use refine::errors::{RefineError, RefineResult};
use refine::nodes::{ActiveNodeSelection, FileNodeRegistryService, Node, SelectionRead};
use refine::project_registry::{
    default_registry, detached_schema_status, ensure_schema_ready, git_failure_error,
    git_init_arguments, migrate_schema_if_safe, normalize_app_path, project_status_for,
    registry_apps_array, should_create_local_project, AppRegistry, FileProjectRegistryService,
    PathFacts, ProjectRegistryService, ProjectSchemaStatus, SchemaStep,
};

fn node(id: &str, display_name: &str, user_named: bool) -> Node {
    Node {
        id: id.to_string(),
        display_name: display_name.to_string(),
        user_named,
        enabled: true,
        archived: false,
        health: None,
    }
}

fn ready_schema() -> ProjectSchemaStatus {
    ProjectSchemaStatus { compatible: true, ..detached_schema_status(3) }
}

#[test]
fn normalize_app_path_expands_home_prefix() {
    let home = Some("/home/tester".to_string());
    let cwd = Ok("/work".to_string());
    assert_eq!(
        normalize_app_path("~/refine-test-app", &home, &cwd).unwrap(),
        "/home/tester/refine-test-app"
    );
}

#[test]
fn other_app_paths_are_taken_from_the_working_directory() {
    let home = Some("/home/tester".to_string());
    let cwd = Ok("/work".to_string());
    assert_eq!(normalize_app_path("/srv/app", &home, &cwd).unwrap(), "/srv/app");
    assert_eq!(normalize_app_path("app", &home, &cwd).unwrap(), "/work/app");
    assert!(normalize_app_path("  ", &home, &cwd).is_err());
    let nowhere = Err("no directory".to_string());
    let error = normalize_app_path("app", &home, &nowhere).unwrap_err();
    assert!(error.describe().contains("no directory"));
}

#[test]
fn file_project_registry_persists_apps_and_active_status() {
    let service =
        FileProjectRegistryService::new("project-registry/run/8080", Some("/tmp/app".to_string()));
    let registry = service.load(None);
    let plan = service.status(registry);
    assert!(plan.save);
    assert_eq!(plan.current.as_deref(), Some("/tmp/app"));
    let status = project_status_for(
        plan.registry,
        plan.current,
        true,
        Some("/tmp/app/.refine".to_string()),
        ready_schema(),
        None,
    );
    assert!(status.attached);
    assert_eq!(status.apps.apps.len(), 1);
    assert_eq!(status.apps.active_app.as_deref(), Some("/tmp/app"));

    let listed = service.list_response(&status.apps);
    assert_eq!(listed.get_array("apps").unwrap().len(), 1);

    let detached = service.detach(status.apps);
    assert!(detached.active_app.is_none());
    assert_eq!(detached.apps.len(), 1);
}

#[test]
fn file_project_registry_attach_creates_missing_local_project() {
    let service = FileProjectRegistryService::new("project-registry-create-local/run/8080", None);
    let facts = PathFacts { exists: false, is_dir: false, has_git: false, is_empty: false };
    assert!(service.attach(&facts));
    assert!(should_create_local_project(&facts));
    assert!(service.create_local_project_at("/tmp/new-app", &facts).is_ok());
    let registry = attached(&service, "/tmp/new-app");
    assert_eq!(registry.active_app.as_deref(), Some("/tmp/new-app"));
}

#[test]
fn file_project_registry_normalizes_refine_dir_inputs_before_persisting() {
    let service = FileProjectRegistryService::new("project-registry-refine-dir/run/8080", None);
    let cwd = Ok("/work".to_string());
    let path = normalize_app_path("/tmp/app/.refine", &None, &cwd).unwrap();
    assert_eq!(path, "/tmp/app");
    let registry = attached(&service, &path);
    assert_eq!(registry.active_app.as_deref(), Some("/tmp/app"));
    assert!(registry.apps.contains_key("/tmp/app"));
    assert!(!registry.apps.contains_key("/tmp/app/.refine"));
}

#[test]
fn file_project_registry_clones_and_registers_app() {
    let service = FileProjectRegistryService::new("project-registry-clone/run/8080", None);
    assert_eq!(
        service.clone_app("/tmp/source", "/tmp/cloned-app", false).unwrap(),
        vec!["clone", "/tmp/source", "/tmp/cloned-app"]
    );
    assert!(service.clone_app("/tmp/source", "/tmp/cloned-app", true).is_err());
    assert!(service.clone_app(" ", "/tmp/cloned-app", false).is_err());
    let registry = registered(&service, default_registry(), Some("cloned"), "/tmp/cloned-app", true);
    assert_eq!(registry.active_app.as_deref(), Some("/tmp/cloned-app"));
    assert_eq!(registry.apps.get("/tmp/cloned-app").unwrap().name, "cloned");
    let status = project_status_for(
        registry,
        Some("/tmp/cloned-app".to_string()),
        true,
        Some("/tmp/cloned-app/.refine".to_string()),
        ready_schema(),
        None,
    );
    assert_eq!(status.target_root.as_deref(), Some("/tmp/cloned-app"));
    assert!(status.maintenance.is_none());
}

#[test]
fn project_status_uses_authoritative_identity_across_attach_switch_and_restart() {
    let runtime_root = "project-registry-node-identity/run/8082";
    let service = FileProjectRegistryService::new(runtime_root, None);
    let registry = attached(&service, "/tmp/app-a");
    let registry = registered(&service, registry, Some("app-b"), "/tmp/app-b", false);
    assert_eq!(registry.active_app.as_deref(), Some("/tmp/app-a"));

    let nodes_a = FileNodeRegistryService::with_active_root("/tmp/app-a/.refine", runtime_root);
    let known_a = vec![node("default", "Default", false), node("ethan", "Ethan's Node", true)];
    let selection = SelectionRead::Scoped(ActiveNodeSelection {
        active_node_id: "ethan".to_string(),
        refine_dir: "/tmp/app-a/.refine".to_string(),
        same_project: true,
    });
    let active_a = project_status_for(
        service.load(Some(registry)),
        Some("/tmp/app-a".to_string()),
        true,
        Some("/tmp/app-a/.refine".to_string()),
        ready_schema(),
        Some(nodes_a.active_identity(&known_a, &selection)),
    );
    assert_eq!(active_a.active_node_id.as_deref(), Some("ethan"));
    assert_eq!(active_a.active_node.as_deref(), Some("Ethan's Node"));
    assert!(active_a.active_node_diagnostics.is_empty());

    let switched_registry = service.switch_with_migration(Ok(active_a.apps), "app-b", &Ok(())).unwrap();
    assert_eq!(switched_registry.active_app.as_deref(), Some("/tmp/app-b"));
    let nodes_b = FileNodeRegistryService::with_active_root("/tmp/app-b/.refine", runtime_root);
    let known_b = vec![node("default", "BO2LNXNEVO04 (QA)", false)];
    let foreign = SelectionRead::Scoped(ActiveNodeSelection {
        active_node_id: "ethan".to_string(),
        refine_dir: "/tmp/app-a/.refine".to_string(),
        same_project: false,
    });
    let switched = project_status_for(
        switched_registry,
        Some("/tmp/app-b".to_string()),
        true,
        Some("/tmp/app-b/.refine".to_string()),
        ready_schema(),
        Some(nodes_b.active_identity(&known_b, &foreign)),
    );
    assert_eq!(switched.active_node_id.as_deref(), Some("default"));
    assert_eq!(switched.active_node.as_deref(), Some("Default"));
    let codes = switched
        .active_node_diagnostics
        .iter()
        .map(|diagnostic| diagnostic.code.as_str())
        .collect::<Vec<_>>();
    assert!(codes.contains(&"active_node_selection_project_mismatch"));
    assert!(codes.contains(&"ambiguous_legacy_default_display_name"));
    assert_eq!(switched.active_node_diagnostics.len(), 2);
}

fn two_projects() -> AppRegistry {
    let service = FileProjectRegistryService::new("run", None);
    let at = |registry: AppRegistry, name: &str, path: &str, current: bool, now: &str| {
        service
            .register_path_at(&Ok(path.to_string()), Ok(registry), Some(name), current, &Ok(()), now)
            .ok()
            .unwrap()
    };
    let registry = at(default_registry(), "one", "/one", true, "2026-01-01");
    at(registry, "two", "/two", false, "2026-01-02")
}

fn attached(service: &FileProjectRegistryService, path: &str) -> AppRegistry {
    service
        .attach_with_migration(&Ok(path.to_string()), &Ok(()), Ok(default_registry()))
        .ok()
        .unwrap()
}

#[test]
fn an_unready_schema_gives_no_registry() {
    let service = FileProjectRegistryService::new("run", None);
    let unready = || Err(RefineError::Conflict("project migration required".to_string()));
    let failure = |outcome: RefineResult<AppRegistry>| outcome.err().unwrap().describe();
    let place = Ok("/three".to_string());
    assert_eq!(
        failure(service.attach_with_migration(&place, &unready(), Ok(two_projects()))),
        "project migration required"
    );
    let lost = Err(RefineError::Io("unreadable".to_string()));
    assert_eq!(failure(service.attach_with_migration(&place, &Ok(()), lost)), "unreadable");
    assert_eq!(
        failure(service.switch_with_migration(Ok(two_projects()), "two", &unready())),
        "project migration required"
    );
    assert_eq!(
        failure(service.switch_with_migration(Ok(two_projects()), "three", &unready())),
        "App three was not found"
    );
    let switched = service
        .switch_with_migration_at(Ok(two_projects()), "two", &Ok(()), "2026-01-09")
        .ok()
        .unwrap();
    assert_eq!(switched.active_app.as_deref(), Some("/two"));
    assert_eq!(switched.apps.get("/two").unwrap().last_used_at.as_deref(), Some("2026-01-09"));
    assert!(switched.apps.get("/one").unwrap().last_used_at.is_none());
}

fn registered(
    service: &FileProjectRegistryService,
    registry: AppRegistry,
    name: Option<&str>,
    path: &str,
    make_current: bool,
) -> AppRegistry {
    service
        .register_path(&Ok(path.to_string()), Ok(registry), name, make_current, &Ok(()))
        .ok()
        .unwrap()
}

#[test]
fn what_was_registered_is_loaded_next() {
    let service = FileProjectRegistryService::new("run", None);
    let registry = registered(&service, two_projects(), Some("  "), "/work/three", true);
    assert_eq!(registry.active_app.as_deref(), Some("/work/three"));
    let loaded = service.load(Some(registry));
    assert_eq!(loaded.active_app.as_deref(), Some("/work/three"));
    let three = loaded.apps.get("/work/three").unwrap();
    assert_eq!(three.name, "three");
    assert!(three.last_used_at.is_none());
    assert_eq!(registry_apps_array(&loaded).len(), 3);
}

#[test]
fn a_refused_registration_saves_nothing() {
    let service = FileProjectRegistryService::new("run", None);
    let failed = |text: &str| RefineError::Conflict(text.to_string());
    let outcome = |path: RefineResult<String>, stored: RefineResult<AppRegistry>, current: bool| {
        service
            .register_path(&path, stored, None, current, &Err(failed("schema")))
            .map_err(|error| error.describe())
            .err()
    };
    let known = || Ok("/one".to_string());
    assert_eq!(outcome(Err(failed("path")), Ok(default_registry()), true).as_deref(), Some("path"));
    assert_eq!(outcome(known(), Err(failed("stored")), true).as_deref(), Some("stored"));
    assert_eq!(outcome(known(), Ok(default_registry()), true).as_deref(), Some("schema"));
    assert_eq!(outcome(known(), Ok(default_registry()), false), None);
}

#[test]
fn registering_a_project_keeps_the_others() {
    let registry = two_projects();
    assert_eq!(registry.apps.get("/one").unwrap().name, "one");
    assert_eq!(registry.apps.get("/two").unwrap().added_at, "2026-01-02");
    assert_eq!(registry.active_app.as_deref(), Some("/one"));
    let listed = registry_apps_array(&registry);
    assert_eq!(listed.len(), 2);
}

#[test]
fn switching_to_an_unknown_project_is_refused() {
    let service = FileProjectRegistryService::new("run", None);
    let registry = two_projects();
    assert_eq!(service.switch_target(&registry, "two").unwrap(), "/two");
    assert!(matches!(
        service.switch_target(&registry, "three"),
        Err(RefineError::NotFound(_))
    ));
    let switched = service.switched_at(registry, "/two", "2026-01-03");
    assert_eq!(switched.active_app.as_deref(), Some("/two"));
    assert_eq!(switched.apps.get("/two").unwrap().last_used_at.as_deref(), Some("2026-01-03"));
    assert_eq!(switched.apps.get("/two").unwrap().added_at, "2026-01-02");
    assert_eq!(switched.apps.len(), 2);
}

#[test]
fn only_missing_or_empty_places_become_projects() {
    let with_git = PathFacts { exists: true, is_dir: true, has_git: true, is_empty: false };
    let empty = PathFacts { exists: true, is_dir: true, has_git: false, is_empty: true };
    let file = PathFacts { exists: true, is_dir: false, has_git: false, is_empty: false };
    assert!(!should_create_local_project(&with_git));
    assert!(should_create_local_project(&empty));
    assert!(!should_create_local_project(&file));
    let service = FileProjectRegistryService::new("run", None);
    assert!(service.create_local_project_at("/file", &file).is_err());
    assert_eq!(git_init_arguments("/app").last().map(String::as_str), Some("/app"));
    let failure = git_failure_error("git init", " boom\n");
    assert!(matches!(failure, RefineError::Conflict(_)));
    assert_eq!(failure.describe(), "git init failed: boom");
}

#[test]
fn a_schema_is_migrated_only_where_that_is_safe() {
    let mut schema = detached_schema_status(3);
    schema.migration_required = true;
    schema.safe_auto = true;
    assert!(migrate_schema_if_safe(&schema));
    assert!(matches!(ensure_schema_ready(&schema), Ok(SchemaStep::Migrate)));
    schema.safe_auto = false;
    assert!(!migrate_schema_if_safe(&schema));
    assert!(ensure_schema_ready(&schema).is_err());
}

//! The projects that this machine knows, and the one it is attached to.
use vstd::prelude::*;

use crate::clock::timestamp;
use crate::errors::{RefineError, RefineResult};
use crate::json::Json;
use crate::nodes::{ActiveNodeIdentity, NodeIdentityDiagnostic};
use crate::paths::{file_name_of, join_path, parent_of};
use crate::text::{cat2, cat3, is_blank, starts_with_text, strip_prefix_text, text_eq, trim};
use crate::text_map::TextMap;

verus! {

/// A project on record.
#[derive(Debug)]
pub struct RegisteredApp {
    pub name: String,
    pub path: String,
    pub added_at: String,
    pub last_used_at: Option<String>,
}

/// The projects on record, by path, and the attached one.
pub struct AppRegistry {
    pub version: u64,
    pub active_app: Option<String>,
    pub apps: TextMap<RegisteredApp>,
}

/// A project by its contents.
pub ghost struct AppView {
    pub name: Seq<char>,
    pub path: Seq<char>,
    pub added_at: Seq<char>,
    pub last_used_at: Option<Seq<char>>,
}

/// A registry by its contents.
pub ghost struct RegistryView {
    pub version: u64,
    pub active_app: Option<Seq<char>>,
    pub apps: Map<Seq<char>, AppView>,
}

impl View for RegisteredApp {
    type V = AppView;

    open spec fn view(&self) -> AppView {
        AppView {
            name: self.name@,
            path: self.path@,
            added_at: self.added_at@,
            last_used_at: crate::text::maybe_view(self.last_used_at),
        }
    }
}

/// Projects by the views of their entries.
pub open spec fn app_views(apps: Map<Seq<char>, RegisteredApp>) -> Map<Seq<char>, AppView> {
    Map::new(|k: Seq<char>| apps.contains_key(k), |k: Seq<char>| apps[k]@)
}

impl View for AppRegistry {
    type V = RegistryView;

    open spec fn view(&self) -> RegistryView {
        RegistryView {
            version: self.version,
            active_app: crate::text::maybe_view(self.active_app),
            apps: app_views(self.apps@),
        }
    }
}

impl Clone for RegisteredApp {
    fn clone(&self) -> (r: Self)
        ensures
            r == *self,
    {
        RegisteredApp {
            name: self.name.clone(),
            path: self.path.clone(),
            added_at: self.added_at.clone(),
            last_used_at: self.last_used_at.clone(),
        }
    }
}

/// How a project's stored schema relates to the one in use.
#[derive(Debug)]
pub struct ProjectSchemaStatus {
    pub compatible: bool,
    pub migration_required: bool,
    pub schema_version: Option<u64>,
    pub current_schema_version: u64,
    pub reason: Option<String>,
    pub migration_id: Option<String>,
    pub migration_description: Option<String>,
    pub safe_auto: bool,
    pub requires_cluster_quiescence: bool,
    pub operator_instructions: Option<String>,
}

/// What a project's schema needs before the project is used.
#[derive(Clone, Copy, Debug, PartialEq, Eq, Structural)]
pub enum SchemaStep {
    Migrate,
    Initialize,
    Ready,
}

/// The state of the attached project.
pub struct ProjectStatus {
    pub attached: bool,
    pub registry_enabled: bool,
    pub target_root: Option<String>,
    pub refine_dir: Option<String>,
    pub config_path: Option<String>,
    pub schema: ProjectSchemaStatus,
    pub apps: AppRegistry,
    pub active_node_id: Option<String>,
    pub active_node: Option<String>,
    pub active_node_diagnostics: Vec<NodeIdentityDiagnostic>,
    pub message: Option<String>,
    /// What maintenance is due; none is reported.
    pub maintenance: Option<Json>,
}

/// What is found at a path.
#[derive(Clone, Copy, Debug, PartialEq, Eq, Structural)]
pub struct PathFacts {
    pub exists: bool,
    pub is_dir: bool,
    pub has_git: bool,
    pub is_empty: bool,
}

/// A status and what has to be done for it.
pub struct StatusPlan {
    pub registry: AppRegistry,
    pub current: Option<String>,
    /// Whether the registry changed and is to be saved.
    pub save: bool,
}

/// Keeps the projects of one machine.
#[derive(Debug)]
pub struct FileProjectRegistryService {
    pub runtime_root: String,
    pub current_target_root: Option<String>,
}

/// The registry before anything is on record.
pub open spec fn empty_registry() -> RegistryView {
    RegistryView { version: 1, active_app: None, apps: Map::empty() }
}

/// A registry with one project put under its path.
pub open spec fn with_app(registry: RegistryView, app: AppView, make_current: bool) -> RegistryView {
    RegistryView {
        active_app: if make_current { Some(app.path) } else { registry.active_app },
        apps: registry.apps.insert(app.path, app),
        ..registry
    }
}

/// A registry without the projects whose path is blank.
pub open spec fn without_blank_paths(registry: RegistryView) -> RegistryView {
    RegistryView {
        apps: registry.apps.restrict(
            Set::new(
                |k: Seq<char>|
                    registry.apps.contains_key(k) && !crate::text::blank(registry.apps[k].path),
            ),
        ),
        ..registry
    }
}

/// Whether a project goes by a name: its own or its path.
pub open spec fn goes_by(app: RegisteredApp, name: Seq<char>) -> bool {
    app.name@ == name || app.path@ == name
}

/// The first project, in order of paths, that goes by a name.
pub open spec fn position_of_app(apps: Seq<RegisteredApp>, name: Seq<char>) -> Option<int> {
    crate::lists::first_position(apps, |a: RegisteredApp| goes_by(a, name))
}

/// The refusal for an unknown project.
pub open spec fn app_not_found(name: Seq<char>) -> crate::errors::ErrorView {
    crate::errors::ErrorView::NotFound("App "@ + name + " was not found"@)
}

/// A registry that is attached to the project at a path, used at a time.
pub open spec fn switched_to(registry: RegistryView, path: Seq<char>, now: Seq<char>) -> RegistryView {
    RegistryView {
        active_app: Some(path),
        apps: if registry.apps.contains_key(path) {
            registry.apps.insert(
                path,
                AppView { last_used_at: Some(now), ..registry.apps[path] },
            )
        } else {
            registry.apps
        },
        ..registry
    }
}

/// A registry without the project under a key.
pub open spec fn without_app(registry: RegistryView, key: Seq<char>) -> RegistryView {
    RegistryView {
        active_app: if registry.active_app == Some(key) { None } else { registry.active_app },
        apps: registry.apps.remove(key),
        ..registry
    }
}

/// A registry that is attached to nothing.
pub open spec fn detached(registry: RegistryView) -> RegistryView {
    RegistryView { active_app: None, ..registry }
}

/// The name of a project: a given one, or the last part of its path.
pub open spec fn app_name(given: Option<Seq<char>>, path: Seq<char>) -> Seq<char> {
    match given {
        Some(n) => if crate::text::blank(n) {
            name_from_path(path)
        } else {
            crate::text::trimmed(n)
        },
        None => name_from_path(path),
    }
}

/// The name that a path gives a project.
pub open spec fn name_from_path(path: Seq<char>) -> Seq<char> {
    match crate::paths::file_name(path) {
        Some(n) => n,
        None => path,
    }
}

fn path_name(path: &str) -> (r: String)
    ensures
        r@ == name_from_path(path@),
{
    match file_name_of(path) {
        Some(n) => n.to_owned(),
        None => path.to_owned(),
    }
}

/// Puts a project on record under its path.
pub fn upsert_app(registry: &mut AppRegistry, app: RegisteredApp, make_current: bool)
    ensures
        final(registry)@ == with_app(old(registry)@, app@, make_current),
{
    let key = app.path.clone();
    let ghost before = registry.apps@;
    registry.apps.insert(app.path.clone(), app);
    assert(app_views(registry.apps@) =~= app_views(before).insert(app.path@, app@));
    if make_current {
        registry.active_app = Some(key);
    }
}

/// The registry before anything is on record.
pub fn default_registry() -> (r: AppRegistry)
    ensures
        r@ == empty_registry(),
{
    let r = AppRegistry { version: 1, active_app: None, apps: TextMap::new() };
    assert(app_views(r.apps@) =~= Map::<Seq<char>, AppView>::empty());
    r
}

fn find_app(registry: &AppRegistry, name: &str) -> (r: Option<usize>)
    ensures
        match r {
            Some(i) => i < registry.apps.keys().len() && i < registry.apps.values().len()
                && position_of_app(registry.apps.values(), name@) == Some(i as int),
            None => position_of_app(registry.apps.values(), name@) is None,
        },
{
    let n: usize = registry.apps.len();
    let ghost p = |a: RegisteredApp| goes_by(a, name@);
    let mut i: usize = 0;
    while i < n
        invariant
            i <= n == registry.apps.keys().len() == registry.apps.values().len(),
            p == (|a: RegisteredApp| goes_by(a, name@)),
            forall|j: int| 0 <= j < i ==> !p(#[trigger] registry.apps.values()[j]),
        decreases n - i,
    {
        let app = registry.apps.value_at(i);
        if text_eq(app.name.as_str(), name) || text_eq(app.path.as_str(), name) {
            proof {
                assert(p(registry.apps.values()[i as int]));
                crate::lists::first_position_is_least(registry.apps.values(), p, i as int);
            }
            return Some(i);
        }
        i = i + 1;
    }
    None
}

fn app_not_found_error(name: &str) -> (r: RefineError)
    ensures
        r@ == app_not_found(name@),
{
    RefineError::NotFound(cat3("App ", name, " was not found"))
}

/// A project as it is listed.
pub open spec fn listed_app(app: AppView) -> crate::json::JsonView {
    crate::json::JsonView::Object(
        Map::<Seq<char>, crate::json::JsonView>::empty().insert(
            "name"@,
            crate::json::JsonView::Text(app.name),
        ).insert("path"@, crate::json::JsonView::Text(app.path)).insert(
            "added_at"@,
            crate::json::JsonView::Text(app.added_at),
        ).insert(
            "last_used_at"@,
            crate::json::JsonView::Text(
                match app.last_used_at {
                    Some(t) => t,
                    None => Seq::empty(),
                },
            ),
        ),
    )
}

/// The projects as they are listed, in order of paths.
pub open spec fn listed_apps(apps: Seq<RegisteredApp>) -> Seq<crate::json::JsonView> {
    apps.map_values(|a: RegisteredApp| listed_app(a@))
}

/// Lists the projects in order of paths.
pub fn registry_apps_array(registry: &AppRegistry) -> (r: Vec<Json>)
    ensures
        crate::json::json_views(r@) == listed_apps(registry.apps.values()),
{
    let n: usize = registry.apps.len();
    let mut out: Vec<Json> = Vec::new();
    let mut i: usize = 0;
    proof {
        reveal_strlit("");
    }
    while i < n
        invariant
            i <= n == registry.apps.keys().len() == registry.apps.values().len(),
            out@.len() == i,
            forall|j: int|
                0 <= j < i ==> (#[trigger] out@[j])@ == listed_app(registry.apps.values()[j]@),
        decreases n - i,
    {
        let app = registry.apps.value_at(i);
        let used = match &app.last_used_at {
            Some(t) => t.clone(),
            None => String::new(),
        };
        assert(app.last_used_at is None ==> used@ =~= Seq::<char>::empty());
        let mut o = Json::object();
        o.set("name", Json::text(app.name.as_str()));
        o.set("path", Json::text(app.path.as_str()));
        o.set("added_at", Json::text(app.added_at.as_str()));
        o.set("last_used_at", Json::text(used.as_str()));
        out.push(o);
        i = i + 1;
    }
    assert(crate::json::json_views(out@) =~= listed_apps(registry.apps.values()));
    out
}

/// A schema that can be migrated without anyone watching.
pub open spec fn migrates_safely(schema: ProjectSchemaStatus) -> bool {
    schema.migration_required && schema.safe_auto && !schema.requires_cluster_quiescence
}

/// What a schema needs, or why its project cannot be used.
pub open spec fn schema_outcome(schema: ProjectSchemaStatus) -> Result<
    SchemaStep,
    crate::errors::ErrorView,
> {
    if schema.compatible && !schema.migration_required {
        Ok(
            if schema.schema_version is None {
                SchemaStep::Initialize
            } else {
                SchemaStep::Ready
            },
        )
    } else if migrates_safely(schema) {
        Ok(SchemaStep::Migrate)
    } else if schema.migration_required {
        Err(
            crate::errors::ErrorView::Conflict(
                match schema.operator_instructions {
                    Some(t) => t@,
                    None => "project migration required"@,
                },
            ),
        )
    } else {
        Err(
            crate::errors::ErrorView::Conflict(
                match schema.reason {
                    Some(t) => t@,
                    None => "project schema is not compatible"@,
                },
            ),
        )
    }
}

/// Tells whether a schema can be migrated without anyone watching.
pub fn migrate_schema_if_safe(schema: &ProjectSchemaStatus) -> (r: bool)
    ensures
        r == migrates_safely(*schema),
{
    schema.migration_required && schema.safe_auto && !schema.requires_cluster_quiescence
}

/// Says what a schema needs before its project is used.
pub fn ensure_schema_ready(schema: &ProjectSchemaStatus) -> (r: RefineResult<SchemaStep>)
    ensures
        crate::errors::outcome(r) == schema_outcome(*schema),
{
    if schema.compatible && !schema.migration_required {
        if schema.schema_version.is_none() {
            return Ok(SchemaStep::Initialize);
        }
        return Ok(SchemaStep::Ready);
    }
    if schema.migration_required {
        if migrate_schema_if_safe(schema) {
            return Ok(SchemaStep::Migrate);
        }
        let message = match &schema.operator_instructions {
            Some(t) => t.clone(),
            None => "project migration required".to_owned(),
        };
        return Err(RefineError::Conflict(message));
    }
    let message = match &schema.reason {
        Some(t) => t.clone(),
        None => "project schema is not compatible".to_owned(),
    };
    Err(RefineError::Conflict(message))
}

/// The schema of no project.
pub fn detached_schema_status(current_schema_version: u64) -> (r: ProjectSchemaStatus)
    ensures
        r == (ProjectSchemaStatus {
            compatible: true,
            migration_required: false,
            schema_version: None,
            current_schema_version,
            reason: None,
            migration_id: None,
            migration_description: None,
            safe_auto: true,
            requires_cluster_quiescence: false,
            operator_instructions: None,
        }),
{
    ProjectSchemaStatus {
        compatible: true,
        migration_required: false,
        schema_version: None,
        current_schema_version,
        reason: None,
        migration_id: None,
        migration_description: None,
        safe_auto: true,
        requires_cluster_quiescence: false,
        operator_instructions: None,
    }
}

/// Assembles the state of the attached project, given its state directory,
/// schema and active node.
pub fn project_status_for(
    registry: AppRegistry,
    current: Option<String>,
    attached: bool,
    refine_dir: Option<String>,
    schema: ProjectSchemaStatus,
    identity: Option<ActiveNodeIdentity>,
) -> (r: ProjectStatus)
    ensures
        r.attached == attached,
        r.registry_enabled,
        r.target_root == current,
        r.refine_dir == refine_dir,
        crate::text::maybe_view(r.config_path) == (match refine_dir {
            Some(d) => Some(crate::paths::joined(d@, "refine.json"@)),
            None => None,
        }),
        r.schema == schema,
        r.apps == registry,
        crate::text::maybe_view(r.active_node_id) == (if !attached {
            None
        } else {
            match (refine_dir, identity) {
                (Some(_), Some(i)) => Some(i.id@),
                _ => Some("default"@),
            }
        }),
        crate::text::maybe_view(r.active_node) == (if !attached {
            None
        } else {
            match (refine_dir, identity) {
                (Some(_), Some(i)) => Some(i.display_name@),
                _ => Some("Default"@),
            }
        }),
        r.active_node_diagnostics@ == (if !attached {
            Seq::empty()
        } else {
            match (refine_dir, identity) {
                (Some(_), Some(i)) => i.diagnostics@,
                _ => Seq::empty(),
            }
        }),
        crate::text::maybe_view(r.message) == (if attached {
            None
        } else {
            Some("No refine project is attached."@)
        }),
        r.maintenance is None,
{
    let config_path = match &refine_dir {
        Some(d) => Some(join_path(d.as_str(), "refine.json")),
        None => None,
    };
    let (active_node_id, active_node, active_node_diagnostics) = if !attached {
        (None, None, Vec::new())
    } else {
        match (&refine_dir, identity) {
            (Some(_), Some(i)) => (Some(i.id), Some(i.display_name), i.diagnostics),
            _ => (Some("default".to_owned()), Some("Default".to_owned()), Vec::new()),
        }
    };
    let message = if attached {
        None
    } else {
        Some("No refine project is attached.".to_owned())
    };
    ProjectStatus {
        attached,
        registry_enabled: true,
        target_root: current,
        refine_dir,
        config_path,
        schema,
        apps: registry,
        active_node_id,
        active_node,
        active_node_diagnostics,
        message,
        maintenance: None,
    }
}

/// A path below the home directory where it begins with a tilde.
pub open spec fn expanded(raw: Seq<char>, home: Option<Seq<char>>) -> Seq<char> {
    match home {
        Some(h) => if raw == "~"@ {
            h
        } else if crate::text::begins_with(raw, "~/"@) {
            crate::paths::joined(h, raw.skip("~/"@.len() as int))
        } else {
            raw
        },
        None => raw,
    }
}

/// The project of a path: what holds a state directory, or the path itself.
pub open spec fn project_of(path: Seq<char>) -> Seq<char> {
    if crate::paths::file_name(path) == Some(".refine"@) {
        crate::paths::parent_dir(path)
    } else {
        path
    }
}

/// The working directory, or the text of the error of asking for it.
pub open spec fn cwd_view(cwd: Result<String, String>) -> Result<Seq<char>, Seq<char>> {
    match cwd {
        Ok(d) => Ok(d@),
        Err(t) => Err(t@),
    }
}

/// The absolute path of a project.
pub open spec fn normalized(
    path: Seq<char>,
    home: Option<Seq<char>>,
    cwd: Result<Seq<char>, Seq<char>>,
) -> Result<Seq<char>, crate::errors::ErrorView> {
    let raw = crate::text::trimmed(path);
    if raw.len() == 0 {
        Err(crate::errors::ErrorView::InvalidInput("path is required"@))
    } else {
        let full = expanded(raw, home);
        if crate::text::begins_with(full, "/"@) {
            Ok(project_of(full))
        } else {
            match cwd {
                Ok(d) => Ok(project_of(crate::paths::joined(d, full))),
                Err(t) => Err(crate::errors::ErrorView::Io("failed to inspect cwd: "@ + t)),
            }
        }
    }
}

fn expand_home_path(raw: &str, home: &Option<String>) -> (r: String)
    ensures
        r@ == expanded(raw@, crate::text::maybe_view(*home)),
{
    if let Some(h) = home {
        if text_eq(raw, "~") {
            return h.clone();
        }
        if let Some(rest) = strip_prefix_text(raw, "~/") {
            return join_path(h.as_str(), rest);
        }
    }
    raw.to_owned()
}

fn normalize_refine_dir_path(path: &str) -> (r: String)
    ensures
        r@ == project_of(path@),
{
    let names_state = match file_name_of(path) {
        Some(n) => text_eq(n, ".refine"),
        None => false,
    };
    if names_state {
        parent_of(path).to_owned()
    } else {
        path.to_owned()
    }
}

/// Makes the path of a project absolute: a tilde stands for the home
/// directory, a state directory for the project that holds it.
pub fn normalize_app_path(
    path: &str,
    home: &Option<String>,
    cwd: &Result<String, String>,
) -> (r: RefineResult<String>)
    ensures
        crate::errors::viewed(r) == normalized(
            path@,
            crate::text::maybe_view(*home),
            cwd_view(*cwd),
        ),
{
    let raw = trim(path);
    if raw.is_empty() {
        return Err(RefineError::InvalidInput("path is required".to_owned()));
    }
    let full = expand_home_path(raw, home);
    if starts_with_text(full.as_str(), "/") {
        return Ok(normalize_refine_dir_path(full.as_str()));
    }
    match cwd {
        Ok(d) => {
            let joined = join_path(d.as_str(), full.as_str());
            Ok(normalize_refine_dir_path(joined.as_str()))
        },
        Err(t) => Err(RefineError::Io(cat2("failed to inspect cwd: ", t.as_str()))),
    }
}

/// A place where a new project can be made: nothing there, or an empty
/// directory.
pub open spec fn can_create(facts: PathFacts) -> bool {
    !facts.exists || (facts.is_dir && !facts.has_git && facts.is_empty)
}

/// Tells whether a new project can be made at a place.
pub fn should_create_local_project(facts: &PathFacts) -> (r: bool)
    ensures
        r == can_create(*facts),
{
    if !facts.exists {
        return true;
    }
    if !facts.is_dir || facts.has_git {
        return false;
    }
    facts.is_empty
}

/// Whether a new project may be made at a place.
pub open spec fn creation_outcome(path: Seq<char>, facts: PathFacts) -> Result<
    (),
    crate::errors::ErrorView,
> {
    if facts.exists && !facts.is_dir {
        Err(
            crate::errors::ErrorView::Conflict(
                "project destination "@ + path + " exists and is not a directory"@,
            ),
        )
    } else if facts.exists && !can_create(facts) {
        Err(
            crate::errors::ErrorView::Conflict("project destination "@ + path + " is not empty"@),
        )
    } else {
        Ok(())
    }
}

/// What Git is told to clone a project.
pub open spec fn clone_outcome(source: Seq<char>, destination: Seq<char>, exists: bool) -> Result<
    Seq<Seq<char>>,
    crate::errors::ErrorView,
> {
    if crate::text::blank(source) {
        Err(crate::errors::ErrorView::InvalidInput("clone source is required"@))
    } else if exists {
        Err(
            crate::errors::ErrorView::Conflict(
                "clone destination "@ + destination + " already exists"@,
            ),
        )
    } else {
        Ok(seq!["clone"@, crate::text::trimmed(source), destination])
    }
}

/// The view of a list of texts in a result.
pub open spec fn texts_result(r: RefineResult<Vec<String>>) -> Result<
    Seq<Seq<char>>,
    crate::errors::ErrorView,
> {
    match r {
        Ok(v) => Ok(crate::text::views(v@)),
        Err(e) => Err(e@),
    }
}

/// The failure of a Git command.
pub open spec fn git_failure(command: Seq<char>, stderr: Seq<char>) -> crate::errors::ErrorView {
    crate::errors::ErrorView::Conflict(
        command + " failed"@ + (if crate::text::blank(stderr) {
            Seq::<char>::empty()
        } else {
            ": "@ + crate::text::trimmed(stderr)
        }),
    )
}

/// Reports the failure of a Git command.
pub fn git_failure_error(command: &str, stderr: &str) -> (r: RefineError)
    ensures
        r@ == git_failure(command@, stderr@),
{
    let text = trim(stderr);
    let mut m = cat2(command, " failed");
    if !text.is_empty() {
        let tail = cat2(": ", text);
        m.append(tail.as_str());
    } else {
        assert(m@ + Seq::<char>::empty() =~= m@);
    }
    RefineError::Conflict(m)
}

/// What Git is told to make a repository.
pub fn git_init_arguments(app_path: &str) -> (r: Vec<String>)
    ensures
        crate::text::views(r@) == seq!["init"@, "-b"@, "main"@, app_path@],
{
    let r = vec![
        "init".to_owned(),
        "-b".to_owned(),
        "main".to_owned(),
        app_path.to_owned(),
    ];
    assert(crate::text::views(r@) =~= seq!["init"@, "-b"@, "main"@, app_path@]);
    r
}

/// The operations on a registry, each given what was read for it.
pub trait ProjectRegistryService {
    /// Puts a project on record.
    fn register(&self, registry: AppRegistry, app: RegisteredApp) -> (r: AppRegistry)
        ensures
            r@ == with_app(registry@, app@, false),
    ;

    /// Accepts or refuses to make a new project at a place.
    fn create_local_project(&self, app_path: &str, facts: &PathFacts) -> (r: RefineResult<()>)
        ensures
            crate::errors::outcome(r) == creation_outcome(app_path@, *facts),
    ;

    /// Tells whether attaching to a place makes a new project there.
    fn attach(&self, facts: &PathFacts) -> (r: bool)
        ensures
            r == can_create(*facts),
    ;

    /// Attaches to a project on record, where its schema is ready.
    fn switch(
        &self,
        registry: RefineResult<AppRegistry>,
        name: &str,
        ready: &RefineResult<()>,
    ) -> (r: RefineResult<AppRegistry>)
        ensures
            exists|now: Seq<char>|
                crate::errors::viewed(r) == #[trigger] switching(
                    registry,
                    name@,
                    crate::errors::outcome(*ready),
                    now,
                ),
    ;

    /// Attaches to nothing.
    fn detach(&self, registry: AppRegistry) -> (r: AppRegistry)
        ensures
            r@ == detached(registry@),
    ;

    /// Says what Git is told to clone a project.
    fn clone_app(&self, source: &str, destination: &str, destination_exists: bool) -> (r:
        RefineResult<Vec<String>>)
        ensures
            texts_result(r) == clone_outcome(source@, destination@, destination_exists),
    ;

    /// Takes a project off the record.
    fn remove(&self, registry: AppRegistry, name: &str) -> (r: RefineResult<AppRegistry>)
        ensures
            match r {
                Ok(next) => position_of_app(registry.apps.values(), name@) matches Some(i) && next@
                    == without_app(registry@, registry.apps.keys()[i]),
                Err(e) => position_of_app(registry.apps.values(), name@) is None && e@
                    == app_not_found(name@),
            },
    ;

    /// The project to inspect: none for a blank path.
    fn inspect(&self, path: &str, home: &Option<String>, cwd: &Result<String, String>) -> (r:
        RefineResult<Option<String>>)
        ensures
            match r {
                Ok(None) => crate::text::blank(path@),
                Ok(Some(p)) => !crate::text::blank(path@) && normalized(
                    path@,
                    crate::text::maybe_view(*home),
                    cwd_view(*cwd),
                ) == Ok::<Seq<char>, crate::errors::ErrorView>(p@),
                Err(e) => !crate::text::blank(path@) && normalized(
                    path@,
                    crate::text::maybe_view(*home),
                    cwd_view(*cwd),
                ) == Err::<Seq<char>, crate::errors::ErrorView>(e@),
            },
    ;
}

impl ProjectRegistryService for FileProjectRegistryService {
    fn register(&self, registry: AppRegistry, app: RegisteredApp) -> (r: AppRegistry) {
        let mut registry = registry;
        upsert_app(&mut registry, app, false);
        registry
    }

    fn create_local_project(&self, app_path: &str, facts: &PathFacts) -> (r: RefineResult<()>) {
        self.create_local_project_at(app_path, facts)
    }

    fn attach(&self, facts: &PathFacts) -> (r: bool) {
        should_create_local_project(facts)
    }

    fn switch(
        &self,
        registry: RefineResult<AppRegistry>,
        name: &str,
        ready: &RefineResult<()>,
    ) -> (r: RefineResult<AppRegistry>) {
        self.switch_with_migration(registry, name, ready)
    }

    fn detach(&self, registry: AppRegistry) -> (r: AppRegistry) {
        AppRegistry { version: registry.version, active_app: None, apps: registry.apps }
    }

    fn clone_app(&self, source: &str, destination: &str, destination_exists: bool) -> (r:
        RefineResult<Vec<String>>) {
        let source = trim(source);
        if source.is_empty() {
            return Err(RefineError::InvalidInput("clone source is required".to_owned()));
        }
        if destination_exists {
            return Err(
                RefineError::Conflict(
                    cat3("clone destination ", destination, " already exists"),
                ),
            );
        }
        let arguments = vec!["clone".to_owned(), source.to_owned(), destination.to_owned()];
        assert(crate::text::views(arguments@) =~= seq!["clone"@, source@, destination@]);
        Ok(arguments)
    }

    fn remove(&self, registry: AppRegistry, name: &str) -> (r: RefineResult<AppRegistry>) {
        match find_app(&registry, name) {
            None => Err(app_not_found_error(name)),
            Some(i) => {
                let key = registry.apps.key_at(i).clone();
                let mut registry = registry;
                let ghost before = registry.apps@;
                let _ = registry.apps.remove(key.as_str());
                assert(app_views(registry.apps@) =~= app_views(before).remove(key@));
                let attached = match &registry.active_app {
                    Some(a) => text_eq(a.as_str(), key.as_str()),
                    None => false,
                };
                if attached {
                    registry.active_app = None;
                }
                Ok(registry)
            },
        }
    }

    fn inspect(&self, path: &str, home: &Option<String>, cwd: &Result<String, String>) -> (r:
        RefineResult<Option<String>>) {
        if is_blank(path) {
            return Ok(None);
        }
        match normalize_app_path(path, home, cwd) {
            Ok(p) => Ok(Some(p)),
            Err(e) => Err(e),
        }
    }
}

impl FileProjectRegistryService {
    /// Keeps the projects of a runtime root; one of them may be given at
    /// startup.
    pub fn new(runtime_root: &str, current_target_root: Option<String>) -> (r: Self)
        ensures
            r.runtime_root@ == runtime_root@,
            r.current_target_root == current_target_root,
    {
        FileProjectRegistryService { runtime_root: runtime_root.to_owned(), current_target_root }
    }

    /// Where the registry is stored.
    pub fn path(&self) -> (r: String)
        ensures
            r@ == crate::paths::joined(self.runtime_root@, "apps.json"@),
    {
        join_path(self.runtime_root.as_str(), "apps.json")
    }

    /// The registry as it was stored, without projects that have no path; an
    /// empty one where nothing is stored.
    pub fn load(&self, stored: Option<AppRegistry>) -> (r: AppRegistry)
        ensures
            r@ == (match stored {
                Some(registry) => without_blank_paths(registry@),
                None => empty_registry(),
            }),
            without_blank_paths(r@) == r@,
    {
        proof {
            assert(without_blank_paths(empty_registry()).apps =~= empty_registry().apps);
            loading_is_stable(stored->0@);
        }
        match stored {
            None => default_registry(),
            Some(registry) => {
                let mut kept: TextMap<RegisteredApp> = TextMap::new();
                let n: usize = registry.apps.len();
                let ghost all = registry.apps@;
                let ghost keys = registry.apps.keys();
                let mut i: usize = 0;
                proof {
                    crate::text_map::ascending_keys_are_distinct(keys);
                }
                while i < n
                    invariant
                        i <= n == registry.apps.keys().len() == registry.apps.values().len(),
                        all == registry.apps@,
                        keys == registry.apps.keys(),
                        forall|j: int|
                            0 <= j < n ==> all.contains_key(#[trigger] keys[j]) && all[keys[j]]
                                == registry.apps.values()[j],
                        forall|k: Seq<char>| #[trigger]
                            kept@.contains_key(k) <==> keys.take(i as int).contains(k)
                                && !crate::text::blank(all[k].path@),
                        forall|k: Seq<char>| #[trigger]
                            kept@.contains_key(k) ==> kept@[k] == all[k],
                    decreases n - i,
                {
                    let app = registry.apps.value_at(i);
                    let ghost key = keys[i as int];
                    proof {
                        let short = keys.take(i as int);
                        let long = keys.take(i as int + 1);
                        assert(long =~= short.push(key));
                        assert forall|k: Seq<char>| #[trigger]
                            long.contains(k) <==> short.contains(k) || k == key by {
                            if short.contains(k) {
                                let j = short.index_of(k);
                                assert(long[j] == k);
                            }
                            assert(long[i as int] == key);
                            if long.contains(k) && k != key {
                                let j = long.index_of(k);
                                assert(short[j] == k);
                            }
                        }
                    }
                    if !is_blank(app.path.as_str()) {
                        kept.insert(registry.apps.key_at(i).clone(), app.clone());
                    }
                    i = i + 1;
                }
                proof {
                    assert(keys.take(n as int) =~= keys);
                    assert(app_views(kept@) =~= without_blank_paths(registry@).apps);
                }
                AppRegistry {
                    version: registry.version,
                    active_app: registry.active_app,
                    apps: kept,
                }
            },
        }
    }

    /// The list of projects and the attached one.
    pub fn list_response(&self, registry: &AppRegistry) -> (r: Json)
        ensures
            r@ == crate::json::JsonView::Object(
                Map::<Seq<char>, crate::json::JsonView>::empty().insert(
                    "apps"@,
                    crate::json::JsonView::Array(listed_apps(registry.apps.values())),
                ).insert(
                    "current"@,
                    crate::json::JsonView::Text(
                        match registry.active_app {
                            Some(a) => a@,
                            None => Seq::empty(),
                        },
                    ),
                ).insert("registry_enabled"@, crate::json::JsonView::Bool(true)),
            ),
    {
        let apps = registry_apps_array(registry);
        let current = match &registry.active_app {
            Some(a) => a.clone(),
            None => String::new(),
        };
        assert(registry.active_app is None ==> current@ =~= Seq::<char>::empty());
        let mut o = Json::object();
        o.set("apps", Json::array(apps));
        o.set("current", Json::text(current.as_str()));
        o.set("registry_enabled", Json::boolean(true));
        o
    }

    /// The registry of a status: the project given at startup is on record
    /// and, where nothing is attached, attached.
    pub fn status_at(&self, registry: AppRegistry, now: &str) -> (r: StatusPlan)
        ensures
            status_matches(self.current_target_root, registry@, r, now@),
    {
        let mut registry = registry;
        let current = match &registry.active_app {
            Some(a) => Some(a.clone()),
            None => match &self.current_target_root {
                Some(s) => Some(s.clone()),
                None => None,
            },
        };
        if registry.active_app.is_none() {
            registry.active_app = current.clone();
        }
        let save = match &self.current_target_root {
            Some(startup) => {
                let app = RegisteredApp {
                    name: path_name(startup.as_str()),
                    path: startup.clone(),
                    added_at: now.to_owned(),
                    last_used_at: Some(now.to_owned()),
                };
                upsert_app(&mut registry, app, false);
                true
            },
            None => false,
        };
        StatusPlan { registry, current, save }
    }

    /// The registry of a status, as of now.
    pub fn status(&self, registry: AppRegistry) -> (r: StatusPlan)
        ensures
            exists|now: Seq<char>| #[trigger]
                status_matches(self.current_target_root, registry@, r, now),
    {
        let now = timestamp();
        self.status_at(registry, now.as_str())
    }

    /// The registry with the project at a path on record, as of a given time.
    /// It is to be saved only where the path is known, the registry could be
    /// loaded and, for a project that becomes current, its schema is ready.
    pub fn register_path_at(
        &self,
        app_path: &RefineResult<String>,
        registry: RefineResult<AppRegistry>,
        name: Option<&str>,
        make_current: bool,
        ready: &RefineResult<()>,
        now: &str,
    ) -> (r: RefineResult<AppRegistry>)
        ensures
            crate::errors::viewed(r) == registration(
                crate::errors::viewed(*app_path),
                crate::errors::viewed(registry),
                crate::text::borrowed_view(name),
                make_current,
                crate::errors::outcome(*ready),
                now@,
            ),
            r is Ok <==> app_path is Ok && registry is Ok && (make_current ==> ready is Ok),
            kept_by_the_next_load(*app_path, registry, r),
    {
        let ghost stored = registry;
        let ghost place = *app_path;
        let app_path = match app_path {
            Ok(app_path) => app_path.as_str(),
            Err(e) => {
                return Err(e.clone());
            },
        };
        let app_name = match name {
            Some(n) => {
                let n = trim(n);
                if n.is_empty() {
                    path_name(app_path)
                } else {
                    n.to_owned()
                }
            },
            None => path_name(app_path),
        };
        let mut registry = match registry {
            Ok(registry) => registry,
            Err(e) => {
                return Err(e);
            },
        };
        upsert_app(
            &mut registry,
            RegisteredApp {
                name: app_name,
                path: app_path.to_owned(),
                added_at: now.to_owned(),
                last_used_at: None,
            },
            make_current,
        );
        if make_current {
            if let Err(e) = ready {
                return Err(e.clone());
            }
        }
        assert(kept_by_the_next_load(place, stored, Ok(registry))) by {
            let before = stored->Ok_0@;
            if without_blank_paths(before) == before && !crate::text::blank(app_path@) {
                assert(without_blank_paths(registry@).apps =~= registry@.apps);
            }
        }
        Ok(registry)
    }

    /// The registry with the project at a path on record.
    pub fn register_path(
        &self,
        app_path: &RefineResult<String>,
        registry: RefineResult<AppRegistry>,
        name: Option<&str>,
        make_current: bool,
        ready: &RefineResult<()>,
    ) -> (r: RefineResult<AppRegistry>)
        ensures
            exists|now: Seq<char>|
                crate::errors::viewed(r) == #[trigger] registration(
                    crate::errors::viewed(*app_path),
                    crate::errors::viewed(registry),
                    crate::text::borrowed_view(name),
                    make_current,
                    crate::errors::outcome(*ready),
                    now,
                ),
            r is Ok <==> app_path is Ok && registry is Ok && (make_current ==> ready is Ok),
            kept_by_the_next_load(*app_path, registry, r),
    {
        let now = timestamp();
        self.register_path_at(app_path, registry, name, make_current, ready, now.as_str())
    }

    /// The registry attached to the project at a path, as of a given time. It
    /// is to be saved only where the path is known, the schema of the project
    /// is ready and the registry could be loaded.
    pub fn attach_with_migration_at(
        &self,
        app_path: &RefineResult<String>,
        ready: &RefineResult<()>,
        registry: RefineResult<AppRegistry>,
        now: &str,
    ) -> (r: RefineResult<AppRegistry>)
        ensures
            crate::errors::viewed(r) == attachment(
                crate::errors::viewed(*app_path),
                crate::errors::outcome(*ready),
                crate::errors::viewed(registry),
                now@,
            ),
    {
        let app_path = match app_path {
            Ok(app_path) => app_path.as_str(),
            Err(e) => {
                return Err(e.clone());
            },
        };
        if let Err(e) = ready {
            return Err(e.clone());
        }
        let mut registry = match registry {
            Ok(registry) => registry,
            Err(e) => {
                return Err(e);
            },
        };
        upsert_app(
            &mut registry,
            RegisteredApp {
                name: path_name(app_path),
                path: app_path.to_owned(),
                added_at: now.to_owned(),
                last_used_at: Some(now.to_owned()),
            },
            true,
        );
        Ok(registry)
    }

    /// The registry attached to the project at a path, once its schema is
    /// ready.
    pub fn attach_with_migration(
        &self,
        app_path: &RefineResult<String>,
        ready: &RefineResult<()>,
        registry: RefineResult<AppRegistry>,
    ) -> (r: RefineResult<AppRegistry>)
        ensures
            exists|now: Seq<char>|
                crate::errors::viewed(r) == #[trigger] attachment(
                    crate::errors::viewed(*app_path),
                    crate::errors::outcome(*ready),
                    crate::errors::viewed(registry),
                    now,
                ),
    {
        let now = timestamp();
        self.attach_with_migration_at(app_path, ready, registry, now.as_str())
    }

    /// Accepts or refuses to make a new project at a place.
    pub fn create_local_project_at(&self, app_path: &str, facts: &PathFacts) -> (r: RefineResult<
        (),
    >)
        ensures
            crate::errors::outcome(r) == creation_outcome(app_path@, *facts),
    {
        if facts.exists && !facts.is_dir {
            return Err(
                RefineError::Conflict(
                    cat3("project destination ", app_path, " exists and is not a directory"),
                ),
            );
        }
        if facts.exists && !should_create_local_project(facts) {
            return Err(
                RefineError::Conflict(cat3("project destination ", app_path, " is not empty")),
            );
        }
        Ok(())
    }

    /// The path of the project on record that goes by a name.
    pub fn switch_target(&self, registry: &AppRegistry, name: &str) -> (r: RefineResult<String>)
        ensures
            match r {
                Ok(path) => position_of_app(registry.apps.values(), name@) matches Some(i) && path@
                    == registry.apps.values()[i].path@,
                Err(e) => position_of_app(registry.apps.values(), name@) is None && e@
                    == app_not_found(name@),
            },
    {
        match find_app(registry, name) {
            Some(i) => Ok(registry.apps.value_at(i).path.clone()),
            None => Err(app_not_found_error(name)),
        }
    }

    /// The registry attached to the project at a path, as of a given time.
    pub fn switched_at(&self, registry: AppRegistry, path: &str, now: &str) -> (r: AppRegistry)
        ensures
            r@ == switched_to(registry@, path@, now@),
    {
        let mut registry = registry;
        let ghost before = registry.apps@;
        let used = match registry.apps.get(path) {
            Some(app) => Some(
                RegisteredApp {
                    name: app.name.clone(),
                    path: app.path.clone(),
                    added_at: app.added_at.clone(),
                    last_used_at: Some(now.to_owned()),
                },
            ),
            None => None,
        };
        if let Some(app) = used {
            registry.apps.insert(path.to_owned(), app);
            assert(app_views(registry.apps@) =~= app_views(before).insert(path@, app@));
        }
        registry.active_app = Some(path.to_owned());
        registry
    }

    /// The registry attached to the project on record that goes by a name, as
    /// of a given time. It is to be saved only where the registry could be
    /// loaded, the project is on record and its schema is ready.
    pub fn switch_with_migration_at(
        &self,
        registry: RefineResult<AppRegistry>,
        name: &str,
        ready: &RefineResult<()>,
        now: &str,
    ) -> (r: RefineResult<AppRegistry>)
        ensures
            crate::errors::viewed(r) == switching(
                registry,
                name@,
                crate::errors::outcome(*ready),
                now@,
            ),
    {
        let registry = match registry {
            Ok(registry) => registry,
            Err(e) => {
                return Err(e);
            },
        };
        let path = match self.switch_target(&registry, name) {
            Ok(path) => path,
            Err(e) => {
                return Err(e);
            },
        };
        match ready {
            Ok(_) => Ok(self.switched_at(registry, path.as_str(), now)),
            Err(e) => Err(e.clone()),
        }
    }

    /// The registry attached to the project on record that goes by a name,
    /// once its schema is ready.
    pub fn switch_with_migration(
        &self,
        registry: RefineResult<AppRegistry>,
        name: &str,
        ready: &RefineResult<()>,
    ) -> (r: RefineResult<AppRegistry>)
        ensures
            exists|now: Seq<char>|
                crate::errors::viewed(r) == #[trigger] switching(
                    registry,
                    name@,
                    crate::errors::outcome(*ready),
                    now,
                ),
    {
        let now = timestamp();
        self.switch_with_migration_at(registry, name, ready, now.as_str())
    }

    /// The project to migrate: the one given at startup, else the attached
    /// one.
    pub fn migrate_current(&self, registry: &AppRegistry) -> (r: RefineResult<String>)
        ensures
            match r {
                Ok(path) => match self.current_target_root {
                    Some(s) => path@ == s@,
                    None => crate::text::maybe_view(registry.active_app) == Some(path@),
                },
                Err(e) => self.current_target_root is None && registry.active_app is None && e@
                    == crate::errors::ErrorView::NotFound("no active project is attached"@),
            },
    {
        if let Some(root) = &self.current_target_root {
            return Ok(root.clone());
        }
        match &registry.active_app {
            Some(app) => Ok(app.clone()),
            None => Err(RefineError::NotFound("no active project is attached".to_owned())),
        }
    }
}

/// A project put on record at a time.
pub open spec fn registered_app(
    name: Option<Seq<char>>,
    path: Seq<char>,
    now: Seq<char>,
    used: Option<Seq<char>>,
) -> AppView {
    AppView { name: app_name(name, path), path, added_at: now, last_used_at: used }
}

/// The registry that is saved once a project is put on record, or what
/// prevents that.
pub open spec fn registration(
    path: Result<Seq<char>, crate::errors::ErrorView>,
    registry: Result<RegistryView, crate::errors::ErrorView>,
    name: Option<Seq<char>>,
    make_current: bool,
    ready: Result<(), crate::errors::ErrorView>,
    now: Seq<char>,
) -> Result<RegistryView, crate::errors::ErrorView> {
    match (path, registry, ready) {
        (Err(e), _, _) => Err(e),
        (Ok(_), Err(e), _) => Err(e),
        (Ok(p), Ok(l), ready) => match ready {
            Err(e) => if make_current {
                Err(e)
            } else {
                Ok(with_app(l, registered_app(name, p, now, None), make_current))
            },
            Ok(_) => Ok(with_app(l, registered_app(name, p, now, None), make_current)),
        },
    }
}

/// What a registration at a path that is not blank makes of a registry that
/// was loaded is given back unchanged by the next load.
pub open spec fn kept_by_the_next_load(
    path: RefineResult<String>,
    loaded: RefineResult<AppRegistry>,
    registered: RefineResult<AppRegistry>,
) -> bool {
    match (path, loaded, registered) {
        (Ok(p), Ok(l), Ok(r)) => !crate::text::blank(p@) && without_blank_paths(l@) == l@
            ==> without_blank_paths(r@) == r@,
        _ => true,
    }
}

/// The registry that is saved once a project is attached, or what prevents
/// that.
pub open spec fn attachment(
    path: Result<Seq<char>, crate::errors::ErrorView>,
    ready: Result<(), crate::errors::ErrorView>,
    registry: Result<RegistryView, crate::errors::ErrorView>,
    now: Seq<char>,
) -> Result<RegistryView, crate::errors::ErrorView> {
    match (path, ready, registry) {
        (Err(e), _, _) => Err(e),
        (Ok(_), Err(e), _) => Err(e),
        (Ok(_), Ok(_), Err(e)) => Err(e),
        (Ok(p), Ok(_), Ok(l)) => Ok(with_app(l, registered_app(None, p, now, Some(now)), true)),
    }
}

/// The registry that is saved once another project on record is attached, or
/// what prevents that: the registry cannot be loaded, no project goes by the
/// name, or the schema of the first one that does is not ready.
pub open spec fn switching(
    registry: RefineResult<AppRegistry>,
    name: Seq<char>,
    ready: Result<(), crate::errors::ErrorView>,
    now: Seq<char>,
) -> Result<RegistryView, crate::errors::ErrorView> {
    match registry {
        Err(e) => Err(e@),
        Ok(l) => match position_of_app(l.apps.values(), name) {
            None => Err(app_not_found(name)),
            Some(i) => match ready {
                Err(e) => Err(e),
                Ok(_) => Ok(switched_to(l@, l.apps.values()[i].path@, now)),
            },
        },
    }
}

/// The plan of a status: the attached project, or else the one given at
/// startup, is current; the one given at startup is on record and saved.
pub open spec fn status_matches(
    startup: Option<String>,
    registry: RegistryView,
    plan: StatusPlan,
    now: Seq<char>,
) -> bool {
    let current = match registry.active_app {
        Some(a) => Some(a),
        None => crate::text::maybe_view(startup),
    };
    let attached = RegistryView { active_app: current, ..registry };
    &&& crate::text::maybe_view(plan.current) == current
    &&& plan.save == startup is Some
    &&& plan.registry@ == (match startup {
        Some(s) => with_app(attached, registered_app(None, s@, now, Some(now)), false),
        None => attached,
    })
}

/// A project that was put on record is on record under its path, and every
/// other project stays as it was.
pub proof fn registering_keeps_other_projects(
    registry: RegistryView,
    app: AppView,
    make_current: bool,
    other: Seq<char>,
)
    requires
        other != app.path,
    ensures
        with_app(registry, app, make_current).apps.contains_key(app.path),
        with_app(registry, app, make_current).apps[app.path] == app,
        with_app(registry, app, make_current).apps.contains_key(other)
            == registry.apps.contains_key(other),
        registry.apps.contains_key(other) ==> with_app(registry, app, make_current).apps[other]
            == registry.apps[other],
        make_current ==> with_app(registry, app, make_current).active_app == Some(app.path),
        !make_current ==> with_app(registry, app, make_current).active_app == registry.active_app,
{
}

/// Taking a project off the record undoes putting a new one on it.
pub proof fn removing_undoes_registering(registry: RegistryView, app: AppView)
    requires
        !registry.apps.contains_key(app.path),
        registry.active_app != Some(app.path),
    ensures
        without_app(with_app(registry, app, false), app.path) == registry,
{
    assert(registry.apps.insert(app.path, app).remove(app.path) =~= registry.apps);
}

/// A project that was taken off the record is neither on it nor attached.
pub proof fn removed_projects_are_not_attached(registry: RegistryView, key: Seq<char>)
    ensures
        !without_app(registry, key).apps.contains_key(key),
        without_app(registry, key).active_app != Some(key),
{
}

/// Detaching keeps every project on record.
pub proof fn detaching_keeps_projects(registry: RegistryView)
    ensures
        detached(registry).apps == registry.apps,
        detached(registry).active_app is None,
        detached(detached(registry)) == detached(registry),
{
}

/// Switching attaches to the project and changes nothing on record but the
/// time of its last use.
pub proof fn switching_changes_only_the_last_use(
    registry: RegistryView,
    path: Seq<char>,
    now: Seq<char>,
    other: Seq<char>,
)
    ensures
        switched_to(registry, path, now).active_app == Some(path),
        switched_to(registry, path, now).apps.dom() =~= registry.apps.dom(),
        other != path ==> switched_to(registry, path, now).apps[other] == registry.apps[other],
        registry.apps.contains_key(path) ==> ({
            let before = registry.apps[path];
            let after = switched_to(registry, path, now).apps[path];
            after.name == before.name && after.path == before.path && after.added_at
                == before.added_at && after.last_used_at == Some(now)
        }),
{
}

/// Without a project on record that goes by the name, or with a schema that is
/// not ready, switching gives no registry to save; else it attaches to the
/// first such project and changes nothing on record but the time of its last
/// use.
pub proof fn switching_needs_a_ready_project(
    registry: AppRegistry,
    name: Seq<char>,
    ready: Result<(), crate::errors::ErrorView>,
    now: Seq<char>,
    other: Seq<char>,
)
    ensures
        ({
            let found = position_of_app(registry.apps.values(), name);
            let switched = switching(Ok(registry), name, ready, now);
            &&& switched is Ok <==> found is Some && ready is Ok
            &&& found is None ==> switched == Err::<RegistryView, _>(app_not_found(name))
            &&& found is Some && ready is Err ==> switched == Err::<RegistryView, _>(ready->Err_0)
            &&& switched matches Ok(next) ==> {
                let path = registry.apps.values()[found->0].path@;
                &&& next.active_app == Some(path)
                &&& next.version == registry@.version
                &&& next.apps.dom() == registry@.apps.dom()
                &&& other != path ==> next.apps[other] == registry@.apps[other]
                &&& registry@.apps.contains_key(path) ==> next.apps[path] == (AppView {
                    last_used_at: Some(now),
                    ..registry@.apps[path]
                })
            }
        }),
{
    if let Ok(next) = switching(Ok(registry), name, ready, now) {
        assert(next.apps.dom() =~= registry@.apps.dom());
    }
}

/// Once a project is registered at a path that is not blank, the next load
/// gives exactly the registry that the registration returned: the one that was
/// loaded before, with this project alone put on record.
pub proof fn what_was_registered_is_loaded_next(
    stored: RegistryView,
    path: Seq<char>,
    name: Option<Seq<char>>,
    make_current: bool,
    ready: Result<(), crate::errors::ErrorView>,
    now: Seq<char>,
    registered: RegistryView,
)
    requires
        !crate::text::blank(path),
        registration(
            Ok(path),
            Ok(without_blank_paths(stored)),
            name,
            make_current,
            ready,
            now,
        ) == Ok::<RegistryView, crate::errors::ErrorView>(registered),
    ensures
        without_blank_paths(registered) == registered,
        registered.apps == without_blank_paths(stored).apps.insert(
            path,
            (AppView { name: app_name(name, path), path, added_at: now, last_used_at: None }),
        ),
        registered.active_app == (if make_current {
            Some(path)
        } else {
            stored.active_app
        }),
        registered.version == stored.version,
{
    assert(without_blank_paths(registered).apps =~= registered.apps);
}

proof fn tails_keep_the_root(path: Seq<char>)
    requires
        path.len() > 0,
        path[0] == '/',
    ensures
        crate::paths::without_tail(path).len() > 0,
        crate::paths::without_tail(path)[0] == '/',
    decreases path.len(),
{
    if path.len() > 1 && (path.last() == '/' || (path.last() == '.' && path[path.len() - 2]
        == '/')) {
        tails_keep_the_root(path.drop_last());
    }
}

proof fn segments_follow_the_root(path: Seq<char>)
    requires
        path.len() > 0,
        path[0] == '/',
    ensures
        1 <= crate::paths::segment_start(path) <= path.len(),
    decreases path.len(),
{
    if path.last() != '/' {
        segments_follow_the_root(path.drop_last());
    }
}

proof fn roots_are_not_blank(path: Seq<char>)
    requires
        path.len() > 0,
        path[0] == '/',
    ensures
        crate::text::trimmed_end(path).len() > 0,
    decreases path.len(),
{
    if path.len() > 1 {
        roots_are_not_blank(path.drop_last());
    }
}

/// A project's normalized path is absolute, so it is never blank: a working
/// directory is absolute.
pub proof fn normalized_paths_are_absolute(
    path: Seq<char>,
    home: Option<Seq<char>>,
    cwd: Result<Seq<char>, Seq<char>>,
)
    requires
        cwd matches Ok(directory) ==> crate::text::begins_with(directory, "/"@),
        normalized(path, home, cwd) is Ok,
    ensures
        crate::text::begins_with(normalized(path, home, cwd)->Ok_0, "/"@),
        !crate::text::blank(normalized(path, home, cwd)->Ok_0),
{
    reveal_strlit("/");
    let full = expanded(crate::text::trimmed(path), home);
    let whole = if crate::text::begins_with(full, "/"@) {
        full
    } else {
        crate::paths::joined(cwd->Ok_0, full)
    };
    assert("/"@[0] == '/');
    assert(whole.len() > 0 && whole[0] == '/');
    let short = crate::paths::without_tail(whole);
    tails_keep_the_root(whole);
    segments_follow_the_root(short);
    tails_keep_the_root(short.take(crate::paths::segment_start(short)));
    let project = project_of(whole);
    assert(project.len() > 0 && project[0] == '/');
    roots_are_not_blank(project);
    assert(project.subrange(0, 1) =~= "/"@);
    assert(crate::text::trimmed_start(project) == project);
}

/// Once a project is registered under the path that a request names, the next
/// load gives exactly the registry that the registration returned: the one
/// that was loaded before, with the project at the normalized path alone put
/// on record.
pub proof fn what_was_asked_for_is_loaded_next(
    stored: RegistryView,
    path: Seq<char>,
    home: Option<Seq<char>>,
    cwd: Result<Seq<char>, Seq<char>>,
    name: Option<Seq<char>>,
    make_current: bool,
    ready: Result<(), crate::errors::ErrorView>,
    now: Seq<char>,
    registered: RegistryView,
)
    requires
        cwd matches Ok(directory) ==> crate::text::begins_with(directory, "/"@),
        registration(
            normalized(path, home, cwd),
            Ok(without_blank_paths(stored)),
            name,
            make_current,
            ready,
            now,
        ) == Ok::<RegistryView, crate::errors::ErrorView>(registered),
    ensures
        normalized(path, home, cwd) is Ok,
        without_blank_paths(registered) == registered,
        ({
            let place = normalized(path, home, cwd)->Ok_0;
            &&& registered.apps == without_blank_paths(stored).apps.insert(
                place,
                (AppView {
                    name: app_name(name, place),
                    path: place,
                    added_at: now,
                    last_used_at: None,
                }),
            )
            &&& registered.active_app == (if make_current {
                Some(place)
            } else {
                stored.active_app
            })
        }),
{
    normalized_paths_are_absolute(path, home, cwd);
    what_was_registered_is_loaded_next(
        stored,
        normalized(path, home, cwd)->Ok_0,
        name,
        make_current,
        ready,
        now,
        registered,
    );
}

/// Loading is stable: what was loaded once is loaded again unchanged.
pub proof fn loading_is_stable(registry: RegistryView)
    ensures
        without_blank_paths(without_blank_paths(registry)) == without_blank_paths(registry),
{
    assert(without_blank_paths(without_blank_paths(registry)).apps =~= without_blank_paths(
        registry,
    ).apps);
}

} // verus!

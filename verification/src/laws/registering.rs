//! Which projects are on record, and which one is attached.
use vstd::prelude::*;

use crate::project_registry::{
    AppRegistry, PathFacts, ProjectSchemaStatus, RegisteredApp, SchemaStep, StatusPlan,
};

verus! {

/// A project goes by a name: it is its own or its path.
pub open spec fn answers_to(app: RegisteredApp, name: Seq<char>) -> bool {
    app.name@ == name || app.path@ == name
}

/// The first of the projects that goes by a name.
pub open spec fn is_first_called(apps: Seq<RegisteredApp>, name: Seq<char>, at: int) -> bool {
    0 <= at < apps.len() && answers_to(apps[at], name) && forall|i: int|
        0 <= i < at ==> !answers_to(#[trigger] apps[i], name)
}

/// No project goes by a name.
pub open spec fn nobody_is_called(apps: Seq<RegisteredApp>, name: Seq<char>) -> bool {
    forall|i: int| 0 <= i < apps.len() ==> !answers_to(#[trigger] apps[i], name)
}

/// The first project that goes by a name is found, and none where none does.
pub proof fn projects_are_found_by_name_or_path(
    apps: Seq<RegisteredApp>,
    name: Seq<char>,
    at: int,
)
    ensures
        (crate::project_registry::position_of_app(apps, name) == Some(at)) == is_first_called(
            apps,
            name,
            at,
        ),
        crate::project_registry::position_of_app(apps, name) is None == nobody_is_called(apps, name),
{
    let p = |a: RegisteredApp| crate::project_registry::goes_by(a, name);
    let found = crate::project_registry::position_of_app(apps, name);
    crate::lists::first_position_is_sound(apps, p);
    if is_first_called(apps, name, at) {
        assert(p(apps[at]));
        assert forall|j: int| 0 <= j < at implies !p(#[trigger] apps[j]) by {
            assert(!answers_to(apps[j], name));
        }
        crate::lists::first_position_is_least(apps, p, at);
    }
    if found is Some {
        let i = found->0;
        assert(p(apps[i]));
        assert(answers_to(apps[i], name));
        assert forall|j: int| 0 <= j < i implies !answers_to(#[trigger] apps[j], name) by {
            assert(!p(apps[j]));
        }
    } else {
        assert forall|j: int| 0 <= j < apps.len() implies !answers_to(
            #[trigger] apps[j],
            name,
        ) by {
            assert(!p(apps[j]));
        }
    }
}

/// Nothing on record changed but what stands under one path.
pub open spec fn only_one_changed(
    before: crate::project_registry::RegistryView,
    after: crate::project_registry::RegistryView,
    path: Seq<char>,
) -> bool {
    &&& after.version == before.version
    &&& forall|other: Seq<char>|
        other != path ==> #[trigger] after.apps.contains_key(other) == before.apps.contains_key(
            other,
        )
    &&& forall|other: Seq<char>|
        other != path && before.apps.contains_key(other) ==> #[trigger] after.apps[other]
            == before.apps[other]
}

/// A project stands on record under its path, as it was put there at a time.
pub open spec fn is_on_record(
    registry: crate::project_registry::RegistryView,
    path: Seq<char>,
    name: Seq<char>,
    now: Seq<char>,
    used: Option<Seq<char>>,
) -> bool {
    registry.apps.contains_key(path) && registry.apps[path].name == name
        && registry.apps[path].path == path && registry.apps[path].added_at == now
        && registry.apps[path].last_used_at == used
}

/// A project has the name that is given, without the white space around it, or
/// the last part of its path.
pub open spec fn is_its_name(given: Option<Seq<char>>, path: Seq<char>, name: Seq<char>) -> bool {
    if given is Some && !crate::laws::texts::only_spaces(given->0) {
        name == crate::text::trimmed(given->0)
    } else if crate::paths::file_name(path) is Some {
        name == crate::paths::file_name(path)->0
    } else {
        name == path
    }
}

/// A project is put on record under its path, not used yet, and attached only
/// where that is asked for; what stops it comes in order: the path, the registry
/// and, for one that is to be attached, its schema.
pub proof fn projects_are_put_on_record(
    path: Result<Seq<char>, crate::errors::ErrorView>,
    registry: Result<crate::project_registry::RegistryView, crate::errors::ErrorView>,
    given: Option<Seq<char>>,
    make_current: bool,
    ready: Result<(), crate::errors::ErrorView>,
    now: Seq<char>,
    name: Seq<char>,
)
    requires
        path is Ok ==> is_its_name(given, path->Ok_0, name),
    ensures
        ({
            let after = crate::project_registry::registration(
                path,
                registry,
                given,
                make_current,
                ready,
                now,
            );
            &&& path is Err ==> after is Err && after->Err_0 == path->Err_0
            &&& path is Ok && registry is Err ==> after is Err && after->Err_0 == registry->Err_0
            &&& path is Ok && registry is Ok && make_current && ready is Err ==> after is Err
                && after->Err_0 == ready->Err_0
            &&& path is Ok && registry is Ok && (ready is Ok || !make_current) ==> after is Ok
                && is_on_record(after->Ok_0, path->Ok_0, name, now, None) && only_one_changed(
                registry->Ok_0,
                after->Ok_0,
                path->Ok_0,
            )
            &&& after is Ok && make_current ==> after->Ok_0.active_app == Some(path->Ok_0)
            &&& after is Ok && !make_current ==> after->Ok_0.active_app
                == registry->Ok_0.active_app
        }),
{
    if given is Some {
        crate::laws::texts::blank_texts_hold_only_white_space(given->0);
    }
}

/// Attaching to a path puts the project on record as used now and makes it
/// current, once the path is known, its schema is ready and the registry could
/// be loaded.
pub proof fn attached_projects_are_used_now(
    path: Result<Seq<char>, crate::errors::ErrorView>,
    ready: Result<(), crate::errors::ErrorView>,
    registry: Result<crate::project_registry::RegistryView, crate::errors::ErrorView>,
    now: Seq<char>,
    name: Seq<char>,
)
    requires
        path is Ok ==> is_its_name(None, path->Ok_0, name),
    ensures
        ({
            let after = crate::project_registry::attachment(path, ready, registry, now);
            &&& path is Err ==> after is Err && after->Err_0 == path->Err_0
            &&& path is Ok && ready is Err ==> after is Err && after->Err_0 == ready->Err_0
            &&& path is Ok && ready is Ok && registry is Err ==> after is Err && after->Err_0
                == registry->Err_0
            &&& path is Ok && ready is Ok && registry is Ok ==> after is Ok && is_on_record(
                after->Ok_0,
                path->Ok_0,
                name,
                now,
                Some(now),
            ) && only_one_changed(registry->Ok_0, after->Ok_0, path->Ok_0)
                && after->Ok_0.active_app == Some(path->Ok_0)
        }),
{
}

/// Switching attaches to the first project that goes by the name and marks it as
/// used now; it is refused where none does or its schema is not ready.
pub proof fn switching_follows_the_name(
    registry: AppRegistry,
    name: Seq<char>,
    ready: Result<(), crate::errors::ErrorView>,
    now: Seq<char>,
    at: int,
)
    ensures
        ({
            let after = crate::project_registry::switching(Ok(registry), name, ready, now);
            let apps = registry.apps.values();
            let path = apps[at].path@;
            &&& nobody_is_called(apps, name) ==> after is Err && after->Err_0
                == crate::errors::ErrorView::NotFound("App "@ + name + " was not found"@)
            &&& is_first_called(apps, name, at) && ready is Err ==> after is Err && after->Err_0
                == ready->Err_0
            &&& is_first_called(apps, name, at) && ready is Ok ==> after is Ok
                && after->Ok_0.active_app == Some(path) && only_one_changed(
                registry@,
                after->Ok_0,
                path,
            ) && (after->Ok_0.apps.contains_key(path) == registry@.apps.contains_key(path)) && (
            registry@.apps.contains_key(path) ==> after->Ok_0.apps[path].last_used_at == Some(now)
                && after->Ok_0.apps[path].name == registry@.apps[path].name
                && after->Ok_0.apps[path].path == registry@.apps[path].path
                && after->Ok_0.apps[path].added_at == registry@.apps[path].added_at)
        }),
{
    projects_are_found_by_name_or_path(registry.apps.values(), name, at);
}

/// A project that is taken off the record is gone, alone, and what was attached
/// stays attached unless it was this one.
pub proof fn only_the_removed_project_goes(
    registry: crate::project_registry::RegistryView,
    key: Seq<char>,
)
    ensures
        ({
            let after = crate::project_registry::without_app(registry, key);
            &&& !after.apps.contains_key(key)
            &&& only_one_changed(registry, after, key)
            &&& registry.active_app == Some(key) ==> after.active_app is None
            &&& registry.active_app != Some(key) ==> after.active_app == registry.active_app
        }),
{
}

/// Detaching leaves every project on record and nothing attached.
pub proof fn detaching_only_detaches(registry: crate::project_registry::RegistryView)
    ensures
        crate::project_registry::detached(registry).active_app is None,
        crate::project_registry::detached(registry).apps == registry.apps,
        crate::project_registry::detached(registry).version == registry.version,
{
}

/// Loading drops exactly the projects whose path is nothing but white space; an
/// empty registry holds no project and is attached to none.
pub proof fn only_pathless_projects_are_dropped(
    registry: crate::project_registry::RegistryView,
    key: Seq<char>,
)
    ensures
        ({
            let after = crate::project_registry::without_blank_paths(registry);
            &&& after.version == registry.version
            &&& after.active_app == registry.active_app
            &&& after.apps.contains_key(key) == (registry.apps.contains_key(key)
                && !crate::laws::texts::only_spaces(registry.apps[key].path))
            &&& after.apps.contains_key(key) ==> after.apps[key] == registry.apps[key]
        }),
        !crate::project_registry::empty_registry().apps.contains_key(key),
        crate::project_registry::empty_registry().active_app is None,
        crate::project_registry::empty_registry().version == 1,
{
    crate::laws::texts::blank_texts_hold_only_white_space(registry.apps[key].path);
}

/// What is attached stays current; else the project given at startup is. The one
/// given at startup is put on record as used now and saved, and without one
/// nothing is saved.
pub proof fn the_startup_project_is_current_unless_another_is(
    startup: Option<String>,
    registry: crate::project_registry::RegistryView,
    plan: StatusPlan,
    now: Seq<char>,
    name: Seq<char>,
)
    requires
        crate::project_registry::status_matches(startup, registry, plan, now),
        startup is Some ==> is_its_name(None, (startup->0)@, name),
    ensures
        plan.save == (startup is Some),
        registry.active_app is Some ==> plan.current is Some && (plan.current->0)@
            == registry.active_app->0,
        registry.active_app is None && startup is Some ==> plan.current is Some && (
        plan.current->0)@ == (startup->0)@,
        registry.active_app is None && startup is None ==> plan.current is None,
        plan.registry@.active_app == crate::text::maybe_view(plan.current),
        startup is None ==> plan.registry@.apps == registry.apps,
        startup is Some ==> is_on_record(plan.registry@, (startup->0)@, name, now, Some(now)),
        startup is Some ==> only_one_changed(registry, plan.registry@, (startup->0)@),
{
}

/// A schema is ready where it is compatible and needs no migration; one without a
/// version is initialized first. A migration runs by itself only where it is safe
/// and needs no quiet cluster, and any other schema is refused, with what the
/// operator is to do or why.
pub proof fn schemas_are_migrated_only_where_safe(schema: ProjectSchemaStatus)
    ensures
        ({
            let outcome = crate::project_registry::schema_outcome(schema);
            let settled = schema.compatible && !schema.migration_required;
            let alone = schema.migration_required && schema.safe_auto
                && !schema.requires_cluster_quiescence;
            &&& (outcome == Ok::<SchemaStep, crate::errors::ErrorView>(SchemaStep::Ready)) == (
            settled && schema.schema_version is Some)
            &&& (outcome == Ok::<SchemaStep, crate::errors::ErrorView>(SchemaStep::Initialize)) == (
            settled && schema.schema_version is None)
            &&& (outcome == Ok::<SchemaStep, crate::errors::ErrorView>(SchemaStep::Migrate))
                == alone
            &&& outcome is Err ==> outcome->Err_0 is Conflict
            &&& outcome is Err && schema.migration_required && schema.operator_instructions is Some
                ==> outcome->Err_0->Conflict_0 == (schema.operator_instructions->0)@
            &&& outcome is Err && schema.migration_required && schema.operator_instructions is None
                ==> outcome->Err_0->Conflict_0 == "project migration required"@
            &&& outcome is Err && !schema.migration_required && schema.reason is Some
                ==> outcome->Err_0->Conflict_0 == (schema.reason->0)@
            &&& outcome is Err && !schema.migration_required && schema.reason is None
                ==> outcome->Err_0->Conflict_0 == "project schema is not compatible"@
            &&& crate::project_registry::migrates_safely(schema) == alone
        }),
{
}

/// A new project can be made where nothing stands, or in an empty directory
/// without a repository.
pub proof fn projects_are_made_where_nothing_stands(path: Seq<char>, facts: PathFacts)
    ensures
        ({
            let made = crate::project_registry::creation_outcome(path, facts);
            let free = !facts.exists || facts.is_dir && facts.is_empty && !facts.has_git;
            &&& crate::project_registry::can_create(facts) == free
            &&& made is Ok == free
            &&& facts.exists && !facts.is_dir ==> made == Err::<(), crate::errors::ErrorView>(
                crate::errors::ErrorView::Conflict(
                    "project destination "@ + path + " exists and is not a directory"@,
                ),
            )
            &&& facts.exists && facts.is_dir && !free ==> made == Err::<
                (),
                crate::errors::ErrorView,
            >(crate::errors::ErrorView::Conflict("project destination "@ + path + " is not empty"@))
        }),
{
}

/// A source that is named is cloned to a destination that is free.
pub proof fn sources_are_cloned_to_free_places(
    source: Seq<char>,
    destination: Seq<char>,
    exists: bool,
)
    ensures
        ({
            let told = crate::project_registry::clone_outcome(source, destination, exists);
            let named = !crate::laws::texts::only_spaces(source);
            &&& told is Ok == (named && !exists)
            &&& !named ==> told->Err_0 is InvalidInput
            &&& named && exists ==> told->Err_0 == crate::errors::ErrorView::Conflict(
                "clone destination "@ + destination + " already exists"@,
            )
            &&& told is Ok ==> told->Ok_0.len() == 3 && told->Ok_0[0] == "clone"@ && told->Ok_0[1]
                == crate::text::trimmed(source) && told->Ok_0[2] == destination
        }),
{
    crate::laws::texts::blank_texts_hold_only_white_space(source);
}

/// A failed command is told by its name, with what Git said where it said
/// something.
pub proof fn failed_commands_are_told(command: Seq<char>, stderr: Seq<char>)
    ensures
        crate::laws::texts::only_spaces(stderr) ==> crate::project_registry::git_failure(
            command,
            stderr,
        ) == crate::errors::ErrorView::Conflict(command + " failed"@),
        !crate::laws::texts::only_spaces(stderr) ==> crate::project_registry::git_failure(
            command,
            stderr,
        ) == crate::errors::ErrorView::Conflict(
            command + " failed"@ + (": "@ + crate::text::trimmed(stderr)),
        ),
{
    crate::laws::texts::blank_texts_hold_only_white_space(stderr);
    assert(command + " failed"@ + Seq::<char>::empty() =~= command + " failed"@);
}

/// A project is listed with its name, its path and its times.
pub proof fn projects_are_listed_with_their_fields(app: crate::project_registry::AppView)
    ensures
        ({
            let listed = crate::project_registry::listed_app(app);
            &&& crate::laws::values::says(listed, "name"@, app.name)
            &&& crate::laws::values::says(listed, "path"@, app.path)
            &&& crate::laws::values::says(listed, "added_at"@, app.added_at)
            &&& app.last_used_at is Some ==> crate::laws::values::says(
                listed,
                "last_used_at"@,
                app.last_used_at->0,
            )
            &&& app.last_used_at is None ==> crate::laws::values::says(
                listed,
                "last_used_at"@,
                Seq::empty(),
            )
        }),
{
    listed_keys_differ();
}

proof fn listed_keys_differ()
    ensures
        "name"@ != "path"@,
        "name"@ != "added_at"@,
        "name"@ != "last_used_at"@,
        "path"@ != "added_at"@,
        "path"@ != "last_used_at"@,
        "added_at"@ != "last_used_at"@,
{
    reveal_strlit("name");
    reveal_strlit("path");
    reveal_strlit("added_at");
    reveal_strlit("last_used_at");
    assert("name"@.len() == 4);
    assert("path"@.len() == 4);
    assert("added_at"@.len() == 8);
    assert("last_used_at"@.len() == 12);
    assert("name"@[0] == 'n');
    assert("path"@[0] == 'p');
}

/// A tilde alone stands for the home directory, one before a separator for a
/// path below it, and any other path for itself.
pub proof fn tildes_stand_for_home(rest: Seq<char>, home: Seq<char>)
    ensures
        crate::project_registry::expanded(seq!['~'], Some(home)) == home,
        crate::project_registry::expanded(seq!['~', '/'] + rest, Some(home))
            == crate::paths::joined(home, rest),
        rest.len() > 0 && rest[0] != '~' ==> crate::project_registry::expanded(rest, Some(home))
            == rest,
        rest.len() > 0 && rest[0] != '/' ==> crate::project_registry::expanded(
            seq!['~'] + rest,
            Some(home),
        ) == seq!['~'] + rest,
        crate::project_registry::expanded(rest, None) == rest,
{
    reveal_strlit("~");
    reveal_strlit("~/");
    assert("~"@ =~= seq!['~']);
    assert("~/"@ =~= seq!['~', '/']);
    let below = seq!['~', '/'] + rest;
    assert(below.subrange(0, 2) =~= "~/"@);
    assert(below.skip(2) =~= rest);
    assert(below[1] == '/' && below.len() >= 2 && "~"@.len() == 1);
    if rest.len() > 0 {
        assert("~"@[0] == '~');
        if rest.len() >= 2 {
            assert(rest.subrange(0, 2)[0] == rest[0]);
        }
        let user = seq!['~'] + rest;
        assert(user.len() >= 2);
        assert(user.subrange(0, 2)[1] == rest[0]);
    }
}

/// A project's path is what is asked for, without the white space around it,
/// below the working directory unless it starts at the root; a state directory
/// stands for the project that holds it.
pub proof fn project_paths_are_made_absolute(
    path: Seq<char>,
    home: Option<Seq<char>>,
    cwd: Result<Seq<char>, Seq<char>>,
)
    ensures
        ({
            let found = crate::project_registry::normalized(path, home, cwd);
            let full = crate::project_registry::expanded(crate::text::trimmed(path), home);
            let rooted = crate::laws::locating::is_absolute(full);
            let named = !crate::laws::texts::only_spaces(path);
            &&& !named ==> found is Err && found->Err_0 is InvalidInput
            &&& named && rooted ==> found is Ok && stands_for(full, found->Ok_0)
            &&& named && !rooted && cwd is Ok ==> found is Ok && stands_for(
                crate::paths::joined(cwd->Ok_0, full),
                found->Ok_0,
            )
            &&& named && !rooted && cwd is Err ==> found is Err && found->Err_0
                == crate::errors::ErrorView::Io("failed to inspect cwd: "@ + cwd->Err_0)
        }),
{
    crate::laws::texts::blank_texts_hold_only_white_space(path);
    let full = crate::project_registry::expanded(crate::text::trimmed(path), home);
    reveal_strlit("/");
    assert("/"@ =~= seq!['/']);
    if full.len() > 0 {
        assert(full.subrange(0, 1)[0] == full[0]);
        if full[0] == '/' {
            assert(full.subrange(0, 1) =~= "/"@);
        }
    }
}

/// A state directory stands for the project that holds it, and any other path
/// for itself.
pub open spec fn stands_for(path: Seq<char>, project: Seq<char>) -> bool {
    if crate::paths::file_name(path) == Some(".refine"@) {
        project == crate::paths::parent_dir(path)
    } else {
        project == path
    }
}

} // verus!

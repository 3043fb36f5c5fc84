//! New goals, and what is shown of stored ones.
use vstd::prelude::*;

use crate::clock::timestamp;
use crate::errors::{goal_not_found_error, RefineError, RefineResult};
use crate::json::{clone_json, clone_values, Json};
use crate::model::{GoalSummaryProjection, ProjectionSnapshot};
use crate::nodes::{Node, NodeIdentityDiagnostic};
use crate::paths::join_path;
use crate::text::{cat3, cat5, is_blank, replace_text, text_eq, trim, uppercase};
use crate::work_items::{find_goal_summary, not_an_object_error, FileWorkItemService};

verus! {

/// A goal whose record is to be written.
pub struct NewGoal {
    pub id: String,
    /// Where the record is stored.
    pub path: String,
    /// The same place, relative to the project's directory.
    pub json_path: String,
    pub record: Json,
}

/// A new goal by its contents.
pub ghost struct NewGoalView {
    pub id: Seq<char>,
    pub path: Seq<char>,
    pub json_path: Seq<char>,
    pub record: crate::json::JsonView,
}

impl View for NewGoal {
    type V = NewGoalView;

    open spec fn view(&self) -> NewGoalView {
        NewGoalView {
            id: self.id@,
            path: self.path@,
            json_path: self.json_path@,
            record: self.record@,
        }
    }
}

/// What surrounds the record of a goal where it is shown.
pub struct DetailContext {
    /// The nodes of the project, as the registry tells them.
    pub nodes: RefineResult<Vec<Node>>,
    /// The notice that a failed goal blocks its feature, given the goals of
    /// that feature in order.
    pub blocking_notice: Option<Json>,
    /// The log of each round.
    pub logs: Vec<RefineResult<Vec<Json>>>,
    /// What the latest log says of the latest round.
    pub latest_fields: RefineResult<Vec<(String, Json)>>,
}

/// Too short to spread over two directories: fewer than three bytes.
pub open spec fn too_short(id: Seq<char>) -> bool {
    (vstd::utf8::encode_utf8(id).len() as usize) < 3
}

/// The id of a new goal: the asked one in upper case, or a generated one.
pub open spec fn goal_id_of(id: Option<Seq<char>>, generated: Seq<char>) -> Result<
    Seq<char>,
    crate::errors::ErrorView,
> {
    checked_goal_id(
        match id {
            Some(i) => crate::text::uppercased(crate::text::trimmed(i)),
            None => Seq::empty(),
        },
        generated,
    )
}

/// The id of a new goal from the uppercased id that is asked for, which is
/// empty where none is.
pub open spec fn checked_goal_id(asked: Seq<char>, generated: Seq<char>) -> Result<
    Seq<char>,
    crate::errors::ErrorView,
> {
    let chosen = if asked.len() == 0 { generated } else { asked };
    if too_short(chosen) {
        Err(crate::errors::ErrorView::InvalidInput("Goal id must be at least three characters"@))
    } else {
        Ok(chosen)
    }
}

/// Where the record of a goal is stored, relative to the project's directory.
pub open spec fn relative_path(id: Seq<char>) -> Seq<char> {
    let cut = if id.len() < 2 { id.len() as int } else { 2 };
    "goals/"@ + id.take(cut) + "/"@ + id.skip(cut) + "/goal.json"@
}

/// The record of a new goal.
pub open spec fn first_record(
    id: Seq<char>,
    name: Seq<char>,
    priority: Seq<char>,
    reporter: crate::json::JsonView,
    feature_id: crate::json::JsonView,
    node_id: Seq<char>,
    now: Seq<char>,
    rounds: Seq<crate::json::JsonView>,
) -> crate::json::JsonView {
    crate::json::JsonView::Object(
        Map::<Seq<char>, crate::json::JsonView>::empty().insert(
            "id"@,
            crate::json::JsonView::Text(id),
        ).insert("name"@, crate::json::JsonView::Text(name)).insert(
            "status"@,
            crate::json::JsonView::Text("backlog"@),
        ).insert("priority"@, crate::json::JsonView::Text(priority)).insert(
            "reporter"@,
            reporter,
        ).insert("branch_name"@, crate::json::JsonView::Null).insert(
            "target_branch"@,
            crate::json::JsonView::Null,
        ).insert("base_commit"@, crate::json::JsonView::Null).insert(
            "candidate_commit"@,
            crate::json::JsonView::Null,
        ).insert("feature_id"@, feature_id).insert(
            "feature_order"@,
            crate::json::JsonView::Null,
        ).insert("node_id"@, crate::json::JsonView::Text(node_id)).insert(
            "created"@,
            crate::json::JsonView::Text(now),
        ).insert("updated"@, crate::json::JsonView::Text(now)).insert(
            "notes"@,
            crate::json::JsonView::Array(Seq::empty()),
        ).insert("rounds"@, crate::json::JsonView::Array(rounds)),
    )
}

/// The refusal of an id that another goal has.
pub open spec fn id_taken(id: Seq<char>) -> crate::errors::ErrorView {
    crate::errors::ErrorView::Conflict("Goal "@ + id + " already exists"@)
}

/// The new goal that is asked for by name.
pub open spec fn created_goal(
    service: FileWorkItemService,
    name: Seq<char>,
    id: Option<Seq<char>>,
    generated: Seq<char>,
    taken: bool,
    registered: RefineResult<String>,
    now: Seq<char>,
) -> Result<NewGoalView, crate::errors::ErrorView> {
    if crate::text::blank(name) {
        Err(crate::errors::ErrorView::InvalidInput("Goal name is required"@))
    } else {
        match goal_id_of(id, generated) {
            Err(e) => Err(e),
            Ok(goal_id) => if taken {
                Err(id_taken(goal_id))
            } else {
                match crate::work_items::active_node(service, registered) {
                    Err(e) => Err(e),
                    Ok(node) => Ok(
                        NewGoalView {
                            id: goal_id,
                            path: crate::paths::joined(service.refine_dir@, relative_path(goal_id)),
                            json_path: crate::text::replaced_all(
                                relative_path(goal_id),
                                "\\"@,
                                "/"@,
                            ),
                            record: first_record(
                                goal_id,
                                crate::text::trimmed(name),
                                "low"@,
                                crate::json::JsonView::Null,
                                crate::json::JsonView::Null,
                                node,
                                now,
                                Seq::empty(),
                            ),
                        },
                    ),
                }
            },
        }
    }
}

/// The id of a new goal.
pub fn resolve_goal_id(id: Option<&str>, generated: &str) -> (r: RefineResult<String>)
    ensures
        crate::errors::viewed(r) == goal_id_of(
            crate::text::borrowed_view(id),
            generated@,
        ),
{
    let asked = match id {
        Some(i) => uppercase(trim(i)),
        None => String::new(),
    };
    check_goal_id(asked, generated)
}

/// The id of a new goal from the uppercased id that is asked for, which is
/// empty where none is.
pub fn check_goal_id(asked: String, generated: &str) -> (r: RefineResult<String>)
    ensures
        crate::errors::viewed(r) == checked_goal_id(asked@, generated@),
{
    let chosen = if asked.as_str().is_empty() {
        generated.to_owned()
    } else {
        asked
    };
    if chosen.as_str().len() < 3 {
        return Err(
            RefineError::InvalidInput("Goal id must be at least three characters".to_owned()),
        );
    }
    Ok(chosen)
}

/// Where the record of a goal is stored, relative to the project's directory.
pub fn goal_relative_path(id: &str) -> (r: String)
    ensures
        r@ == relative_path(id@),
{
    let n: usize = id.unicode_len();
    let cut: usize = if n < 2 { n } else { 2 };
    let head = id.substring_char(0, cut);
    let tail = id.substring_char(cut, n);
    assert(head@ =~= id@.take(cut as int));
    assert(tail@ =~= id@.skip(cut as int));
    cat5("goals/", head, "/", tail, "/goal.json")
}

/// Where the record of a goal is stored.
pub fn goal_json_path(refine_dir: &str, id: &str) -> (r: String)
    ensures
        r@ == crate::paths::joined(refine_dir@, relative_path(id@)),
{
    join_path(refine_dir, goal_relative_path(id).as_str())
}

pub(crate) fn new_record(
    id: &str,
    name: &str,
    priority: &str,
    reporter: Json,
    feature_id: Json,
    node_id: &str,
    now: &str,
    rounds: Vec<Json>,
) -> (r: Json)
    ensures
        r@ == first_record(
            id@,
            name@,
            priority@,
            reporter@,
            feature_id@,
            node_id@,
            now@,
            crate::json::json_views(rounds@),
        ),
{
    let none: Vec<Json> = Vec::new();
    assert(crate::json::json_views(none@) =~= Seq::empty());
    let mut object = Json::object();
    object.set("id", Json::text(id));
    object.set("name", Json::text(name));
    object.set("status", Json::text("backlog"));
    object.set("priority", Json::text(priority));
    object.set("reporter", reporter);
    object.set("branch_name", Json::null());
    object.set("target_branch", Json::null());
    object.set("base_commit", Json::null());
    object.set("candidate_commit", Json::null());
    object.set("feature_id", feature_id);
    object.set("feature_order", Json::null());
    object.set("node_id", Json::text(node_id));
    object.set("created", Json::text(now));
    object.set("updated", Json::text(now));
    object.set("notes", Json::array(none));
    object.set("rounds", Json::array(rounds));
    object
}

pub(crate) fn id_taken_error(id: &str) -> (r: RefineError)
    ensures
        r@ == id_taken(id@),
{
    RefineError::Conflict(cat3("Goal ", id, " already exists"))
}

/// How the node of a goal is named where it is unknown.
pub open spec fn unknown_node_name(node_id: Option<String>) -> Seq<char> {
    match node_id {
        Some(id) => if id@ == "default"@ { "Default"@ } else { id@ },
        None => "Default"@,
    }
}

/// A diagnostic as a value.
pub open spec fn diagnostic_value(d: crate::nodes::DiagnosticView) -> crate::json::JsonView {
    crate::json::JsonView::Object(
        Map::<Seq<char>, crate::json::JsonView>::empty().insert(
            "code"@,
            crate::json::JsonView::Text(d.code),
        ).insert("message"@, crate::json::JsonView::Text(d.message)).insert(
            "recovery_action"@,
            crate::json::JsonView::Text(d.recovery_action),
        ),
    )
}

/// Diagnostics as a value.
pub open spec fn diagnostics_value(ds: Seq<crate::nodes::DiagnosticView>) -> crate::json::JsonView {
    crate::json::JsonView::Array(
        ds.map_values(|d: crate::nodes::DiagnosticView| diagnostic_value(d)),
    )
}

/// How the node of a goal is shown: as the registry has it under the goal's
/// node id, or not at all where the registry cannot be read or lacks the node.
pub open spec fn identity_of_owner(nodes: RefineResult<Vec<Node>>, node_id: Option<Seq<char>>) -> Option<
    crate::nodes::IdentityView,
> {
    match nodes {
        Err(_) => None,
        Ok(known) => match crate::nodes::node_with_id(
            known@,
            crate::work_items::placement::node_or_default(node_id),
        ) {
            Some(node) => Some(crate::nodes::identity_of(node)),
            None => None,
        },
    }
}

/// A record with the name of its node, and what is wrong with it.
pub open spec fn with_node_name(
    record: crate::json::JsonView,
    node_id: Option<String>,
    identity: Option<crate::nodes::IdentityView>,
) -> crate::json::JsonView {
    match identity {
        Some(i) => {
            let named = crate::work_items::records::with_text(
                record,
                "node_display_name"@,
                i.display_name,
            );
            if i.diagnostics.len() == 0 {
                named
            } else {
                crate::json::with_field(
                    named,
                    "node_identity_diagnostics"@,
                    diagnostics_value(i.diagnostics),
                )
            }
        },
        None => crate::work_items::records::with_text(
            record,
            "node_display_name"@,
            unknown_node_name(node_id),
        ),
    }
}

/// An object with the given fields.
pub open spec fn with_fields(
    object: crate::json::JsonView,
    fields: Seq<(String, Json)>,
) -> crate::json::JsonView
    decreases fields.len(),
{
    if fields.len() == 0 {
        object
    } else {
        crate::json::with_field(
            with_fields(object, fields.drop_last()),
            fields.last().0@,
            fields.last().1@,
        )
    }
}

/// A round with its log, and with what the latest log says where it is the
/// latest round.
pub open spec fn logged_round(
    round: crate::json::JsonView,
    log: Seq<Json>,
    latest: bool,
    fields: RefineResult<Vec<(String, Json)>>,
) -> Result<crate::json::JsonView, crate::errors::ErrorView> {
    if !(round is Object) {
        Ok(round)
    } else {
        let logged = if log.len() == 0 {
            round
        } else {
            crate::json::with_field(
                round,
                "logs"@,
                crate::json::JsonView::Array(crate::json::json_views(log)),
            )
        };
        if !latest {
            Ok(logged)
        } else {
            match fields {
                Err(e) => Err(e@),
                Ok(f) => Ok(with_fields(logged, f@)),
            }
        }
    }
}

/// The first rounds with their logs, or the first failure to read one.
pub open spec fn logged_rounds(
    rounds: Seq<crate::json::JsonView>,
    logs: Seq<RefineResult<Vec<Json>>>,
    fields: RefineResult<Vec<(String, Json)>>,
    n: nat,
) -> Result<Seq<crate::json::JsonView>, crate::errors::ErrorView>
    decreases n,
{
    if n == 0 {
        Ok(Seq::empty())
    } else {
        match logged_rounds(rounds, logs, fields, (n - 1) as nat) {
            Err(e) => Err(e),
            Ok(before) => match logs[n - 1] {
                Err(e) => Err(e@),
                Ok(log) => match logged_round(rounds[n - 1], log@, n == rounds.len(), fields) {
                    Err(e) => Err(e),
                    Ok(round) => Ok(before.push(round)),
                },
            },
        }
    }
}

/// A record whose rounds carry their logs.
pub open spec fn with_logs(
    record: crate::json::JsonView,
    logs: Seq<RefineResult<Vec<Json>>>,
    fields: RefineResult<Vec<(String, Json)>>,
) -> Result<crate::json::JsonView, crate::errors::ErrorView> {
    match crate::work_items::records::rounds_of(record) {
        None => Ok(record),
        Some(rounds) => match logged_rounds(rounds, logs, fields, rounds.len()) {
            Err(e) => Err(e),
            Ok(logged) => Ok(
                crate::json::with_field(
                    record,
                    "rounds"@,
                    crate::json::JsonView::Array(logged),
                ),
            ),
        },
    }
}

/// A record as it is shown, before its logs are attached.
pub open spec fn described_record(
    record: crate::json::JsonView,
    goal: crate::model::GoalIndexProjection,
    context: DetailContext,
) -> crate::json::JsonView {
    let counted = crate::json::with_field(
        crate::json::with_field(
            crate::json::with_field(
                record,
                "reporter"@,
                crate::json::maybe_text_view(goal.reporter),
            ),
            "round_count"@,
            crate::json::JsonView::Number(crate::json::NumberView::Unsigned(goal.round_count as u64)),
        ),
        "assignee"@,
        crate::json::maybe_text_view(goal.assignee),
    );
    let named = with_node_name(
        counted,
        goal.node_id,
        identity_of_owner(context.nodes, crate::text::maybe_view(goal.node_id)),
    );
    match (goal.feature_id, context.blocking_notice) {
        (Some(_), Some(notice)) => crate::json::with_field(
            named,
            "feature_blocking_notice"@,
            notice@,
        ),
        _ => named,
    }
}

/// A goal's record as it is shown.
pub open spec fn shown_detail(
    goals: Map<Seq<char>, GoalSummaryProjection>,
    goal_id: Seq<char>,
    record: RefineResult<Json>,
    context: DetailContext,
) -> Result<crate::json::JsonView, crate::errors::ErrorView> {
    if !goals.contains_key(goal_id) {
        Err(crate::errors::goal_not_found(goal_id))
    } else {
        match record {
            Err(e) => Err(e@),
            Ok(value) => if value@ is Object {
                with_logs(
                    described_record(value@, goals[goal_id].goal, context),
                    context.logs@,
                    context.latest_fields,
                )
            } else {
                Err(crate::work_items::not_an_object("Goal"@, goal_id))
            },
        }
    }
}

/// The rounds whose logs are read.
pub open spec fn logs_cover(record: RefineResult<Json>, context: DetailContext) -> bool {
    match record {
        Ok(value) => match crate::work_items::records::rounds_of(value@) {
            Some(rounds) => context.logs@.len() >= rounds.len(),
            None => true,
        },
        Err(_) => true,
    }
}

fn diagnostics_json(diagnostics: &Vec<NodeIdentityDiagnostic>) -> (r: Json)
    ensures
        r@ == diagnostics_value(crate::nodes::diagnostic_views(diagnostics@)),
{
    let mut out: Vec<Json> = Vec::new();
    let mut i: usize = 0;
    while i < diagnostics.len()
        invariant
            i <= diagnostics.len(),
            out@.len() == i,
            forall|j: int|
                0 <= j < i ==> (#[trigger] out@[j])@ == diagnostic_value(diagnostics@[j]@),
        decreases diagnostics.len() - i,
    {
        let mut d = Json::object();
        d.set("code", Json::text(diagnostics[i].code.as_str()));
        d.set("message", Json::text(diagnostics[i].message.as_str()));
        d.set("recovery_action", Json::text(diagnostics[i].recovery_action.as_str()));
        out.push(d);
        i = i + 1;
    }
    assert(crate::json::json_views(out@) =~= crate::nodes::diagnostic_views(
        diagnostics@,
    ).map_values(|d: crate::nodes::DiagnosticView| diagnostic_value(d)));
    Json::array(out)
}

fn set_fields(object: &mut Json, fields: &Vec<(String, Json)>)
    ensures
        final(object)@ == with_fields(old(object)@, fields@),
{
    let ghost before = object@;
    let mut i: usize = 0;
    assert(fields@.take(0) =~= Seq::empty());
    while i < fields.len()
        invariant
            i <= fields.len(),
            object@ == with_fields(before, fields@.take(i as int)),
        decreases fields.len() - i,
    {
        assert(fields@.take(i as int + 1).drop_last() =~= fields@.take(i as int));
        object.set(fields[i].0.as_str(), clone_json(&fields[i].1));
        i = i + 1;
    }
    assert(fields@.take(fields.len() as int) =~= fields@);
}

fn log_round(
    round: &Json,
    log: &Vec<Json>,
    latest: bool,
    fields: &RefineResult<Vec<(String, Json)>>,
) -> (r: RefineResult<Json>)
    ensures
        crate::errors::viewed(r) == logged_round(round@, log@, latest, *fields),
{
    let mut out = clone_json(round);
    if !out.is_object() {
        return Ok(out);
    }
    if log.len() > 0 {
        out.set("logs", Json::array(clone_values(log)));
    }
    if latest {
        match fields {
            Err(e) => {
                return Err(e.clone());
            },
            Ok(f) => {
                set_fields(&mut out, f);
            },
        }
    }
    Ok(out)
}

proof fn a_failed_log_stops_the_rest(
    rounds: Seq<crate::json::JsonView>,
    logs: Seq<RefineResult<Vec<Json>>>,
    fields: RefineResult<Vec<(String, Json)>>,
    n: nat,
    m: nat,
)
    requires
        n <= m,
        logged_rounds(rounds, logs, fields, n) is Err,
    ensures
        logged_rounds(rounds, logs, fields, m) == logged_rounds(rounds, logs, fields, n),
    decreases m - n,
{
    if n < m {
        a_failed_log_stops_the_rest(rounds, logs, fields, n, (m - 1) as nat);
    }
}

/// Attaches the logs of a goal's rounds to its record.
pub fn attach_round_logs(
    record: &Json,
    logs: &Vec<RefineResult<Vec<Json>>>,
    latest_fields: &RefineResult<Vec<(String, Json)>>,
) -> (r: RefineResult<Json>)
    requires
        crate::work_items::records::rounds_of(record@) matches Some(rounds) ==> logs@.len()
            >= rounds.len(),
    ensures
        crate::errors::viewed(r) == with_logs(record@, logs@, *latest_fields),
{
    let rounds = match record.get_array("rounds") {
        None => {
            return Ok(clone_json(record));
        },
        Some(rounds) => rounds,
    };
    let ghost all = crate::json::json_views(rounds@);
    let mut out: Vec<Json> = Vec::new();
    let n: usize = rounds.len();
    let mut i: usize = 0;
    assert(crate::json::json_views(out@) =~= Seq::empty());
    while i < n
        invariant
            i <= n == rounds@.len() == all.len(),
            n <= logs@.len(),
            all == crate::json::json_views(rounds@),
            crate::work_items::records::rounds_of(record@) == Some(all),
            logged_rounds(all, logs@, *latest_fields, i as nat) == Ok::<
                _,
                crate::errors::ErrorView,
            >(crate::json::json_views(out@)),
        decreases n - i,
    {
        assert(all[i as int] == rounds@[i as int]@);
        match &logs[i] {
            Err(e) => {
                proof {
                    a_failed_log_stops_the_rest(
                        all,
                        logs@,
                        *latest_fields,
                        (i + 1) as nat,
                        n as nat,
                    );
                }
                return Err(e.clone());
            },
            Ok(log) => {
                match log_round(&rounds[i], log, i + 1 == n, latest_fields) {
                    Err(e) => {
                        proof {
                            a_failed_log_stops_the_rest(
                                all,
                                logs@,
                                *latest_fields,
                                (i + 1) as nat,
                                n as nat,
                            );
                        }
                        return Err(e);
                    },
                    Ok(round) => {
                        let ghost before = out@;
                        let ghost view = round@;
                        out.push(round);
                        assert(crate::json::json_views(out@) =~= crate::json::json_views(
                            before,
                        ).push(view));
                    },
                }
            },
        }
        i = i + 1;
    }
    let mut shown = clone_json(record);
    shown.set("rounds", Json::array(out));
    Ok(shown)
}

impl FileWorkItemService {
    /// The new goal that is asked for by name, as of a given time. `taken`
    /// tells whether a record is already stored under its id.
    pub fn create_goal_summary_at(
        &self,
        name: &str,
        id: Option<&str>,
        generated_id: &str,
        taken: bool,
        registered: &RefineResult<String>,
        now: &str,
    ) -> (r: RefineResult<NewGoal>)
        ensures
            crate::errors::viewed(r) == created_goal(
                *self,
                name@,
                crate::text::borrowed_view(id),
                generated_id@,
                taken,
                *registered,
                now@,
            ),
    {
        if is_blank(name) {
            return Err(RefineError::InvalidInput("Goal name is required".to_owned()));
        }
        let goal_id = match resolve_goal_id(id, generated_id) {
            Ok(goal_id) => goal_id,
            Err(e) => {
                return Err(e);
            },
        };
        if taken {
            return Err(id_taken_error(goal_id.as_str()));
        }
        let node_id = match self.active_node_id(registered) {
            Ok(node_id) => node_id,
            Err(e) => {
                return Err(e);
            },
        };
        let rounds: Vec<Json> = Vec::new();
        assert(crate::json::json_views(rounds@) =~= Seq::empty());
        let record = new_record(
            goal_id.as_str(),
            trim(name),
            "low",
            Json::null(),
            Json::null(),
            node_id.as_str(),
            now,
            rounds,
        );
        let path = goal_json_path(self.refine_dir.as_str(), goal_id.as_str());
        let json_path = normal_json_path(goal_id.as_str());
        Ok(NewGoal { id: goal_id, path, json_path, record })
    }

    /// The new goal that is asked for by name.
    pub fn create_goal_summary(
        &self,
        name: &str,
        id: Option<&str>,
        generated_id: &str,
        taken: bool,
        registered: &RefineResult<String>,
    ) -> (r: RefineResult<NewGoal>)
        ensures
            exists|now: Seq<char>|
                crate::errors::viewed(r) == #[trigger] created_goal(
                    *self,
                    name@,
                    crate::text::borrowed_view(id),
                    generated_id@,
                    taken,
                    *registered,
                    now,
                ),
    {
        let now = timestamp();
        self.create_goal_summary_at(name, id, generated_id, taken, registered, now.as_str())
    }

    /// What the projection holds of a goal.
    pub fn show_goal_summary(&self, snapshot: &ProjectionSnapshot, goal_id: &str) -> (r:
        RefineResult<GoalSummaryProjection>)
        ensures
            crate::errors::viewed(r) == crate::work_items::shown_goal(
                snapshot.goals@,
                goal_id@,
            ),
    {
        find_goal_summary(snapshot, goal_id)
    }

    /// What the projection holds of every goal, in the order of their ids.
    pub fn list_goal_summaries(&self, snapshot: &ProjectionSnapshot) -> (r: Vec<
        GoalSummaryProjection,
    >)
        ensures
            r@.len() == snapshot.goals.values().len(),
            forall|i: int|
                0 <= i < r@.len() ==> (#[trigger] r@[i])@ == snapshot.goals.values()[i]@,
    {
        let n: usize = snapshot.goals.len();
        let mut out: Vec<GoalSummaryProjection> = Vec::new();
        let mut i: usize = 0;
        while i < n
            invariant
                i <= n == snapshot.goals.keys().len() == snapshot.goals.values().len(),
                out@.len() == i,
                forall|j: int|
                    0 <= j < i ==> (#[trigger] out@[j])@ == snapshot.goals.values()[j]@,
            decreases n - i,
        {
            out.push(snapshot.goals.value_at(i).clone());
            i = i + 1;
        }
        out
    }

    /// A goal's record as it is shown, with the identity of the goal's node.
    pub fn show_goal_detail(
        &self,
        snapshot: &ProjectionSnapshot,
        goal_id: &str,
        record: &RefineResult<Json>,
        context: &DetailContext,
    ) -> (r: RefineResult<Json>)
        requires
            logs_cover(*record, *context),
        ensures
            crate::errors::viewed(r) == shown_detail(
                snapshot.goals@,
                goal_id@,
                *record,
                *context,
            ),
    {
        let current = match snapshot.goals.get(goal_id) {
            Some(goal) => &goal.goal,
            None => {
                return Err(goal_not_found_error(goal_id));
            },
        };
        let value = match record {
            Ok(value) => value,
            Err(e) => {
                return Err(e.clone());
            },
        };
        if !value.is_object() {
            return Err(not_an_object_error("Goal", goal_id));
        }
        let mut object = clone_json(value);
        object.set("reporter", Json::maybe_text(&current.reporter));
        object.set("round_count", Json::unsigned(current.round_count as u64));
        object.set("assignee", Json::maybe_text(&current.assignee));
        let node_id = match &current.node_id {
            Some(id) => Some(id.as_str()),
            None => None,
        };
        let identity = match &context.nodes {
            Ok(nodes) => self.node_identity(nodes, node_id),
            Err(_) => None,
        };
        match identity {
            Some(identity) => {
                object.set("node_display_name", Json::text(identity.display_name.as_str()));
                if identity.diagnostics.len() > 0 {
                    object.set(
                        "node_identity_diagnostics",
                        diagnostics_json(&identity.diagnostics),
                    );
                }
            },
            None => {
                let name = match &current.node_id {
                    Some(id) => if text_eq(id.as_str(), "default") {
                        "Default"
                    } else {
                        id.as_str()
                    },
                    None => "Default",
                };
                object.set("node_display_name", Json::text(name));
            },
        }
        if current.feature_id.is_some() {
            if let Some(notice) = &context.blocking_notice {
                object.set("feature_blocking_notice", clone_json(notice));
            }
        }
        proof {
            described_records_keep_their_rounds(value@, *current, *context);
        }
        attach_round_logs(&object, &context.logs, &context.latest_fields)
    }
}

pub(crate) fn normal_json_path(goal_id: &str) -> (r: String)
    ensures
        r@ == crate::text::replaced_all(relative_path(goal_id@), "\\"@, "/"@),
{
    proof {
        reveal_strlit("\\");
    }
    replace_text(goal_relative_path(goal_id).as_str(), "\\", "/")
}

/// Showing a record changes none of its rounds but by their logs.
pub proof fn described_records_keep_their_rounds(
    record: crate::json::JsonView,
    goal: crate::model::GoalIndexProjection,
    context: DetailContext,
)
    ensures
        crate::work_items::records::rounds_of(described_record(record, goal, context))
            == crate::work_items::records::rounds_of(record),
{
    reveal_strlit("rounds");
    reveal_strlit("reporter");
    reveal_strlit("round_count");
    reveal_strlit("assignee");
    reveal_strlit("node_display_name");
    reveal_strlit("node_identity_diagnostics");
    reveal_strlit("feature_blocking_notice");
    assert("rounds"@.len() != "reporter"@.len());
    assert("rounds"@.len() != "round_count"@.len());
    assert("rounds"@.len() != "assignee"@.len());
    assert("rounds"@.len() != "node_display_name"@.len());
    assert("rounds"@.len() != "node_identity_diagnostics"@.len());
    assert("rounds"@.len() != "feature_blocking_notice"@.len());
}

/// A new goal belongs to the active node, whatever its name and id.
pub proof fn new_goals_belong_to_the_active_node(
    service: FileWorkItemService,
    name: Seq<char>,
    id: Option<Seq<char>>,
    generated: Seq<char>,
    registered: RefineResult<String>,
    now: Seq<char>,
)
    requires
        created_goal(service, name, id, generated, false, registered, now) is Ok,
    ensures
        ({
            let goal = created_goal(service, name, id, generated, false, registered, now)->Ok_0;
            &&& crate::work_items::active_node(service, registered) is Ok
            &&& crate::json::text_field(goal.record, "node_id"@) == Some(
                crate::work_items::active_node(service, registered)->Ok_0,
            )
            &&& crate::json::text_field(goal.record, "status"@) == Some(
                crate::model::status_name(crate::model::GoalStatus::Backlog),
            )
        }),
{
    reveal_strlit("node_id");
    reveal_strlit("created");
    reveal_strlit("updated");
    reveal_strlit("notes");
    reveal_strlit("rounds");
    reveal_strlit("status");
    reveal_strlit("priority");
    reveal_strlit("reporter");
    reveal_strlit("branch_name");
    reveal_strlit("target_branch");
    reveal_strlit("base_commit");
    reveal_strlit("candidate_commit");
    reveal_strlit("feature_id");
    reveal_strlit("feature_order");
    assert("node_id"@[0] != "created"@[0]);
    assert("node_id"@[0] != "updated"@[0]);
    assert("node_id"@.len() != "notes"@.len());
    assert("node_id"@.len() != "rounds"@.len());
    assert("status"@[0] != "rounds"@[0]);
    assert("status"@.len() != "notes"@.len());
    assert("status"@.len() != "created"@.len());
    assert("status"@.len() != "updated"@.len());
    assert("status"@.len() != "node_id"@.len());
    assert("status"@.len() != "priority"@.len());
    assert("status"@.len() != "reporter"@.len());
    assert("status"@.len() != "branch_name"@.len());
    assert("status"@.len() != "target_branch"@.len());
    assert("status"@.len() != "base_commit"@.len());
    assert("status"@.len() != "candidate_commit"@.len());
    assert("status"@.len() != "feature_id"@.len());
    assert("status"@.len() != "feature_order"@.len());
}

} // verus!

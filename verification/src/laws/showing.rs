//! What is shown of a goal's record.
use vstd::prelude::*;

use crate::errors::RefineResult;
use crate::json::Json;
use crate::model::{GoalIndexProjection, GoalSummaryProjection};
use crate::work_items::queries::DetailContext;

verus! {

proof fn shown_keys_differ()
    ensures
        "reporter"@ != "round_count"@,
        "reporter"@ != "assignee"@,
        "reporter"@ != "node_display_name"@,
        "reporter"@ != "node_identity_diagnostics"@,
        "reporter"@ != "feature_blocking_notice"@,
        "reporter"@ != "rounds"@,
        "round_count"@ != "assignee"@,
        "round_count"@ != "node_display_name"@,
        "round_count"@ != "node_identity_diagnostics"@,
        "round_count"@ != "feature_blocking_notice"@,
        "round_count"@ != "rounds"@,
        "assignee"@ != "node_display_name"@,
        "assignee"@ != "node_identity_diagnostics"@,
        "assignee"@ != "feature_blocking_notice"@,
        "assignee"@ != "rounds"@,
        "node_display_name"@ != "node_identity_diagnostics"@,
        "node_display_name"@ != "feature_blocking_notice"@,
        "node_display_name"@ != "rounds"@,
        "node_identity_diagnostics"@ != "feature_blocking_notice"@,
        "node_identity_diagnostics"@ != "rounds"@,
        "feature_blocking_notice"@ != "rounds"@,
{
    reveal_strlit("reporter");
    reveal_strlit("round_count");
    reveal_strlit("assignee");
    reveal_strlit("node_display_name");
    reveal_strlit("node_identity_diagnostics");
    reveal_strlit("feature_blocking_notice");
    reveal_strlit("rounds");
    assert("reporter"@.len() == 8);
    assert("round_count"@.len() == 11);
    assert("assignee"@.len() == 8);
    assert("node_display_name"@.len() == 17);
    assert("node_identity_diagnostics"@.len() == 25);
    assert("feature_blocking_notice"@.len() == 23);
    assert("rounds"@.len() == 6);
    assert("reporter"@[0] == 'r');
    assert("assignee"@[0] == 'a');
}

proof fn diagnostic_keys_differ()
    ensures
        "code"@ != "message"@,
        "code"@ != "recovery_action"@,
        "message"@ != "recovery_action"@,
{
    reveal_strlit("code");
    reveal_strlit("message");
    reveal_strlit("recovery_action");
    assert("code"@.len() == 4);
    assert("message"@.len() == 7);
    assert("recovery_action"@.len() == 15);
}

/// The node that a goal is looked up under: its own, or the default one.
pub open spec fn is_looked_up_under(goal: GoalIndexProjection, id: Seq<char>) -> bool {
    if goal.node_id is Some {
        (goal.node_id->0)@ == id
    } else {
        id == "default"@
    }
}

/// An optional text as a value.
pub open spec fn is_value_of(text: Option<String>, value: crate::json::JsonView) -> bool {
    if text is Some {
        value == crate::json::JsonView::Text((text->0)@)
    } else {
        value is Null
    }
}

/// A record is shown with what the projection knows of the goal: its reporter,
/// its assignee and how many rounds it has. Nothing else of the record changes
/// but how its node is named, what is wrong with that name, and the notice that
/// the goal blocks its feature.
pub proof fn records_are_shown_with_the_projection(
    record: crate::json::JsonView,
    goal: GoalIndexProjection,
    context: DetailContext,
    key: Seq<char>,
)
    requires
        record is Object,
    ensures
        ({
            let shown = crate::work_items::queries::described_record(record, goal, context);
            &&& shown is Object
            &&& crate::laws::values::has_key(shown, "reporter"@) && is_value_of(
                goal.reporter,
                shown->Object_0["reporter"@],
            )
            &&& crate::laws::values::has_key(shown, "assignee"@) && is_value_of(
                goal.assignee,
                shown->Object_0["assignee"@],
            )
            &&& crate::laws::values::counts(shown, "round_count"@, goal.round_count as u64)
            &&& key != "reporter"@ && key != "assignee"@ && key != "round_count"@ && key
                != "node_display_name"@ && key != "node_identity_diagnostics"@ && key
                != "feature_blocking_notice"@ ==> crate::laws::values::agree(record, shown, key)
            &&& goal.feature_id is Some && context.blocking_notice is Some
                ==> crate::laws::values::holds(
                shown,
                "feature_blocking_notice"@,
                (context.blocking_notice->0)@,
            )
            &&& goal.feature_id is None || context.blocking_notice is None
                ==> crate::laws::values::agree(record, shown, "feature_blocking_notice"@)
        }),
{
    shown_keys_differ();
}

/// The node of a goal is shown as the registry has it; where the registry cannot
/// be read or lacks it, by its id, and the default one as such.
pub proof fn nodes_are_named_as_registered(
    record: crate::json::JsonView,
    goal: GoalIndexProjection,
    context: DetailContext,
    id: Seq<char>,
    at: int,
)
    requires
        record is Object,
        is_looked_up_under(goal, id),
    ensures
        ({
            let shown = crate::work_items::queries::described_record(record, goal, context);
            let nodes = (context.nodes->Ok_0)@;
            let named = context.nodes is Ok && crate::laws::identifying::first_with_id(
                nodes,
                id,
                at,
            );
            let lost = context.nodes is Err || forall|i: int|
                0 <= i < nodes.len() ==> (#[trigger] nodes[i]).id@ != id;
            &&& named && !crate::laws::identifying::unconfirmed_label(nodes[at])
                ==> crate::laws::values::says(
                shown,
                "node_display_name"@,
                nodes[at].display_name@,
            ) && crate::laws::values::agree(record, shown, "node_identity_diagnostics"@)
            &&& named && crate::laws::identifying::unconfirmed_label(nodes[at])
                ==> crate::laws::values::says(shown, "node_display_name"@, "Default"@)
                && crate::laws::values::has_list(shown, "node_identity_diagnostics"@)
                && crate::laws::values::list_of(shown, "node_identity_diagnostics"@).len() == 1
            &&& lost && id == "default"@ ==> crate::laws::values::says(
                shown,
                "node_display_name"@,
                "Default"@,
            )
            &&& lost && id != "default"@ ==> crate::laws::values::says(
                shown,
                "node_display_name"@,
                id,
            )
            &&& lost ==> crate::laws::values::agree(record, shown, "node_identity_diagnostics"@)
        }),
{
    shown_keys_differ();
    if context.nodes is Ok {
        let nodes = (context.nodes->Ok_0)@;
        crate::laws::identifying::the_first_node_with_an_id_is_found(nodes, id);
        if crate::laws::identifying::first_with_id(nodes, id, at) {
            crate::laws::identifying::nodes_are_shown_under_their_names(nodes[at]);
        } else if forall|i: int| 0 <= i < nodes.len() ==> (#[trigger] nodes[i]).id@ != id {
            if crate::nodes::node_with_id(nodes, id) is Some {
                let i = choose|i: int| 0 <= i < nodes.len() && (#[trigger] nodes[i]).id@ == id;
                assert(false);
            }
        }
    }
}

/// What is wrong with a node is shown by its code, its message and what to do.
pub proof fn diagnostics_are_shown_in_full(ds: Seq<crate::nodes::DiagnosticView>, i: int)
    requires
        0 <= i < ds.len(),
    ensures
        ({
            let shown = crate::work_items::queries::diagnostics_value(ds);
            &&& shown is Array && shown->Array_0.len() == ds.len()
            &&& crate::laws::values::says(shown->Array_0[i], "code"@, ds[i].code)
            &&& crate::laws::values::says(shown->Array_0[i], "message"@, ds[i].message)
            &&& crate::laws::values::says(
                shown->Array_0[i],
                "recovery_action"@,
                ds[i].recovery_action,
            )
        }),
{
    diagnostic_keys_differ();
}

/// A field is set to the last value that is given for it.
pub open spec fn is_set_last(fields: Seq<(String, Json)>, at: int) -> bool {
    0 <= at < fields.len() && forall|i: int|
        at < i < fields.len() ==> (#[trigger] fields[i]).0@ != fields[at].0@
}

/// A field is given no value.
pub open spec fn is_not_set(fields: Seq<(String, Json)>, key: Seq<char>) -> bool {
    forall|i: int| 0 <= i < fields.len() ==> (#[trigger] fields[i]).0@ != key
}

/// Fields are set to what is given for them, the last one counts, and all others
/// stay as they were.
pub proof fn given_fields_are_set(
    object: crate::json::JsonView,
    fields: Seq<(String, Json)>,
    key: Seq<char>,
)
    requires
        object is Object,
    ensures
        ({
            let after = crate::work_items::queries::with_fields(object, fields);
            &&& after is Object
            &&& is_not_set(fields, key) ==> crate::laws::values::agree(object, after, key)
            &&& forall|at: int| #[trigger]
                is_set_last(fields, at) ==> crate::laws::values::holds(
                    after,
                    fields[at].0@,
                    fields[at].1@,
                )
        }),
    decreases fields.len(),
{
    if fields.len() > 0 {
        let rest = fields.drop_last();
        let last: int = fields.len() - 1;
        given_fields_are_set(object, rest, key);
        assert(fields.last() == fields[last]);
        if is_not_set(fields, key) {
            assert(fields[last].0@ != key);
            assert forall|i: int| 0 <= i < rest.len() implies (#[trigger] rest[i]).0@ != key by {
                assert(fields[i] == rest[i]);
            }
        }
        let after = crate::work_items::queries::with_fields(object, fields);
        assert forall|at: int| #[trigger] is_set_last(
            fields,
            at,
        ) implies crate::laws::values::holds(after, fields[at].0@, fields[at].1@) by {
            if at < last {
                assert(fields[last].0@ != fields[at].0@);
                assert forall|i: int| at < i < rest.len() implies (#[trigger] rest[i]).0@
                    != rest[at].0@ by {
                    assert(fields[i] == rest[i]);
                }
                assert(is_set_last(rest, at));
            }
        }
    }
}

/// A round is shown with its log where there is one; what the latest log says is
/// put on the latest round alone.
pub proof fn rounds_are_shown_with_their_logs(
    round: crate::json::JsonView,
    log: Seq<Json>,
    latest: bool,
    fields: RefineResult<Vec<(String, Json)>>,
    key: Seq<char>,
    at: int,
)
    ensures
        ({
            let shown = crate::work_items::queries::logged_round(round, log, latest, fields);
            let told = latest && fields is Ok;
            &&& !(round is Object) ==> shown == Ok::<
                crate::json::JsonView,
                crate::errors::ErrorView,
            >(round)
            &&& round is Object && latest && fields is Err ==> shown is Err && shown->Err_0
                == (fields->Err_0)@
            &&& round is Object && (!latest || fields is Ok) ==> shown is Ok
                && shown->Ok_0 is Object
            &&& round is Object && shown is Ok && log.len() > 0 && (!latest || is_not_set(
                (fields->Ok_0)@,
                "logs"@,
            )) ==> crate::laws::values::has_list(shown->Ok_0, "logs"@)
                && crate::laws::values::list_of(shown->Ok_0, "logs"@)
                == crate::json::json_views(log)
            &&& round is Object && shown is Ok && (key != "logs"@ || log.len() == 0) && (!latest
                || is_not_set((fields->Ok_0)@, key)) ==> crate::laws::values::agree(
                round,
                shown->Ok_0,
                key,
            )
            &&& round is Object && told && is_set_last((fields->Ok_0)@, at)
                ==> crate::laws::values::holds(
                shown->Ok_0,
                (fields->Ok_0)@[at].0@,
                (fields->Ok_0)@[at].1@,
            )
        }),
{
    if round is Object && latest && fields is Ok {
        let logged = if log.len() == 0 {
            round
        } else {
            crate::json::with_field(
                round,
                "logs"@,
                crate::json::JsonView::Array(crate::json::json_views(log)),
            )
        };
        given_fields_are_set(logged, (fields->Ok_0)@, key);
        given_fields_are_set(logged, (fields->Ok_0)@, "logs"@);
    }
}

proof fn rounds_are_logged_one_by_one(
    rounds: Seq<crate::json::JsonView>,
    logs: Seq<RefineResult<Vec<Json>>>,
    fields: RefineResult<Vec<(String, Json)>>,
    n: nat,
)
    requires
        n <= rounds.len() <= logs.len(),
    ensures
        ({
            let shown = crate::work_items::queries::logged_rounds(rounds, logs, fields, n);
            &&& shown is Ok == forall|i: int|
                0 <= i < n ==> (#[trigger] logs[i]) is Ok && (rounds[i] is Object && i
                    == rounds.len() - 1 ==> fields is Ok)
            &&& shown is Ok ==> shown->Ok_0.len() == n && forall|i: int|
                #![trigger shown->Ok_0[i]]
                0 <= i < n ==> Ok::<crate::json::JsonView, crate::errors::ErrorView>(shown->Ok_0[i])
                    == crate::work_items::queries::logged_round(
                    rounds[i],
                    (logs[i]->Ok_0)@,
                    i == rounds.len() - 1,
                    fields,
                )
            &&& shown is Err ==> (exists|i: int|
                0 <= i < n && (#[trigger] logs[i]) is Err && shown->Err_0 == (logs[i]->Err_0)@
                    && forall|j: int| 0 <= j < i ==> (#[trigger] logs[j]) is Ok) || fields is Err
                && shown->Err_0 == (fields->Err_0)@
        }),
    decreases n,
{
    if n > 0 {
        let m = (n - 1) as nat;
        rounds_are_logged_one_by_one(rounds, logs, fields, m);
        let before = crate::work_items::queries::logged_rounds(rounds, logs, fields, m);
        let shown = crate::work_items::queries::logged_rounds(rounds, logs, fields, n);
        let last: int = n - 1;
        assert(logs[last] is Ok || logs[last] is Err);
        if before is Ok && logs[last] is Err {
            assert forall|j: int| 0 <= j < last implies (#[trigger] logs[j]) is Ok by {}
            assert(shown->Err_0 == (logs[last]->Err_0)@);
        }
        if shown is Err && (forall|i: int|
            0 <= i < n ==> (#[trigger] logs[i]) is Ok && (rounds[i] is Object && i == rounds.len()
                - 1 ==> fields is Ok)) {
            assert(before is Ok);
            assert(logs[last] is Ok);
        }
    }
}

/// A goal is shown where the projection holds it, its record could be read and is
/// an object, and its logs could be read; its rounds are then shown with their
/// logs in order, and everything else as the record has it.
pub proof fn goals_are_shown_with_their_logs(
    goals: Map<Seq<char>, GoalSummaryProjection>,
    goal_id: Seq<char>,
    record: RefineResult<Json>,
    context: DetailContext,
    key: Seq<char>,
)
    requires
        record is Ok && crate::laws::values::has_list((record->Ok_0)@, "rounds"@)
            ==> crate::laws::values::list_of((record->Ok_0)@, "rounds"@).len()
            <= context.logs@.len(),
    ensures
        ({
            let shown = crate::work_items::queries::shown_detail(goals, goal_id, record, context);
            let value = (record->Ok_0)@;
            let rounds = crate::laws::values::list_of(value, "rounds"@);
            let logs = context.logs@;
            let fields = context.latest_fields;
            let listed = crate::laws::values::has_list(value, "rounds"@);
            let readable = forall|i: int|
                0 <= i < rounds.len() ==> (#[trigger] logs[i]) is Ok && (rounds[i] is Object && i
                    == rounds.len() - 1 ==> fields is Ok);
            let described = crate::work_items::queries::described_record(
                value,
                goals[goal_id].goal,
                context,
            );
            &&& !goals.contains_key(goal_id) ==> shown is Err && shown->Err_0 is NotFound
            &&& goals.contains_key(goal_id) && record is Err ==> shown is Err && shown->Err_0
                == (record->Err_0)@
            &&& goals.contains_key(goal_id) && record is Ok && !(value is Object) ==> shown is Err
            &&& goals.contains_key(goal_id) && record is Ok && value is Object ==> shown is Ok == (
            !listed || readable)
            &&& shown is Ok && key != "rounds"@ ==> crate::laws::values::agree(
                described,
                shown->Ok_0,
                key,
            )
            &&& shown is Ok && !listed ==> crate::laws::values::agree(
                value,
                shown->Ok_0,
                "rounds"@,
            )
            &&& shown is Ok && listed ==> crate::laws::values::has_list(shown->Ok_0, "rounds"@)
                && crate::laws::values::list_of(shown->Ok_0, "rounds"@).len() == rounds.len()
                && forall|i: int|
                #![trigger crate::laws::values::list_of(shown->Ok_0, "rounds"@)[i]]
                0 <= i < rounds.len() ==> Ok::<crate::json::JsonView, crate::errors::ErrorView>(
                    crate::laws::values::list_of(shown->Ok_0, "rounds"@)[i],
                ) == crate::work_items::queries::logged_round(
                    rounds[i],
                    (logs[i]->Ok_0)@,
                    i == rounds.len() - 1,
                    fields,
                )
        }),
{
    if record is Ok && (record->Ok_0)@ is Object {
        let value = (record->Ok_0)@;
        records_are_shown_with_the_projection(value, goals[goal_id].goal, context, "rounds"@);
        records_are_shown_with_the_projection(value, goals[goal_id].goal, context, key);
        shown_keys_differ();
        if crate::laws::values::has_list(value, "rounds"@) {
            let rounds = crate::laws::values::list_of(value, "rounds"@);
            rounds_are_logged_one_by_one(
                rounds,
                context.logs@,
                context.latest_fields,
                rounds.len(),
            );
        }
    }
}

} // verus!

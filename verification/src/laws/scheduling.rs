//! Which goals hold the scheduler's attention.
use vstd::prelude::*;

use crate::model::{GoalIndexProjection, GoalStatus};
use crate::project_state::active_goals::{ActiveGoalRecord, IndexLine};

verus! {

/// A goal in this status can still be moved on by the scheduler.
pub open spec fn in_play(status: GoalStatus) -> bool {
    match status {
        GoalStatus::Backlog => true,
        GoalStatus::Todo => true,
        GoalStatus::InProgress => true,
        GoalStatus::Qa => true,
        GoalStatus::ReadyMerge => true,
        GoalStatus::Build => true,
        GoalStatus::Failed => true,
        GoalStatus::Review => false,
        GoalStatus::Done => false,
        GoalStatus::Cancelled => false,
    }
}

/// The last of a list's goals that has this id and is in play.
pub open spec fn last_in_play(
    projected: Seq<GoalIndexProjection>,
    id: Seq<char>,
    at: int,
) -> bool {
    &&& 0 <= at < projected.len()
    &&& projected[at].id@ == id
    &&& in_play(projected[at].status)
    &&& forall|later: int|
        at < later < projected.len() && (#[trigger] projected[later]).id@ == id ==> !in_play(
            projected[later].status,
        )
}

/// A rebuilt index holds a goal under an id exactly where some goal with that
/// id is backlog, todo, in progress, in quality assurance, ready to merge,
/// being built or failed; of several the last stands.
pub proof fn rebuilt_indexes_hold_what_is_in_play(
    projected: Seq<GoalIndexProjection>,
    id: Seq<char>,
)
    ensures
        crate::project_state::active_goals::live_goals(projected).contains_key(id) == exists|at: int|
            0 <= at < projected.len() && (#[trigger] projected[at]).id@ == id && in_play(
                projected[at].status,
            ),
        forall|at: int| #[trigger]
            last_in_play(projected, id, at)
                ==> crate::project_state::active_goals::live_goals(projected)[id] == projected[at],
    decreases projected.len(),
{
    if projected.len() > 0 {
        let rest = projected.drop_last();
        let last: int = projected.len() - 1;
        rebuilt_indexes_hold_what_is_in_play(rest, id);
        assert(projected[last] == projected.last());
        if exists|at: int|
            0 <= at < rest.len() && (#[trigger] rest[at]).id@ == id && in_play(rest[at].status) {
            let at = choose|at: int|
                0 <= at < rest.len() && (#[trigger] rest[at]).id@ == id && in_play(rest[at].status);
            assert(projected[at] == rest[at]);
        }
        if exists|at: int|
            0 <= at < projected.len() && (#[trigger] projected[at]).id@ == id && in_play(
                projected[at].status,
            ) {
            let at = choose|at: int|
                0 <= at < projected.len() && (#[trigger] projected[at]).id@ == id && in_play(
                    projected[at].status,
                );
            if at < last {
                assert(rest[at] == projected[at]);
            }
        }
        assert forall|at: int| #[trigger]
            last_in_play(projected, id, at) implies crate::project_state::active_goals::live_goals(
            projected,
        )[id] == projected[at] by {
            if at < last {
                assert forall|later: int|
                    at < later < rest.len() && (#[trigger] rest[later]).id@ == id implies !in_play(
                    rest[later].status,
                ) by {
                    assert(rest[later] == projected[later]);
                }
                assert(rest[at] == projected[at]);
                assert(last_in_play(rest, id, at));
            }
        }
    }
}

/// Where every id occurs once, a rebuilt index holds a goal exactly where it is
/// in play, and holds it as it is.
pub proof fn a_goal_is_indexed_exactly_while_in_play(
    projected: Seq<GoalIndexProjection>,
    at: int,
)
    requires
        0 <= at < projected.len(),
        forall|i: int, j: int|
            0 <= i < j < projected.len() ==> (#[trigger] projected[i]).id@ != (
            #[trigger] projected[j]).id@,
    ensures
        ({
            let index = crate::project_state::active_goals::live_goals(projected);
            let goal = projected[at];
            &&& goal.status is Backlog ==> index.contains_key(goal.id@) && index[goal.id@] == goal
            &&& goal.status is Todo ==> index.contains_key(goal.id@) && index[goal.id@] == goal
            &&& goal.status is InProgress ==> index.contains_key(goal.id@) && index[goal.id@]
                == goal
            &&& goal.status is Qa ==> index.contains_key(goal.id@) && index[goal.id@] == goal
            &&& goal.status is ReadyMerge ==> index.contains_key(goal.id@) && index[goal.id@]
                == goal
            &&& goal.status is Build ==> index.contains_key(goal.id@) && index[goal.id@] == goal
            &&& goal.status is Failed ==> index.contains_key(goal.id@) && index[goal.id@] == goal
            &&& goal.status is Review ==> !index.contains_key(goal.id@)
            &&& goal.status is Done ==> !index.contains_key(goal.id@)
            &&& goal.status is Cancelled ==> !index.contains_key(goal.id@)
        }),
{
    rebuilt_indexes_hold_what_is_in_play(projected, projected[at].id@);
    if in_play(projected[at].status) {
        assert(last_in_play(projected, projected[at].id@, at));
    } else {
        assert forall|i: int|
            0 <= i < projected.len() && (#[trigger] projected[i]).id@
                == projected[at].id@ implies !in_play(projected[i].status) by {
            assert(i == at);
        }
    }
}

/// The record of a goal says that it is live, with the goal, exactly while the
/// goal is in play, and that it is removed otherwise; its id is the goal's.
pub proof fn a_goal_is_recorded_as_live_exactly_while_in_play(goal: GoalIndexProjection)
    ensures
        ({
            let record = crate::project_state::active_goals::transition_record(goal);
            let live = record.goal == Some(goal) && !record.removed;
            let gone = record.goal is None && record.removed;
            &&& record.id@ == goal.id@
            &&& goal.status is Backlog ==> live
            &&& goal.status is Todo ==> live
            &&& goal.status is InProgress ==> live
            &&& goal.status is Qa ==> live
            &&& goal.status is ReadyMerge ==> live
            &&& goal.status is Build ==> live
            &&& goal.status is Failed ==> live
            &&& goal.status is Review ==> gone
            &&& goal.status is Done ==> gone
            &&& goal.status is Cancelled ==> gone
        }),
{
}

/// The last record of a log about an id.
pub open spec fn last_about(records: Seq<ActiveGoalRecord>, id: Seq<char>, at: int) -> bool {
    &&& 0 <= at < records.len()
    &&& records[at].id@ == id
    &&& forall|later: int| at < later < records.len() ==> (#[trigger] records[later]).id@ != id
}

/// A log holds an id live exactly where the last record about it carries a goal
/// and is no removal, and then it holds that goal.
pub proof fn the_last_record_decides(records: Seq<ActiveGoalRecord>, id: Seq<char>)
    ensures
        forall|at: int| #[trigger]
            last_about(records, id, at) ==> {
                let live = crate::project_state::active_goals::replayed(records);
                &&& live.contains_key(id) == (records[at].goal is Some && !records[at].removed)
                &&& live.contains_key(id) ==> Some(live[id]) == records[at].goal
            },
        (forall|at: int| 0 <= at < records.len() ==> (#[trigger] records[at]).id@ != id)
            ==> !crate::project_state::active_goals::replayed(records).contains_key(id),
    decreases records.len(),
{
    if records.len() > 0 {
        let rest = records.drop_last();
        the_last_record_decides(rest, id);
        assert forall|at: int| #[trigger] last_about(records, id, at) implies {
            let live = crate::project_state::active_goals::replayed(records);
            &&& live.contains_key(id) == (records[at].goal is Some && !records[at].removed)
            &&& live.contains_key(id) ==> Some(live[id]) == records[at].goal
        } by {
            if at < records.len() - 1 {
                assert forall|later: int|
                    at < later < rest.len() implies (#[trigger] rest[later]).id@ != id by {
                    assert(rest[later] == records[later]);
                }
                assert(last_about(rest, id, at));
                assert(records[records.len() - 1].id@ != id);
            }
        }
        if forall|at: int| 0 <= at < records.len() ==> (#[trigger] records[at]).id@ != id {
            assert(records[records.len() - 1].id@ != id);
            assert forall|at: int| 0 <= at < rest.len() implies (#[trigger] rest[at]).id@ != id by {
                assert(rest[at] == records[at]);
            }
        }
    }
}

/// A log is rewritten exactly where it has more than 512 lines and more than
/// three for each live goal.
pub proof fn logs_are_rewritten_past_their_bound(lines: nat, goals: nat)
    ensures
        crate::project_state::active_goals::worth_compacting(lines, goals) == (lines > 512 && lines
            > 3 * goals),
{
}

/// A log can be read exactly where every line holds a record or nothing but
/// white space.
pub proof fn logs_are_read_line_by_line(lines: Seq<IndexLine>)
    ensures
        crate::project_state::active_goals::readable(lines) == forall|i: int|
            0 <= i < lines.len() ==> (#[trigger] lines[i]).record is Some
                || crate::laws::texts::only_spaces(lines[i].text@),
{
    assert forall|i: int| 0 <= i < lines.len() implies crate::text::blank(
        (#[trigger] lines[i]).text@,
    ) == crate::laws::texts::only_spaces(lines[i].text@) by {
        crate::laws::texts::blank_texts_hold_only_white_space(lines[i].text@);
    }
    if crate::project_state::active_goals::readable(lines) {
        assert forall|i: int| 0 <= i < lines.len() implies (#[trigger] lines[i]).record is Some
            || crate::laws::texts::only_spaces(lines[i].text@) by {
            assert(crate::project_state::active_goals::holds_something(lines[i]) ==> lines[i].record
                is Some);
        }
    } else {
        let i = choose|i: int|
            0 <= i < lines.len() && crate::project_state::active_goals::holds_something(
                #[trigger] lines[i],
            ) && !(lines[i].record is Some);
        assert(!(lines[i].record is Some || crate::laws::texts::only_spaces(lines[i].text@)));
    }
}

/// A line that holds a record adds it to what is read, and a line of white space
/// adds nothing.
pub proof fn lines_add_their_record(lines: Seq<IndexLine>, line: IndexLine)
    ensures
        line.record is Some ==> crate::project_state::active_goals::records_of(lines.push(line))
            == crate::project_state::active_goals::records_of(lines).push(line.record->0),
        line.record is None && crate::laws::texts::only_spaces(line.text@)
            ==> crate::project_state::active_goals::records_of(lines.push(line))
            == crate::project_state::active_goals::records_of(lines),
{
    reveal(Seq::filter);
    crate::laws::texts::blank_texts_hold_only_white_space(line.text@);
    assert(lines.push(line).drop_last() =~= lines);
    if line.record is Some {
        assert(crate::project_state::active_goals::records_of(lines.push(line))
            =~= crate::project_state::active_goals::records_of(lines).push(line.record->0));
    }
}

/// Every goal of an index stands under its own id.
pub proof fn goals_stand_under_their_ids(
    goals: Map<Seq<char>, GoalIndexProjection>,
    key: Seq<char>,
)
    requires
        crate::project_state::active_goals::keyed_by_id(goals),
        goals.contains_key(key),
    ensures
        goals[key].id@ == key,
{
}

} // verus!

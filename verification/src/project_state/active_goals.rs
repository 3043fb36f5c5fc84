//! The goals that still hold the scheduler's attention.
use vstd::prelude::*;

use crate::model::{GoalIndexProjection, GoalStatus};
use crate::paths::join_path;
use crate::text::is_blank;
use crate::text_map::TextMap;

verus! {

/// A log is rewritten once it carries more than this multiple of the records
/// that it describes.
pub const COMPACTION_LINE_RATIO: usize = 3;

/// A log of at most this many lines is replayed as it is.
pub const COMPACTION_MINIMUM_LINES: usize = 512;

/// One appended decision about a goal.
#[derive(Debug)]
pub struct ActiveGoalRecord {
    pub id: String,
    pub goal: Option<GoalIndexProjection>,
    pub removed: bool,
}

/// A line of the log with the record it was read as, if it could be read.
#[derive(Debug)]
pub struct IndexLine {
    pub text: String,
    pub record: Option<ActiveGoalRecord>,
}

/// The goals that still hold the scheduler's attention, by id.
///
/// A goal in review, done or cancelled influences no scheduling decision, so
/// the index is bounded by work in flight rather than by all work ever done.
pub struct ActiveGoalIndex {
    goals: TextMap<GoalIndexProjection>,
}

/// An index that was read, and whether its log is worth rewriting.
pub struct LoadedIndex {
    pub index: Option<ActiveGoalIndex>,
    pub compact: bool,
}

/// Whether a goal in a status still affects scheduling.
pub open spec fn holds_attention(status: GoalStatus) -> bool {
    status != GoalStatus::Review && status != GoalStatus::Done && status != GoalStatus::Cancelled
}

/// What one record makes of the live goals.
pub open spec fn after_record(goals: Map<Seq<char>, GoalIndexProjection>, record: ActiveGoalRecord) -> Map<
    Seq<char>,
    GoalIndexProjection,
> {
    match record.goal {
        Some(goal) => if record.removed {
            goals.remove(record.id@)
        } else {
            goals.insert(record.id@, goal)
        },
        None => goals.remove(record.id@),
    }
}

/// What a log of records says.
pub open spec fn replayed(records: Seq<ActiveGoalRecord>) -> Map<Seq<char>, GoalIndexProjection>
    decreases records.len(),
{
    if records.len() == 0 {
        Map::empty()
    } else {
        after_record(replayed(records.drop_last()), records.last())
    }
}

/// A line holds something: a record, or a text that is none.
pub open spec fn holds_something(line: IndexLine) -> bool {
    line.record is Some || !crate::text::blank(line.text@)
}

/// The lines that hold something.
pub open spec fn written_lines(lines: Seq<IndexLine>) -> Seq<IndexLine> {
    lines.filter(|l: IndexLine| holds_something(l))
}

/// Whether every line that holds something could be read.
pub open spec fn readable(lines: Seq<IndexLine>) -> bool {
    forall|i: int|
        0 <= i < lines.len() && holds_something(#[trigger] lines[i]) ==> lines[i].record is Some
}

/// The records of the lines that hold something.
pub open spec fn records_of(lines: Seq<IndexLine>) -> Seq<ActiveGoalRecord> {
    written_lines(lines).map_values(|l: IndexLine| l.record->0)
}

/// Whether a log of this many lines is worth rewriting for this many goals.
pub open spec fn worth_compacting(lines: nat, goals: nat) -> bool {
    lines > COMPACTION_MINIMUM_LINES && lines > goals * COMPACTION_LINE_RATIO
}

/// The live goals among projected ones; of several with one id the last
/// stands.
pub open spec fn live_goals(projected: Seq<GoalIndexProjection>) -> Map<
    Seq<char>,
    GoalIndexProjection,
>
    decreases projected.len(),
{
    if projected.len() == 0 {
        Map::empty()
    } else if holds_attention(projected.last().status) {
        live_goals(projected.drop_last()).insert(projected.last().id@, projected.last())
    } else {
        live_goals(projected.drop_last())
    }
}

/// Every goal stands under its own id.
pub open spec fn keyed_by_id(goals: Map<Seq<char>, GoalIndexProjection>) -> bool {
    forall|k: Seq<char>| #[trigger] goals.contains_key(k) ==> goals[k].id@ == k
}

impl View for ActiveGoalIndex {
    type V = Map<Seq<char>, GoalIndexProjection>;

    closed spec fn view(&self) -> Map<Seq<char>, GoalIndexProjection> {
        self.goals@
    }
}

impl ActiveGoalIndex {
    /// The live goals in order of their keys.
    pub closed spec fn listed(&self) -> Seq<GoalIndexProjection> {
        self.goals.values()
    }

    /// Where the index of a project is stored.
    pub fn path(refine_dir: &str) -> (r: String)
        ensures
            r@ == crate::paths::joined(refine_dir@, "runtime/active-goals.jsonl"@),
    {
        join_path(refine_dir, "runtime/active-goals.jsonl")
    }

    /// Tells whether a goal in a status still affects scheduling.
    pub fn holds_scheduler_attention(status: &GoalStatus) -> (r: bool)
        ensures
            r == holds_attention(*status),
    {
        match status {
            GoalStatus::Review => false,
            GoalStatus::Done => false,
            GoalStatus::Cancelled => false,
            _ => true,
        }
    }

    /// The live goals by id, in order.
    pub fn goals(&self) -> (r: &TextMap<GoalIndexProjection>)
        ensures
            r@ == self@,
            r.values() == self.listed(),
    {
        &self.goals
    }

    /// The number of live goals.
    pub fn len(&self) -> (r: usize)
        ensures
            r == self@.dom().len(),
    {
        self.goals.len()
    }

    /// Tells whether no goal is live.
    pub fn is_empty(&self) -> (r: bool)
        ensures
            r == (self@.dom().len() == 0),
    {
        self.goals.len() == 0
    }

    /// Replays a log. A line that cannot be read makes the whole log
    /// unusable: a partial replay would silently drop live work.
    pub fn load(lines: Vec<IndexLine>) -> (r: LoadedIndex)
        ensures
            match r.index {
                Some(index) => readable(lines@) && index@ == replayed(records_of(lines@))
                    && r.compact == worth_compacting(
                    written_lines(lines@).len(),
                    index@.dom().len(),
                ),
                None => !readable(lines@) && !r.compact,
            },
    {
        let mut goals: TextMap<GoalIndexProjection> = TextMap::new();
        let mut count: usize = 0;
        let mut i: usize = 0;
        let ghost keeps = |l: IndexLine| holds_something(l);
        assert(lines@.take(0) =~= Seq::<IndexLine>::empty());
        assert(records_of(lines@.take(0)) =~= Seq::<ActiveGoalRecord>::empty()) by {
            reveal(Seq::filter);
        }
        assert(written_lines(lines@.take(0)).len() == 0) by {
            reveal(Seq::filter);
        }
        while i < lines.len()
            invariant
                i <= lines.len(),
                keeps == (|l: IndexLine| holds_something(l)),
                readable(lines@.take(i as int)),
                count == written_lines(lines@.take(i as int)).len(),
                count <= i,
                goals@ == replayed(records_of(lines@.take(i as int))),
            decreases lines.len() - i,
        {
            let ghost short = lines@.take(i as int);
            let ghost long = lines@.take(i as int + 1);
            proof {
                assert(long.drop_last() =~= short);
                assert(long.last() == lines@[i as int]);
                assert(written_lines(long) == if keeps(lines@[i as int]) {
                    written_lines(short).push(lines@[i as int])
                } else {
                    written_lines(short)
                }) by {
                    reveal(Seq::filter);
                }
            }
            if lines[i].record.is_none() && is_blank(lines[i].text.as_str()) {
                assert forall|j: int|
                    0 <= j < long.len() && holds_something(
                        #[trigger] long[j],
                    ) implies long[j].record is Some by {
                    assert(long[j] == lines@[j]);
                    if j < i {
                        assert(short[j] == lines@[j]);
                    }
                }
                i = i + 1;
                continue;
            }
            let line = &lines[i];
            match &line.record {
                None => {
                    assert(!readable(lines@));
                    return LoadedIndex { index: None, compact: false };
                },
                Some(record) => {
                    proof {
                        assert forall|j: int|
                            0 <= j < long.len() && holds_something(
                                #[trigger] long[j],
                            ) implies long[j].record is Some by {
                            assert(long[j] == lines@[j]);
                            if j < i {
                                assert(short[j] == lines@[j]);
                            }
                        }
                        assert(records_of(long) =~= records_of(short).push(*record));
                        assert(records_of(long).drop_last() =~= records_of(short));
                    }
                    match &record.goal {
                        Some(goal) if !record.removed => {
                            goals.insert(record.id.clone(), goal.clone());
                        },
                        _ => {
                            let _ = goals.remove(record.id.as_str());
                        },
                    }
                },
            }
            count = count + 1;
            i = i + 1;
        }
        assert(lines@.take(lines.len() as int) =~= lines@);
        let n: usize = goals.len();
        let compact = count > COMPACTION_MINIMUM_LINES && count as u128 > n as u128
            * COMPACTION_LINE_RATIO as u128;
        LoadedIndex { index: Some(ActiveGoalIndex { goals }), compact }
    }

    /// The index of projected goals: those that still matter.
    pub fn rebuild(projected: &Vec<GoalIndexProjection>) -> (r: ActiveGoalIndex)
        ensures
            r@ == live_goals(projected@),
    {
        let mut goals: TextMap<GoalIndexProjection> = TextMap::new();
        let mut i: usize = 0;
        assert(projected@.take(0) =~= Seq::<GoalIndexProjection>::empty());
        while i < projected.len()
            invariant
                i <= projected.len(),
                goals@ == live_goals(projected@.take(i as int)),
            decreases projected.len() - i,
        {
            assert(projected@.take(i as int + 1).drop_last() =~= projected@.take(i as int));
            if ActiveGoalIndex::holds_scheduler_attention(&projected[i].status) {
                goals.insert(projected[i].id.clone(), projected[i].clone());
            }
            i = i + 1;
        }
        assert(projected@.take(projected.len() as int) =~= projected@);
        ActiveGoalIndex { goals }
    }

    /// The index that was read, or one rebuilt from the projected goals; a
    /// rebuilt one is to be persisted.
    pub fn load_or_rebuild(
        loaded: Option<ActiveGoalIndex>,
        projected: &Vec<GoalIndexProjection>,
    ) -> (r: (ActiveGoalIndex, bool))
        ensures
            match loaded {
                Some(index) => r.0 == index && !r.1,
                None => r.0@ == live_goals(projected@) && r.1,
            },
    {
        match loaded {
            Some(index) => (index, false),
            None => (ActiveGoalIndex::rebuild(projected), true),
        }
    }

    /// The index to persist where none is stored yet; nothing otherwise.
    pub fn ensure_built(stored: bool, projected: &Vec<GoalIndexProjection>) -> (r: Option<
        ActiveGoalIndex,
    >)
        ensures
            match r {
                Some(index) => !stored && index@ == live_goals(projected@),
                None => stored,
            },
    {
        if stored {
            None
        } else {
            Some(ActiveGoalIndex::rebuild(projected))
        }
    }

    /// The records of a log that holds exactly the live goals.
    pub fn persist(&self) -> (r: Vec<ActiveGoalRecord>)
        ensures
            r@.len() == self.listed().len(),
            r@.len() == self@.dom().len(),
            forall|i: int|
                0 <= i < r@.len() ==> #[trigger] r@[i] == live_record(self.listed()[i]),
            keyed_by_id(self@) ==> replayed(r@) == self@,
    {
        let n: usize = self.goals.len();
        let mut out: Vec<ActiveGoalRecord> = Vec::new();
        let mut i: usize = 0;
        while i < n
            invariant
                i <= n == self.goals.keys().len() == self.goals.values().len(),
                out@.len() == i,
                forall|j: int|
                    0 <= j < i ==> #[trigger] out@[j] == live_record(self.goals.values()[j]),
            decreases n - i,
        {
            let goal = self.goals.value_at(i);
            out.push(
                ActiveGoalRecord {
                    id: goal.id.clone(),
                    goal: Some(goal.clone()),
                    removed: false,
                },
            );
            i = i + 1;
        }
        proof {
            if keyed_by_id(self@) {
                let keys = self.goals.keys();
                let values = self.goals.values();
                assert forall|j: int| 0 <= j < n implies #[trigger] keys[j] == values[j].id@ by {
                    assert(self@.contains_key(keys[j]));
                }
                live_log_replays(keys, values, out@);
            }
        }
        out
    }

    /// The record of a goal as it is now: live, or removed from the live
    /// ones; none where the goal could not be projected.
    pub fn record_goal(projected: Option<GoalIndexProjection>) -> (r: Option<ActiveGoalRecord>)
        ensures
            match projected {
                Some(goal) => r == Some(transition_record(goal)),
                None => r is None,
            },
    {
        match projected {
            Some(goal) => {
                if ActiveGoalIndex::holds_scheduler_attention(&goal.status) {
                    Some(
                        ActiveGoalRecord { id: goal.id.clone(), goal: Some(goal), removed: false },
                    )
                } else {
                    Some(ActiveGoalRecord { id: goal.id, goal: None, removed: true })
                }
            },
            None => None,
        }
    }

    /// The record of a goal that no longer exists.
    pub fn forget_goal(goal_id: &str) -> (r: ActiveGoalRecord)
        ensures
            r.id@ == goal_id@,
            r.goal is None,
            r.removed,
    {
        ActiveGoalRecord { id: goal_id.to_owned(), goal: None, removed: true }
    }
}

/// The record of a live goal.
pub open spec fn live_record(goal: GoalIndexProjection) -> ActiveGoalRecord {
    ActiveGoalRecord { id: goal.id, goal: Some(goal), removed: false }
}

/// The record of a goal as it is now.
pub open spec fn transition_record(goal: GoalIndexProjection) -> ActiveGoalRecord {
    if holds_attention(goal.status) {
        live_record(goal)
    } else {
        ActiveGoalRecord { id: goal.id, goal: None, removed: true }
    }
}

proof fn live_log_replays(
    keys: Seq<Seq<char>>,
    values: Seq<GoalIndexProjection>,
    records: Seq<ActiveGoalRecord>,
)
    requires
        crate::text_map::ascending(keys),
        keys.len() == values.len() == records.len(),
        forall|i: int| 0 <= i < keys.len() ==> #[trigger] keys[i] == values[i].id@,
        forall|i: int| 0 <= i < keys.len() ==> #[trigger] records[i] == live_record(values[i]),
    ensures
        replayed(records) == crate::text_map::table(keys, values),
    decreases keys.len(),
{
    if keys.len() == 0 {
        assert(replayed(records) =~= crate::text_map::table(keys, values));
    } else {
        let n = keys.len() as int - 1;
        let ks = keys.drop_last();
        let vs = values.drop_last();
        assert forall|i: int| 0 <= i < n implies #[trigger] ks[i] == vs[i].id@ by {
            assert(keys[i] == values[i].id@);
        }
        assert forall|i: int| 0 <= i < n implies #[trigger] records.drop_last()[i] == live_record(
            vs[i],
        ) by {
            assert(records[i] == live_record(values[i]));
        }
        live_log_replays(ks, vs, records.drop_last());
        crate::text_map::ascending_keys_are_distinct(keys);
        crate::text_map::ascending_keys_are_distinct(ks);
        assert(records[n] == live_record(values[n]));
        assert(keys[n] == values[n].id@);
        let whole = crate::text_map::table(keys, values);
        let part = crate::text_map::table(ks, vs).insert(keys[n], values[n]);
        assert forall|k: Seq<char>| keys.contains(k) == (ks.contains(k) || k == keys[n]) by {
            if keys.contains(k) && k != keys[n] {
                let i = keys.index_of(k);
                assert(ks[i] == k);
            }
            if ks.contains(k) {
                let i = ks.index_of(k);
                assert(keys[i] == k);
            }
        }
        assert forall|k: Seq<char>| keys.contains(k) implies whole[k] == part[k] by {
            if k == keys[n] {
                assert(keys.index_of(keys[n]) == n);
            } else {
                let i = ks.index_of(k);
                assert(ks[i] == k && keys[i] == k);
                assert(keys.index_of(keys[i]) == i);
            }
        }
        assert(whole =~= part);
    }
}

/// A line that is appended to a readable log adds what its record says, and
/// nothing else.
pub proof fn an_appended_line_is_replayed(lines: Seq<IndexLine>, line: IndexLine)
    requires
        readable(lines),
        line.record is Some,
    ensures
        readable(lines.push(line)),
        written_lines(lines.push(line)).len() == written_lines(lines).len() + 1,
        replayed(records_of(lines.push(line))) == after_record(
            replayed(records_of(lines)),
            line.record->0,
        ),
{
    let long = lines.push(line);
    assert(long.drop_last() =~= lines);
    assert(written_lines(long) == written_lines(lines).push(line)) by {
        reveal(Seq::filter);
    }
    assert(records_of(long) =~= records_of(lines).push(line.record->0));
    assert(records_of(long).drop_last() =~= records_of(lines));
    assert forall|i: int| 0 <= i < long.len() && holds_something(
        #[trigger] long[i],
    ) implies long[i].record is Some by {
        if i < lines.len() {
            assert(long[i] == lines[i]);
        }
    }
}

/// Recording a goal in a readable log puts it among the live goals or takes it
/// out, and leaves every other goal as it was.
pub proof fn a_recorded_line_moves_one_goal(
    lines: Seq<IndexLine>,
    line: IndexLine,
    goal: GoalIndexProjection,
)
    requires
        readable(lines),
        line.record == Some(transition_record(goal)),
    ensures
        readable(lines.push(line)),
        replayed(records_of(lines.push(line))) == (if holds_attention(goal.status) {
            replayed(records_of(lines)).insert(goal.id@, goal)
        } else {
            replayed(records_of(lines)).remove(goal.id@)
        }),
{
    an_appended_line_is_replayed(lines, line);
}

/// Forgetting a goal in a readable log takes it out of the live goals and
/// leaves every other goal as it was. Forgetting it again, or forgetting one
/// that is not live, changes nothing.
pub proof fn a_forgetting_line_removes_one_goal(
    lines: Seq<IndexLine>,
    line: IndexLine,
    again: IndexLine,
)
    requires
        readable(lines),
        line.record is Some,
        line.record->0.goal is None,
        again.record is Some,
        again.record->0.goal is None,
        again.record->0.id@ == line.record->0.id@,
    ensures
        ({
            let id = line.record->0.id@;
            let before = replayed(records_of(lines));
            let after = replayed(records_of(lines.push(line)));
            &&& readable(lines.push(line))
            &&& after == before.remove(id)
            &&& !before.contains_key(id) ==> after == before
            &&& readable(lines.push(line).push(again))
            &&& replayed(records_of(lines.push(line).push(again))) == after
        }),
{
    let id = line.record->0.id@;
    let before = replayed(records_of(lines));
    an_appended_line_is_replayed(lines, line);
    an_appended_line_is_replayed(lines.push(line), again);
    if !before.contains_key(id) {
        assert(before.remove(id) =~= before);
    }
    assert(before.remove(id).remove(id) =~= before.remove(id));
}

/// A log that was written record by record is readable, has one line for each
/// record, and replays to what the records say.
pub proof fn written_records_are_loaded(lines: Seq<IndexLine>, records: Seq<ActiveGoalRecord>)
    requires
        lines.len() == records.len(),
        forall|i: int| 0 <= i < lines.len() ==> (#[trigger] lines[i]).record == Some(records[i]),
    ensures
        readable(lines),
        written_lines(lines).len() == records.len(),
        records_of(lines) == records,
    decreases lines.len(),
{
    reveal(Seq::filter);
    if lines.len() > 0 {
        let short = lines.drop_last();
        assert forall|i: int| 0 <= i < short.len() implies (#[trigger] short[i]).record == Some(
            records.drop_last()[i],
        ) by {
            assert(short[i] == lines[i]);
        }
        written_records_are_loaded(short, records.drop_last());
        assert(lines[lines.len() - 1].record == Some(records.last()));
        assert(written_lines(lines) == written_lines(short).push(lines.last()));
        assert(records_of(lines) =~= records_of(short).push(records.last()));
        assert(records.drop_last().push(records.last()) =~= records);
    } else {
        assert(records_of(lines) =~= records);
    }
}

/// Recording a goal after a transition moves it in or out of the live goals
/// and leaves every other goal as it was.
pub proof fn recording_moves_one_goal(
    records: Seq<ActiveGoalRecord>,
    goal: GoalIndexProjection,
    other: Seq<char>,
)
    requires
        other != goal.id@,
    ensures
        ({
            let before = replayed(records);
            let after = replayed(records.push(transition_record(goal)));
            &&& after.contains_key(goal.id@) == holds_attention(goal.status)
            &&& holds_attention(goal.status) ==> after[goal.id@] == goal
            &&& after.contains_key(other) == before.contains_key(other)
            &&& before.contains_key(other) ==> after[other] == before[other]
        }),
{
    assert(records.push(transition_record(goal)).drop_last() =~= records);
}

/// A forgotten goal is not live, whatever the log said of it.
pub proof fn forgotten_goals_are_not_live(records: Seq<ActiveGoalRecord>, record: ActiveGoalRecord)
    requires
        record.goal is None,
    ensures
        !replayed(records.push(record)).contains_key(record.id@),
        replayed(records.push(record)) == replayed(records).remove(record.id@),
{
    assert(records.push(record).drop_last() =~= records);
}

/// A rebuilt index holds only goals that still matter, each under its id.
pub proof fn rebuilt_indexes_hold_live_goals(projected: Seq<GoalIndexProjection>)
    ensures
        keyed_by_id(live_goals(projected)),
        forall|k: Seq<char>| #[trigger]
            live_goals(projected).contains_key(k) ==> holds_attention(
                live_goals(projected)[k].status,
            ),
    decreases projected.len(),
{
    if projected.len() > 0 {
        rebuilt_indexes_hold_live_goals(projected.drop_last());
    }
}

/// A log that was written by recording transitions holds only goals that
/// still matter.
pub proof fn recorded_logs_hold_live_goals(goals: Seq<GoalIndexProjection>)
    ensures
        ({
            let log = goals.map_values(|g: GoalIndexProjection| transition_record(g));
            &&& keyed_by_id(replayed(log))
            &&& forall|k: Seq<char>| #[trigger]
                replayed(log).contains_key(k) ==> holds_attention(replayed(log)[k].status)
        }),
    decreases goals.len(),
{
    let f = |g: GoalIndexProjection| transition_record(g);
    if goals.len() > 0 {
        recorded_logs_hold_live_goals(goals.drop_last());
        assert(goals.map_values(f).drop_last() =~= goals.drop_last().map_values(f));
    }
}

} // verus!

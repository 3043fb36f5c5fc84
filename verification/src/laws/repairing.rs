//! What is noticed of changed files, and how a projection is repaired.
use vstd::prelude::*;

use crate::model::{
    FeatureIndexProjection, FeatureSummaryProjection, GoalSummaryProjection, SourceFingerprint,
};
use crate::project_state::incremental::{ObservedSource, ObservedSources, SourceDelta};

verus! {

/// A file is as it was known: its size and both of its times are the same, and
/// the time of its last change was known.
pub open spec fn is_as_known(
    expected: Map<Seq<char>, SourceFingerprint>,
    source: ObservedSource,
) -> bool {
    let known = expected[source.rel_path@];
    &&& expected.contains_key(source.rel_path@)
    &&& known.size == source.fingerprint.size
    &&& known.modified_unix_ms == source.fingerprint.modified_unix_ms
    &&& known.change_unix_ns is Some
    &&& source.fingerprint.change_unix_ns is Some
    &&& known.change_unix_ns->0 == source.fingerprint.change_unix_ns->0
}

/// A file was found under a path that is not as it was known.
pub open spec fn changed_at(
    expected: Map<Seq<char>, SourceFingerprint>,
    sources: Seq<ObservedSource>,
    path: Seq<char>,
) -> bool {
    exists|i: int|
        0 <= i < sources.len() && (#[trigger] sources[i]).rel_path@ == path && !is_as_known(
            expected,
            sources[i],
        )
}

/// A file was found under a path.
pub open spec fn stands_at(sources: Seq<ObservedSource>, path: Seq<char>) -> bool {
    exists|i: int| 0 <= i < sources.len() && (#[trigger] sources[i]).rel_path@ == path
}

/// Some file is not as it was known.
pub open spec fn some_changed(
    expected: Map<Seq<char>, SourceFingerprint>,
    sources: Seq<ObservedSource>,
) -> bool {
    exists|i: int| 0 <= i < sources.len() && !is_as_known(expected, #[trigger] sources[i])
}

/// A path ends with a text.
pub open spec fn ends_in(path: Seq<char>, end: Seq<char>) -> bool {
    path.len() >= end.len() && path.skip(path.len() - end.len()) == end
}

/// Something was found under a path: a file, or the Git head.
pub open spec fn is_found(found: ObservedSources, path: Seq<char>) -> bool {
    ||| stands_at(found.goals@, path)
    ||| stands_at(found.features@, path)
    ||| stands_at(found.logs@, path)
    ||| found.activity is Some && (found.activity->0).rel_path@ == path
    ||| found.git_head is Some && (found.git_head->0).path@ == path
}

proof fn pushed_texts(texts: Seq<Seq<char>>, last: Seq<char>, text: Seq<char>)
    ensures
        texts.push(last).contains(text) == (texts.contains(text) || text == last),
{
    if texts.contains(text) {
        let i = texts.index_of(text);
        assert(texts.push(last)[i] == text);
    }
    assert(texts.push(last)[texts.len() as int] == last);
    if texts.push(last).contains(text) && text != last {
        let i = texts.push(last).index_of(text);
        assert(texts[i] == text);
    }
}

proof fn changes_are_noticed(
    expected: Map<Seq<char>, SourceFingerprint>,
    sources: Seq<ObservedSource>,
    path: Seq<char>,
)
    ensures
        crate::project_state::incremental::changed_paths(expected, sources).contains(path)
            == changed_at(expected, sources, path),
        crate::project_state::incremental::added_paths(expected, sources).contains(path) == (
        stands_at(sources, path) && !expected.contains_key(path)),
    decreases sources.len(),
{
    if sources.len() > 0 {
        let rest = sources.drop_last();
        let last: int = sources.len() - 1;
        changes_are_noticed(expected, rest, path);
        pushed_texts(
            crate::project_state::incremental::changed_paths(expected, rest),
            sources[last].rel_path@,
            path,
        );
        pushed_texts(
            crate::project_state::incremental::added_paths(expected, rest),
            sources[last].rel_path@,
            path,
        );
        if changed_at(expected, rest, path) {
            let i = choose|i: int|
                0 <= i < rest.len() && (#[trigger] rest[i]).rel_path@ == path && !is_as_known(
                    expected,
                    rest[i],
                );
            assert(sources[i] == rest[i]);
        }
        if stands_at(rest, path) {
            let i = choose|i: int| 0 <= i < rest.len() && (#[trigger] rest[i]).rel_path@ == path;
            assert(sources[i] == rest[i]);
        }
        if changed_at(expected, sources, path) {
            let i = choose|i: int|
                0 <= i < sources.len() && (#[trigger] sources[i]).rel_path@ == path
                    && !is_as_known(expected, sources[i]);
            if i < last {
                assert(rest[i] == sources[i]);
            }
        }
        if stands_at(sources, path) {
            let i = choose|i: int|
                0 <= i < sources.len() && (#[trigger] sources[i]).rel_path@ == path;
            if i < last {
                assert(rest[i] == sources[i]);
            }
        }
        assert(sources.last() == sources[last]);
    }
}

proof fn known_paths_are_missed(
    known: Seq<Seq<char>>,
    found: Map<Seq<char>, SourceFingerprint>,
    kind: crate::project_state::incremental::SourceKind,
    activity_file: Seq<char>,
    path: Seq<char>,
)
    ensures
        crate::project_state::incremental::missing_paths(
            known,
            found,
            kind,
            activity_file,
        ).contains(path) == (known.contains(path) && !found.contains_key(path) && (
        crate::project_state::incremental::kind_of(path, activity_file) == kind)),
    decreases known.len(),
{
    if known.len() > 0 {
        let rest = known.drop_last();
        known_paths_are_missed(rest, found, kind, activity_file, path);
        pushed_texts(rest, known.last(), path);
        assert(rest.push(known.last()) =~= known);
        pushed_texts(
            crate::project_state::incremental::missing_paths(rest, found, kind, activity_file),
            known.last(),
            path,
        );
    }
}

proof fn what_is_found_is_fingerprinted(
    known: Map<Seq<char>, SourceFingerprint>,
    sources: Seq<ObservedSource>,
    path: Seq<char>,
)
    ensures
        crate::project_state::incremental::with_fingerprints(known, sources).contains_key(path) == (
        known.contains_key(path) || stands_at(sources, path)),
        crate::project_state::incremental::with_fingerprints(known, sources).contains_key(path) ==> (
        !stands_at(sources, path) && known.contains_key(path)
            && crate::project_state::incremental::with_fingerprints(known, sources)[path]
            == known[path]) || exists|i: int|
            0 <= i < sources.len() && (#[trigger] sources[i]).rel_path@ == path
                && sources[i].fingerprint
                == crate::project_state::incremental::with_fingerprints(known, sources)[path],
    decreases sources.len(),
{
    if sources.len() > 0 {
        let rest = sources.drop_last();
        let last: int = sources.len() - 1;
        what_is_found_is_fingerprinted(known, rest, path);
        assert(sources.last() == sources[last]);
        let before = crate::project_state::incremental::with_fingerprints(known, rest);
        let after = crate::project_state::incremental::with_fingerprints(known, sources);
        if stands_at(rest, path) {
            let i = choose|i: int| 0 <= i < rest.len() && (#[trigger] rest[i]).rel_path@ == path;
            assert(sources[i] == rest[i]);
        }
        if stands_at(sources, path) {
            let i = choose|i: int|
                0 <= i < sources.len() && (#[trigger] sources[i]).rel_path@ == path;
            if i < last {
                assert(rest[i] == sources[i]);
            }
        }
        if sources[last].rel_path@ != path && exists|i: int|
            0 <= i < rest.len() && (#[trigger] rest[i]).rel_path@ == path && rest[i].fingerprint
                == before[path] {
            let i = choose|i: int|
                0 <= i < rest.len() && (#[trigger] rest[i]).rel_path@ == path
                    && rest[i].fingerprint == before[path];
            assert(sources[i] == rest[i]);
        }
    }
}

/// A delta knows the fingerprint of exactly what was found.
pub proof fn deltas_know_what_was_found(
    expected: Map<Seq<char>, SourceFingerprint>,
    known: Seq<Seq<char>>,
    found: ObservedSources,
    activity_file: Seq<char>,
    delta: SourceDelta,
    path: Seq<char>,
)
    requires
        crate::project_state::incremental::delta_of(expected, known, found, activity_file, delta),
    ensures
        delta.fingerprints@.contains_key(path) == is_found(found, path),
        found.git_head is Some ==> delta.fingerprints@[(found.git_head->0).path@]
            == found.git_head->0,
{
    let goals = crate::project_state::incremental::with_fingerprints(Map::empty(), found.goals@);
    let features = crate::project_state::incremental::with_fingerprints(goals, found.features@);
    what_is_found_is_fingerprinted(Map::empty(), found.goals@, path);
    what_is_found_is_fingerprinted(goals, found.features@, path);
    what_is_found_is_fingerprinted(features, found.logs@, path);
}

/// A goal is listed as changed exactly where it was found and is not as it was
/// known, as added exactly where it was found and was not known, and as removed
/// exactly where it was known and was not found.
pub proof fn changed_goals_are_noticed(
    expected: Map<Seq<char>, SourceFingerprint>,
    known: Seq<Seq<char>>,
    found: ObservedSources,
    activity_file: Seq<char>,
    delta: SourceDelta,
    path: Seq<char>,
)
    requires
        crate::project_state::incremental::delta_of(expected, known, found, activity_file, delta),
    ensures
        crate::text::views(delta.goals_changed@).contains(path) == changed_at(
            expected,
            found.goals@,
            path,
        ),
        crate::text::views(delta.goals_added@).contains(path) == (stands_at(found.goals@, path)
            && !expected.contains_key(path)),
        crate::text::views(delta.goals_removed@).contains(path) == (known.contains(path)
            && ends_in(path, "/goal.json"@) && !is_found(found, path)),
{
    changes_are_noticed(expected, found.goals@, path);
    deltas_know_what_was_found(expected, known, found, activity_file, delta, path);
    known_paths_are_missed(
        known,
        delta.fingerprints@,
        crate::project_state::incremental::SourceKind::Goal,
        activity_file,
        path,
    );
    ends_are_found(path, "/goal.json"@);
}

/// A feature is listed as changed exactly where it was found and is not as it
/// was known, and as removed exactly where it was known and was not found.
pub proof fn changed_features_are_noticed(
    expected: Map<Seq<char>, SourceFingerprint>,
    known: Seq<Seq<char>>,
    found: ObservedSources,
    activity_file: Seq<char>,
    delta: SourceDelta,
    path: Seq<char>,
)
    requires
        crate::project_state::incremental::delta_of(expected, known, found, activity_file, delta),
    ensures
        crate::text::views(delta.features_changed@).contains(path) == changed_at(
            expected,
            found.features@,
            path,
        ),
        crate::text::views(delta.features_removed@).contains(path) == (known.contains(path)
            && ends_in(path, "/feature.json"@) && !is_found(found, path)),
{
    changes_are_noticed(expected, found.features@, path);
    deltas_know_what_was_found(expected, known, found, activity_file, delta, path);
    known_paths_are_missed(
        known,
        delta.fingerprints@,
        crate::project_state::incremental::SourceKind::Feature,
        activity_file,
        path,
    );
    ends_are_found(path, "/goal.json"@);
    ends_are_found(path, "/feature.json"@);
    if ends_in(path, "/feature.json"@) && ends_in(path, "/goal.json"@) {
        reveal_strlit("/feature.json");
        reveal_strlit("/goal.json");
        let n: int = path.len() as int;
        assert("/feature.json"@[7] == 'e' && "/feature.json"@.len() == 13);
        assert("/goal.json"@[4] == 'l' && "/goal.json"@.len() == 10);
        assert(path.skip(n - 13)[7] == path[n - 6]);
        assert(path.skip(n - 10)[4] == path[n - 6]);
    }
}

proof fn ends_are_found(path: Seq<char>, end: Seq<char>)
    ensures
        crate::text::finishes_with(path, end) == ends_in(path, end),
{
    if path.len() >= end.len() {
        let n: int = path.len() as int;
        assert(path.subrange(n - end.len(), n) =~= path.skip(n - end.len()));
    }
}

/// A known path that holds activity: the log of a goal, or the activity file.
pub open spec fn holds_activity(path: Seq<char>, activity_file: Seq<char>) -> bool {
    !ends_in(path, "/goal.json"@) && !ends_in(path, "/feature.json"@) && (ends_in(
        path,
        "logs.jsonl"@,
    ) || ends_in(path, activity_file))
}

/// A known path that is none of the files of a project, nor its Git head.
pub open spec fn is_of_no_kind(path: Seq<char>, activity_file: Seq<char>) -> bool {
    !ends_in(path, "/goal.json"@) && !ends_in(path, "/feature.json"@) && !ends_in(
        path,
        "logs.jsonl"@,
    ) && !ends_in(path, activity_file) && path != "git:HEAD"@
}

/// A path was known and is not found any more.
pub open spec fn is_lost(known: Seq<Seq<char>>, found: ObservedSources, path: Seq<char>) -> bool {
    known.contains(path) && !is_found(found, path)
}

proof fn losses_show(
    known: Seq<Seq<char>>,
    found: ObservedSources,
    seen: Map<Seq<char>, SourceFingerprint>,
    kind: crate::project_state::incremental::SourceKind,
    activity_file: Seq<char>,
)
    requires
        forall|path: Seq<char>| #[trigger] seen.contains_key(path) == is_found(found, path),
    ensures
        (crate::project_state::incremental::missing_paths(
            known,
            seen,
            kind,
            activity_file,
        ).len() > 0) == exists|path: Seq<char>| #[trigger]
            is_lost(known, found, path) && (crate::project_state::incremental::kind_of(
                path,
                activity_file,
            ) == kind),
{
    let missing = crate::project_state::incremental::missing_paths(
        known,
        seen,
        kind,
        activity_file,
    );
    if missing.len() > 0 {
        known_paths_are_missed(known, seen, kind, activity_file, missing[0]);
        assert(missing.contains(missing[0]));
        assert(seen.contains_key(missing[0]) == is_found(found, missing[0]));
        assert(is_lost(known, found, missing[0]));
    }
    if exists|path: Seq<char>| #[trigger]
        is_lost(known, found, path) && (crate::project_state::incremental::kind_of(
            path,
            activity_file,
        ) == kind) {
        let path = choose|path: Seq<char>| #[trigger]
            is_lost(known, found, path) && (crate::project_state::incremental::kind_of(
                path,
                activity_file,
            ) == kind);
        assert(seen.contains_key(path) == is_found(found, path));
        known_paths_are_missed(known, seen, kind, activity_file, path);
    }
}

proof fn some_change_is_a_change(
    expected: Map<Seq<char>, SourceFingerprint>,
    sources: Seq<ObservedSource>,
)
    ensures
        crate::project_state::incremental::any_changed(expected, sources) == some_changed(
            expected,
            sources,
        ),
{
    if some_changed(expected, sources) {
        let i = choose|i: int|
            0 <= i < sources.len() && !is_as_known(expected, #[trigger] sources[i]);
        assert(!crate::project_state::incremental::unchanged(expected, sources[i]));
    }
    if crate::project_state::incremental::any_changed(expected, sources) {
        let i = choose|i: int|
            0 <= i < sources.len() && !crate::project_state::incremental::unchanged(
                expected,
                #[trigger] sources[i],
            );
        assert(!is_as_known(expected, sources[i]));
    }
}

/// The activity changed exactly where a log or the activity file is not as it
/// was known or is lost; the Git head changed exactly where it holds another
/// commit than was known, or something of no kind is lost.
pub proof fn changed_activity_is_noticed(
    expected: Map<Seq<char>, SourceFingerprint>,
    known: Seq<Seq<char>>,
    found: ObservedSources,
    activity_file: Seq<char>,
    delta: SourceDelta,
)
    requires
        crate::project_state::incremental::delta_of(expected, known, found, activity_file, delta),
    ensures
        delta.activity_changed == (some_changed(expected, found.logs@) || (found.activity is Some
            && !is_as_known(expected, found.activity->0)) || exists|path: Seq<char>| #[trigger]
            is_lost(known, found, path) && holds_activity(path, activity_file)),
        delta.git_head_changed == ((found.git_head is Some && !(expected.contains_key(
            (found.git_head->0).path@,
        ) && crate::text::maybe_view(expected[(found.git_head->0).path@].content_hash)
            == crate::text::maybe_view((found.git_head->0).content_hash))) || exists|
            path: Seq<char>,
        | #[trigger]
            is_lost(known, found, path) && is_of_no_kind(path, activity_file)),
{
    let seen = delta.fingerprints@;
    assert forall|path: Seq<char>| #[trigger] seen.contains_key(path) == is_found(found, path) by {
        deltas_know_what_was_found(expected, known, found, activity_file, delta, path);
    }
    let activity = crate::project_state::incremental::SourceKind::Activity;
    let other = crate::project_state::incremental::SourceKind::Other;
    losses_show(known, found, seen, activity, activity_file);
    losses_show(known, found, seen, other, activity_file);
    some_change_is_a_change(expected, found.logs@);
    assert forall|path: Seq<char>|
        (crate::project_state::incremental::kind_of(path, activity_file) == activity) == #[trigger]
        holds_activity(path, activity_file) && (crate::project_state::incremental::kind_of(
            path,
            activity_file,
        ) == other) == is_of_no_kind(path, activity_file) by {
        ends_are_found(path, "/goal.json"@);
        ends_are_found(path, "/feature.json"@);
        ends_are_found(path, "logs.jsonl"@);
        ends_are_found(path, activity_file);
    }
    if exists|path: Seq<char>| #[trigger]
        is_lost(known, found, path) && (crate::project_state::incremental::kind_of(
            path,
            activity_file,
        ) == activity) {
        let path = choose|path: Seq<char>| #[trigger]
            is_lost(known, found, path) && (crate::project_state::incremental::kind_of(
                path,
                activity_file,
            ) == activity);
        assert(holds_activity(path, activity_file));
    }
    if exists|path: Seq<char>| #[trigger]
        is_lost(known, found, path) && (crate::project_state::incremental::kind_of(
            path,
            activity_file,
        ) == other) {
        let path = choose|path: Seq<char>| #[trigger]
            is_lost(known, found, path) && (crate::project_state::incremental::kind_of(
                path,
                activity_file,
            ) == other);
        assert(holds_activity(path, activity_file) || is_of_no_kind(path, activity_file));
    }
    if exists|path: Seq<char>| #[trigger]
        is_lost(known, found, path) && is_of_no_kind(path, activity_file) {
        let path = choose|path: Seq<char>| #[trigger]
            is_lost(known, found, path) && is_of_no_kind(path, activity_file);
        assert(!holds_activity(path, activity_file));
    }
}

/// A delta is empty exactly where nothing is listed in it and neither the
/// activity nor the Git head changed.
pub proof fn empty_deltas_list_nothing(delta: SourceDelta)
    ensures
        crate::project_state::incremental::nothing_changed(delta) == (delta.goals_changed@.len()
            == 0 && delta.goals_removed@.len() == 0 && delta.features_changed@.len() == 0
            && delta.features_removed@.len() == 0 && !delta.activity_changed
            && !delta.git_head_changed),
{
}

proof fn removed_goals_go(
    goals: Map<Seq<char>, GoalSummaryProjection>,
    paths: Seq<Seq<char>>,
    key: Seq<char>,
)
    ensures
        ({
            let after = crate::project_state::incremental::without_goal_paths(goals, paths);
            &&& after.contains_key(key) == (goals.contains_key(key) && !paths.contains(
                goals[key].goal.json_path@,
            ))
            &&& after.contains_key(key) ==> after[key] == goals[key]
        }),
    decreases paths.len(),
{
    if paths.len() > 0 {
        let rest = paths.drop_last();
        removed_goals_go(goals, rest, key);
        pushed_texts(rest, paths.last(), goals[key].goal.json_path@);
        assert(rest.push(paths.last()) =~= paths);
    }
}

/// What was read again stands in the repaired projection under its own id, unless
/// a later path is its own or was read as another record with that id.
pub proof fn what_was_read_again_is_held(
    before: Map<Seq<char>, GoalSummaryProjection>,
    delta: SourceDelta,
    reread: Seq<Option<GoalSummaryProjection>>,
    after: Map<Seq<char>, GoalSummaryProjection>,
    at: int,
)
    requires
        crate::project_state::incremental::goals_patched(before, delta, reread, after),
        reread.len() == delta.goals_changed@.len(),
        0 <= at < reread.len(),
        reread[at] is Some,
        forall|i: int| at < i < reread.len() ==> reread[at]->0.goal.json_path@ != (
        #[trigger] delta.goals_changed@[i])@,
        forall|i: int|
            at < i < reread.len() ==> (#[trigger] reread[i] is Some ==> reread[i]->0.goal.id@
                != reread[at]->0.goal.id@),
    ensures
        after.contains_key(reread[at]->0.goal.id@),
        after[reread[at]->0.goal.id@]@ == reread[at]->0@,
{
    let kept = crate::project_state::incremental::without_goal_paths(
        before,
        crate::text::views(delta.goals_removed@),
    );
    let paths = crate::text::views(delta.goals_changed@);
    let summaries = crate::project_state::incremental::summaries(reread);
    let key = reread[at]->0.goal.id@;
    read_again_up_to(kept, paths, summaries, at, reread[at]->0@);
    let contents = crate::project_state::incremental::goal_contents(after);
    assert(contents.contains_key(key));
}

proof fn read_again_up_to(
    goals: Map<Seq<char>, GoalSummaryProjection>,
    paths: Seq<Seq<char>>,
    reread: Seq<Option<crate::model::GoalSummaryView>>,
    at: int,
    row: crate::model::GoalSummaryView,
)
    requires
        0 <= at < paths.len() <= reread.len(),
        reread[at] == Some(row),
        forall|i: int| at < i < paths.len() ==> row.goal.json_path@ != #[trigger] paths[i],
        forall|i: int|
            at < i < paths.len() ==> (#[trigger] reread[i] is Some ==> reread[i]->0.goal.id@
                != row.goal.id@),
    ensures
        ({
            let after = crate::project_state::incremental::patched_contents(goals, paths, reread);
            after.contains_key(row.goal.id@) && after[row.goal.id@] == row
        }),
    decreases paths.len(),
{
    let last: int = paths.len() - 1;
    if at < last {
        assert(paths.last() == paths[last]);
        assert(reread[last] is Some ==> reread[last]->0.goal.id@ != row.goal.id@);
        read_again_up_to(goals, paths.drop_last(), reread, at, row);
    }
}

/// A repaired projection holds a goal that was neither removed nor read again,
/// as it was, and no other that was not read again.
pub proof fn other_goals_stay_as_they_were(
    before: Map<Seq<char>, GoalSummaryProjection>,
    delta: SourceDelta,
    reread: Seq<Option<GoalSummaryProjection>>,
    after: Map<Seq<char>, GoalSummaryProjection>,
    key: Seq<char>,
)
    requires
        crate::project_state::incremental::goals_patched(before, delta, reread, after),
        reread.len() == delta.goals_changed@.len(),
        forall|i: int|
            0 <= i < reread.len() ==> (#[trigger] reread[i] is Some ==> reread[i]->0.goal.id@
                != key),
    ensures
        ({
            let removed = crate::text::views(delta.goals_removed@);
            let changed = crate::text::views(delta.goals_changed@);
            let path = before[key].goal.json_path@;
            &&& after.contains_key(key) == (before.contains_key(key) && !removed.contains(path)
                && !changed.contains(path))
            &&& after.contains_key(key) ==> after[key]@ == before[key]@
        }),
{
    let removed = crate::text::views(delta.goals_removed@);
    let changed = crate::text::views(delta.goals_changed@);
    let kept = crate::project_state::incremental::without_goal_paths(before, removed);
    let summaries = crate::project_state::incremental::summaries(reread);
    removed_goals_go(before, removed, key);
    assert forall|i: int|
        0 <= i < changed.len() && #[trigger] summaries[i] is Some implies summaries[i]->0.goal.id@
        != key by {
        assert(reread[i] is Some);
    }
    unread_goals_stay(kept, changed, summaries, key);
    let contents = crate::project_state::incremental::goal_contents(after);
    assert(contents.contains_key(key) == after.contains_key(key));
}

proof fn unread_goals_stay(
    goals: Map<Seq<char>, GoalSummaryProjection>,
    paths: Seq<Seq<char>>,
    reread: Seq<Option<crate::model::GoalSummaryView>>,
    key: Seq<char>,
)
    requires
        paths.len() <= reread.len(),
        forall|i: int|
            0 <= i < paths.len() ==> (#[trigger] reread[i] is Some ==> reread[i]->0.goal.id@
                != key),
    ensures
        ({
            let after = crate::project_state::incremental::patched_contents(goals, paths, reread);
            &&& after.contains_key(key) == (goals.contains_key(key) && !paths.contains(
                goals[key].goal.json_path@,
            ))
            &&& after.contains_key(key) ==> after[key] == goals[key]@
        }),
    decreases paths.len(),
{
    if paths.len() > 0 {
        let rest = paths.drop_last();
        let last: int = paths.len() - 1;
        unread_goals_stay(goals, rest, reread, key);
        assert(reread[last] is Some ==> reread[last]->0.goal.id@ != key);
        pushed_texts(rest, paths.last(), goals[key].goal.json_path@);
        assert(rest.push(paths.last()) =~= paths);
    }
}

/// Removed features are gone, and every other one stays as it was.
pub proof fn only_removed_features_go(
    features: Map<Seq<char>, FeatureSummaryProjection>,
    paths: Seq<Seq<char>>,
    key: Seq<char>,
)
    ensures
        ({
            let after = crate::project_state::incremental::without_feature_paths(features, paths);
            &&& after.contains_key(key) == (features.contains_key(key) && !paths.contains(
                features[key].feature.json_path@,
            ))
            &&& after.contains_key(key) ==> after[key] == features[key]
        }),
{
}

/// The features that are derived anew are those that neither changed nor were
/// removed, and those that could be read again.
pub proof fn features_are_derived_anew(
    features: Seq<FeatureSummaryProjection>,
    removed: Seq<Seq<char>>,
    changed: Seq<Seq<char>>,
    record: FeatureIndexProjection,
)
    ensures
        crate::project_state::incremental::kept_features(features, removed, changed).contains(
            record,
        ) == exists|i: int|
            0 <= i < features.len() && (#[trigger] features[i]).feature == record
                && !removed.contains(record.json_path@) && !changed.contains(record.json_path@),
    decreases features.len(),
{
    if features.len() > 0 {
        let rest = features.drop_last();
        let last: int = features.len() - 1;
        features_are_derived_anew(rest, removed, changed, record);
        let before = crate::project_state::incremental::kept_features(rest, removed, changed);
        let after = crate::project_state::incremental::kept_features(features, removed, changed);
        assert(features.last() == features[last]);
        if before.contains(record) {
            let k = before.index_of(record);
            assert(after[k] == record);
            let i = choose|i: int|
                0 <= i < rest.len() && (#[trigger] rest[i]).feature == record && !removed.contains(
                    record.json_path@,
                ) && !changed.contains(record.json_path@);
            assert(features[i] == rest[i]);
        } else if after.contains(record) {
            let k = after.index_of(record);
            if k < before.len() {
                assert(before[k] == record);
            }
            assert(features[last].feature == record);
        }
        if exists|i: int|
            0 <= i < features.len() && (#[trigger] features[i]).feature == record
                && !removed.contains(record.json_path@) && !changed.contains(record.json_path@) {
            let i = choose|i: int|
                0 <= i < features.len() && (#[trigger] features[i]).feature == record
                    && !removed.contains(record.json_path@) && !changed.contains(
                    record.json_path@,
                );
            if i < last {
                assert(rest[i] == features[i]);
            } else {
                assert(after[after.len() - 1] == record);
            }
        }
    }
}

/// What could be read is kept, and nothing else.
pub proof fn what_could_be_read_is_kept<T>(items: Seq<Option<T>>, item: T)
    ensures
        crate::project_state::incremental::present(items).contains(item) == items.contains(
            Some(item),
        ),
    decreases items.len(),
{
    if items.len() > 0 {
        let rest = items.drop_last();
        what_could_be_read_is_kept(rest, item);
        let before = crate::project_state::incremental::present(rest);
        let after = crate::project_state::incremental::present(items);
        assert(items.last() == items[items.len() - 1]);
        if before.contains(item) {
            assert(after[before.index_of(item)] == item);
            assert(items[rest.index_of(Some(item))] == Some(item));
        }
        if items.contains(Some(item)) && !before.contains(item) {
            let i = items.index_of(Some(item));
            if i < rest.len() {
                assert(rest[i] == Some(item));
            }
            assert(after[before.len() as int] == item);
        }
        if after.contains(item) && !before.contains(item) {
            let k = after.index_of(item);
            if k < before.len() {
                assert(before[k] == item);
            }
        }
    }
}

} // verus!

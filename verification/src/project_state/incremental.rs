//! Repairing a cached projection from what changed on disk.
use vstd::prelude::*;

use crate::model::{
    ActivitySummaryProjection, ChangeSummaryProjection, DashboardProjection,
    FeatureIndexProjection, FeatureSummaryProjection, GoalStatus, GoalSummaryProjection,
    ProjectionSnapshot, SourceFingerprint,
};
use crate::project_state::query::status_counts_of;
use crate::text::{ends_with_text, list_contains, maybe_text_eq, text_eq};
use crate::text_map::TextMap;

verus! {

/// A source file as it was found.
#[derive(Debug)]
pub struct ObservedSource {
    pub rel_path: String,
    pub fingerprint: SourceFingerprint,
}

/// Every source file as it was found.
#[derive(Debug)]
pub struct ObservedSources {
    pub goals: Vec<ObservedSource>,
    pub features: Vec<ObservedSource>,
    pub logs: Vec<ObservedSource>,
    pub activity: Option<ObservedSource>,
    pub git_head: Option<SourceFingerprint>,
}

/// What changed on disk since a projection was built.
pub struct SourceDelta {
    pub goals_changed: Vec<String>,
    /// Records that the projection had never seen. They are kept apart because
    /// the activity depends on which goals exist, not on what they hold.
    pub goals_added: Vec<String>,
    pub goals_removed: Vec<String>,
    pub features_changed: Vec<String>,
    pub features_removed: Vec<String>,
    pub activity_changed: bool,
    pub git_head_changed: bool,
    pub fingerprints: TextMap<SourceFingerprint>,
}

/// A repaired projection and what is left to derive for it.
pub struct ProjectionPatch {
    pub snapshot: ProjectionSnapshot,
    /// The features whose rollups are to be derived.
    pub feature_records: Vec<FeatureIndexProjection>,
    pub rescan_activity: bool,
    pub rescan_changes: bool,
}

/// Two fingerprints of the same contents. A stored one without a change time
/// cannot be compared and counts as changed.
pub open spec fn same_contents(previous: SourceFingerprint, current: SourceFingerprint) -> bool {
    previous.size == current.size && previous.modified_unix_ms == current.modified_unix_ms
        && previous.change_unix_ns is Some && previous.change_unix_ns == current.change_unix_ns
}

/// Compares two fingerprints.
pub fn fingerprint_matches(previous: &SourceFingerprint, current: &SourceFingerprint) -> (r: bool)
    ensures
        r == same_contents(*previous, *current),
{
    previous.size == current.size && previous.modified_unix_ms == current.modified_unix_ms && match (
        previous.change_unix_ns,
        current.change_unix_ns,
    ) {
        (Some(a), Some(b)) => a == b,
        _ => false,
    }
}

/// A source that is as the projection knew it.
pub open spec fn unchanged(expected: Map<Seq<char>, SourceFingerprint>, source: ObservedSource) -> bool {
    expected.contains_key(source.rel_path@) && same_contents(
        expected[source.rel_path@],
        source.fingerprint,
    )
}

/// The paths of the sources that changed, in order.
pub open spec fn changed_paths(
    expected: Map<Seq<char>, SourceFingerprint>,
    sources: Seq<ObservedSource>,
) -> Seq<Seq<char>>
    decreases sources.len(),
{
    if sources.len() == 0 {
        Seq::empty()
    } else {
        let before = changed_paths(expected, sources.drop_last());
        if unchanged(expected, sources.last()) {
            before
        } else {
            before.push(sources.last().rel_path@)
        }
    }
}

/// The paths of the sources that the projection had never seen, in order.
pub open spec fn added_paths(
    expected: Map<Seq<char>, SourceFingerprint>,
    sources: Seq<ObservedSource>,
) -> Seq<Seq<char>>
    decreases sources.len(),
{
    if sources.len() == 0 {
        Seq::empty()
    } else {
        let before = added_paths(expected, sources.drop_last());
        if expected.contains_key(sources.last().rel_path@) {
            before
        } else {
            before.push(sources.last().rel_path@)
        }
    }
}

/// The fingerprints of the sources, added to others.
pub open spec fn with_fingerprints(
    known: Map<Seq<char>, SourceFingerprint>,
    sources: Seq<ObservedSource>,
) -> Map<Seq<char>, SourceFingerprint>
    decreases sources.len(),
{
    if sources.len() == 0 {
        known
    } else {
        with_fingerprints(known, sources.drop_last()).insert(
            sources.last().rel_path@,
            sources.last().fingerprint,
        )
    }
}

/// Some source changed.
pub open spec fn any_changed(
    expected: Map<Seq<char>, SourceFingerprint>,
    sources: Seq<ObservedSource>,
) -> bool {
    exists|i: int| 0 <= i < sources.len() && !unchanged(expected, #[trigger] sources[i])
}

/// The fingerprints of everything that was found.
pub open spec fn observed_fingerprints(found: ObservedSources) -> Map<
    Seq<char>,
    SourceFingerprint,
> {
    let files = with_fingerprints(
        with_fingerprints(with_fingerprints(Map::empty(), found.goals@), found.features@),
        found.logs@,
    );
    let logged = match found.activity {
        Some(a) => files.insert(a.rel_path@, a.fingerprint),
        None => files,
    };
    match found.git_head {
        Some(h) => logged.insert(h.path@, h),
        None => logged,
    }
}

/// What kind of source a path that is no longer found was.
#[derive(Clone, Copy, Debug, PartialEq, Eq, Structural)]
pub enum SourceKind {
    Goal,
    Feature,
    Activity,
    GitHead,
    Other,
}

/// The kind of source at a path, by its name.
pub open spec fn kind_of(path: Seq<char>, activity_file: Seq<char>) -> SourceKind {
    if crate::text::finishes_with(path, "/goal.json"@) {
        SourceKind::Goal
    } else if crate::text::finishes_with(path, "/feature.json"@) {
        SourceKind::Feature
    } else if crate::text::finishes_with(path, "logs.jsonl"@) || crate::text::finishes_with(
        path,
        activity_file,
    ) {
        SourceKind::Activity
    } else if path == "git:HEAD"@ {
        SourceKind::GitHead
    } else {
        SourceKind::Other
    }
}

fn source_kind(path: &str, activity_file: &str) -> (r: SourceKind)
    ensures
        r == kind_of(path@, activity_file@),
{
    if ends_with_text(path, "/goal.json") {
        SourceKind::Goal
    } else if ends_with_text(path, "/feature.json") {
        SourceKind::Feature
    } else if ends_with_text(path, "logs.jsonl") || ends_with_text(path, activity_file) {
        SourceKind::Activity
    } else if text_eq(path, "git:HEAD") {
        SourceKind::GitHead
    } else {
        SourceKind::Other
    }
}

/// The known paths of a kind that were not found, in order.
pub open spec fn missing_paths(
    known: Seq<Seq<char>>,
    found: Map<Seq<char>, SourceFingerprint>,
    kind: SourceKind,
    activity_file: Seq<char>,
) -> Seq<Seq<char>>
    decreases known.len(),
{
    if known.len() == 0 {
        Seq::empty()
    } else {
        let before = missing_paths(known.drop_last(), found, kind, activity_file);
        if !found.contains_key(known.last()) && kind_of(known.last(), activity_file) == kind {
            before.push(known.last())
        } else {
            before
        }
    }
}

/// The Git head is not as the projection knew it.
pub open spec fn head_moved(
    expected: Map<Seq<char>, SourceFingerprint>,
    head: Option<SourceFingerprint>,
) -> bool {
    match head {
        Some(h) => !expected.contains_key(h.path@) || crate::text::maybe_view(
            expected[h.path@].content_hash,
        ) != crate::text::maybe_view(h.content_hash),
        None => false,
    }
}

/// A delta is what the sources that were found say of the known ones.
pub open spec fn delta_of(
    expected: Map<Seq<char>, SourceFingerprint>,
    known: Seq<Seq<char>>,
    found: ObservedSources,
    activity_file: Seq<char>,
    delta: SourceDelta,
) -> bool {
    let seen = observed_fingerprints(found);
    &&& delta.fingerprints@ == seen
    &&& crate::text::views(delta.goals_changed@) == changed_paths(expected, found.goals@)
    &&& crate::text::views(delta.goals_added@) == added_paths(expected, found.goals@)
    &&& crate::text::views(delta.features_changed@) == changed_paths(expected, found.features@)
    &&& crate::text::views(delta.goals_removed@) == missing_paths(
        known,
        seen,
        SourceKind::Goal,
        activity_file,
    )
    &&& crate::text::views(delta.features_removed@) == missing_paths(
        known,
        seen,
        SourceKind::Feature,
        activity_file,
    )
    &&& delta.activity_changed == (any_changed(expected, found.logs@) || (
    found.activity matches Some(a) && !unchanged(expected, a)) || missing_paths(
        known,
        seen,
        SourceKind::Activity,
        activity_file,
    ).len() > 0)
    &&& delta.git_head_changed == (head_moved(expected, found.git_head) || missing_paths(
        known,
        seen,
        SourceKind::Other,
        activity_file,
    ).len() > 0)
}

fn is_unchanged(expected: &TextMap<SourceFingerprint>, source: &ObservedSource) -> (r: bool)
    ensures
        r == unchanged(expected@, *source),
{
    match expected.get(source.rel_path.as_str()) {
        Some(previous) => fingerprint_matches(previous, &source.fingerprint),
        None => false,
    }
}

fn push_text(list: &mut Vec<String>, item: &str)
    ensures
        crate::text::views(final(list)@) == crate::text::views(old(list)@).push(item@),
{
    let ghost before = list@;
    list.push(item.to_owned());
    assert(crate::text::views(list@) =~= crate::text::views(before).push(item@));
}

fn collect_fingerprints(known: &mut TextMap<SourceFingerprint>, sources: &Vec<ObservedSource>)
    ensures
        final(known)@ == with_fingerprints(old(known)@, sources@),
{
    let ghost before = known@;
    let mut i: usize = 0;
    assert(sources@.take(0) =~= Seq::<ObservedSource>::empty());
    while i < sources.len()
        invariant
            i <= sources.len(),
            known@ == with_fingerprints(before, sources@.take(i as int)),
        decreases sources.len() - i,
    {
        assert(sources@.take(i as int + 1).drop_last() =~= sources@.take(i as int));
        known.insert(sources[i].rel_path.clone(), sources[i].fingerprint.clone());
        i = i + 1;
    }
    assert(sources@.take(sources.len() as int) =~= sources@);
}

fn collect_changed(expected: &TextMap<SourceFingerprint>, sources: &Vec<ObservedSource>) -> (r: Vec<
    String,
>)
    ensures
        crate::text::views(r@) == changed_paths(expected@, sources@),
        forall|path: Seq<char>| #[trigger]
            crate::text::views(r@).contains(path) <==> found_changed(expected@, sources@, path),
        (r@.len() > 0) == any_changed(expected@, sources@),
{
    let mut out: Vec<String> = Vec::new();
    let mut i: usize = 0;
    assert(sources@.take(0) =~= Seq::<ObservedSource>::empty());
    assert(crate::text::views(out@) =~= Seq::<Seq<char>>::empty());
    while i < sources.len()
        invariant
            i <= sources.len(),
            crate::text::views(out@) == changed_paths(expected@, sources@.take(i as int)),
            (out@.len() > 0) == exists|j: int|
                0 <= j < i && !unchanged(expected@, #[trigger] sources@[j]),
        decreases sources.len() - i,
    {
        assert(sources@.take(i as int + 1).drop_last() =~= sources@.take(i as int));
        let ghost had = out@.len() > 0;
        if !is_unchanged(expected, &sources[i]) {
            push_text(&mut out, sources[i].rel_path.as_str());
            assert(crate::text::views(out@).len() > 0);
            assert(!unchanged(expected@, sources@[i as int]));
        }
        proof {
            if had {
                let j = choose|j: int|
                    0 <= j < i && !unchanged(expected@, #[trigger] sources@[j]);
                assert(0 <= j < i + 1);
            }
        }
        i = i + 1;
    }
    assert(sources@.take(sources.len() as int) =~= sources@);
    assert forall|path: Seq<char>| #[trigger]
        crate::text::views(out@).contains(path) <==> found_changed(expected@, sources@, path) by {
        changed_paths_are_exact(expected@, sources@, path);
    }
    out
}

fn collect_added(expected: &TextMap<SourceFingerprint>, sources: &Vec<ObservedSource>) -> (r: Vec<
    String,
>)
    ensures
        crate::text::views(r@) == added_paths(expected@, sources@),
        forall|path: Seq<char>| #[trigger]
            crate::text::views(r@).contains(path) <==> found_at(sources@, path)
                && !expected@.contains_key(path),
{
    let mut out: Vec<String> = Vec::new();
    let mut i: usize = 0;
    assert(sources@.take(0) =~= Seq::<ObservedSource>::empty());
    assert(crate::text::views(out@) =~= Seq::<Seq<char>>::empty());
    while i < sources.len()
        invariant
            i <= sources.len(),
            crate::text::views(out@) == added_paths(expected@, sources@.take(i as int)),
        decreases sources.len() - i,
    {
        assert(sources@.take(i as int + 1).drop_last() =~= sources@.take(i as int));
        if !expected.contains_key(sources[i].rel_path.as_str()) {
            push_text(&mut out, sources[i].rel_path.as_str());
        }
        i = i + 1;
    }
    assert(sources@.take(sources.len() as int) =~= sources@);
    assert forall|path: Seq<char>| #[trigger]
        crate::text::views(out@).contains(path) <==> found_at(sources@, path)
            && !expected@.contains_key(path) by {
        changed_paths_are_exact(expected@, sources@, path);
    }
    out
}

fn collect_missing(
    expected: &TextMap<SourceFingerprint>,
    found: &TextMap<SourceFingerprint>,
    kind: SourceKind,
    activity_file: &str,
) -> (r: Vec<String>)
    ensures
        crate::text::views(r@) == missing_paths(expected.keys(), found@, kind, activity_file@),
        forall|path: Seq<char>| #[trigger]
            crate::text::views(r@).contains(path) <==> expected@.contains_key(path)
                && !found@.contains_key(path) && kind_of(path, activity_file@) == kind,
{
    let mut out: Vec<String> = Vec::new();
    let n: usize = expected.len();
    let mut i: usize = 0;
    assert(expected.keys().take(0) =~= Seq::<Seq<char>>::empty());
    assert(crate::text::views(out@) =~= Seq::<Seq<char>>::empty());
    while i < n
        invariant
            i <= n == expected.keys().len(),
            crate::text::views(out@) == missing_paths(
                expected.keys().take(i as int),
                found@,
                kind,
                activity_file@,
            ),
        decreases n - i,
    {
        assert(expected.keys().take(i as int + 1).drop_last() =~= expected.keys().take(i as int));
        let path = expected.key_at(i);
        if !found.contains_key(path.as_str()) && source_kind(path.as_str(), activity_file) == kind {
            push_text(&mut out, path.as_str());
        }
        i = i + 1;
    }
    assert(expected.keys().take(n as int) =~= expected.keys());
    assert forall|path: Seq<char>| #[trigger]
        crate::text::views(out@).contains(path) <==> expected@.contains_key(path)
            && !found@.contains_key(path) && kind_of(path, activity_file@) == kind by {
        let keys = expected.keys();
        missing_paths_are_exact(keys, found@, kind, activity_file@, path);
        if keys.contains(path) {
            assert(expected@.contains_key(keys[keys.index_of(path)]));
        }
    }
    out
}

/// A source with a path was found, and the projection knew it otherwise or not
/// at all.
pub open spec fn found_changed(
    expected: Map<Seq<char>, SourceFingerprint>,
    sources: Seq<ObservedSource>,
    path: Seq<char>,
) -> bool {
    exists|i: int|
        0 <= i < sources.len() && (#[trigger] sources[i]).rel_path@ == path && !unchanged(
            expected,
            sources[i],
        )
}

/// A source with a path was found.
pub open spec fn found_at(sources: Seq<ObservedSource>, path: Seq<char>) -> bool {
    exists|i: int| 0 <= i < sources.len() && (#[trigger] sources[i]).rel_path@ == path
}

proof fn pushed_paths_are_held(paths: Seq<Seq<char>>, last: Seq<char>, path: Seq<char>)
    ensures
        paths.push(last).contains(path) <==> paths.contains(path) || path == last,
{
    let long = paths.push(last);
    if paths.contains(path) {
        assert(long[paths.index_of(path)] == path);
    }
    assert(long[paths.len() as int] == last);
    if long.contains(path) {
        let i = long.index_of(path);
        if i < paths.len() {
            assert(paths[i] == path);
        }
    }
}

proof fn changed_paths_are_exact(
    expected: Map<Seq<char>, SourceFingerprint>,
    sources: Seq<ObservedSource>,
    path: Seq<char>,
)
    ensures
        changed_paths(expected, sources).contains(path) <==> found_changed(expected, sources, path),
        added_paths(expected, sources).contains(path) <==> found_at(sources, path)
            && !expected.contains_key(path),
    decreases sources.len(),
{
    if sources.len() > 0 {
        let short = sources.drop_last();
        let last = sources.last();
        changed_paths_are_exact(expected, short, path);
        pushed_paths_are_held(changed_paths(expected, short), last.rel_path@, path);
        pushed_paths_are_held(added_paths(expected, short), last.rel_path@, path);
        if found_changed(expected, short, path) {
            let i = choose|i: int|
                0 <= i < short.len() && (#[trigger] short[i]).rel_path@ == path && !unchanged(
                    expected,
                    short[i],
                );
            assert(sources[i] == short[i]);
        }
        if found_changed(expected, sources, path) {
            let i = choose|i: int|
                0 <= i < sources.len() && (#[trigger] sources[i]).rel_path@ == path && !unchanged(
                    expected,
                    sources[i],
                );
            if i < short.len() {
                assert(short[i] == sources[i]);
            }
        }
        if found_at(short, path) {
            let i = choose|i: int| 0 <= i < short.len() && (#[trigger] short[i]).rel_path@ == path;
            assert(sources[i] == short[i]);
        }
        if found_at(sources, path) {
            let i = choose|i: int|
                0 <= i < sources.len() && (#[trigger] sources[i]).rel_path@ == path;
            if i < short.len() {
                assert(short[i] == sources[i]);
            }
        }
        assert(sources[sources.len() - 1] == last);
    }
}

proof fn missing_paths_are_exact(
    known: Seq<Seq<char>>,
    found: Map<Seq<char>, SourceFingerprint>,
    kind: SourceKind,
    activity_file: Seq<char>,
    path: Seq<char>,
)
    ensures
        missing_paths(known, found, kind, activity_file).contains(path) <==> known.contains(path)
            && !found.contains_key(path) && kind_of(path, activity_file) == kind,
    decreases known.len(),
{
    if known.len() > 0 {
        let short = known.drop_last();
        missing_paths_are_exact(short, found, kind, activity_file, path);
        pushed_paths_are_held(
            missing_paths(short, found, kind, activity_file),
            known.last(),
            path,
        );
        pushed_paths_are_held(short, known.last(), path);
        assert(short.push(known.last()) =~= known);
    }
}

/// Compares the sources that were found with the fingerprints of a projection.
pub fn source_delta(
    expected: &TextMap<SourceFingerprint>,
    found: &ObservedSources,
    activity_file: &str,
) -> (r: SourceDelta)
    ensures
        delta_of(expected@, expected.keys(), *found, activity_file@, r),
        forall|path: Seq<char>| #[trigger]
            crate::text::views(r.goals_changed@).contains(path) <==> found_changed(
                expected@,
                found.goals@,
                path,
            ),
        forall|path: Seq<char>| #[trigger]
            crate::text::views(r.goals_added@).contains(path) <==> found_at(found.goals@, path)
                && !expected@.contains_key(path),
        forall|path: Seq<char>| #[trigger]
            crate::text::views(r.goals_removed@).contains(path) <==> expected@.contains_key(path)
                && crate::text::finishes_with(path, "/goal.json"@) && !r.fingerprints@.contains_key(
                path,
            ),
        forall|path: Seq<char>| #[trigger]
            crate::text::views(r.features_changed@).contains(path) <==> found_changed(
                expected@,
                found.features@,
                path,
            ),
        forall|path: Seq<char>| #[trigger]
            crate::text::views(r.features_removed@).contains(path) <==> expected@.contains_key(path)
                && kind_of(path, activity_file@) == SourceKind::Feature
                && !r.fingerprints@.contains_key(path),
{
    let goals_changed = collect_changed(expected, &found.goals);
    let goals_added = collect_added(expected, &found.goals);
    let features_changed = collect_changed(expected, &found.features);
    let logs_changed = collect_changed(expected, &found.logs);
    let mut fingerprints: TextMap<SourceFingerprint> = TextMap::new();
    collect_fingerprints(&mut fingerprints, &found.goals);
    collect_fingerprints(&mut fingerprints, &found.features);
    collect_fingerprints(&mut fingerprints, &found.logs);
    let mut activity_changed = logs_changed.len() > 0;
    if let Some(activity) = &found.activity {
        if !is_unchanged(expected, activity) {
            activity_changed = true;
        }
        fingerprints.insert(activity.rel_path.clone(), activity.fingerprint.clone());
    }
    let mut git_head_changed = false;
    if let Some(head) = &found.git_head {
        git_head_changed = match expected.get(head.path.as_str()) {
            Some(previous) => !maybe_text_eq(
                &previous.content_hash,
                &head.content_hash,
            ),
            None => true,
        };
        fingerprints.insert(head.path.clone(), head.clone());
    }
    let goals_removed = collect_missing(expected, &fingerprints, SourceKind::Goal, activity_file);
    let features_removed = collect_missing(
        expected,
        &fingerprints,
        SourceKind::Feature,
        activity_file,
    );
    let logs_removed = collect_missing(
        expected,
        &fingerprints,
        SourceKind::Activity,
        activity_file,
    );
    let others_removed = collect_missing(expected, &fingerprints, SourceKind::Other, activity_file);
    assert(crate::text::views(logs_removed@).len() == logs_removed@.len());
    assert(crate::text::views(others_removed@).len() == others_removed@.len());
    SourceDelta {
        goals_changed,
        goals_added,
        goals_removed,
        features_changed,
        features_removed,
        activity_changed: activity_changed || logs_removed.len() > 0,
        git_head_changed: git_head_changed || others_removed.len() > 0,
        fingerprints,
    }
}

/// A delta without any change.
pub open spec fn nothing_changed(delta: SourceDelta) -> bool {
    delta.goals_changed@.len() == 0 && delta.goals_removed@.len() == 0
        && delta.features_changed@.len() == 0 && delta.features_removed@.len() == 0
        && !delta.activity_changed && !delta.git_head_changed
}

impl SourceDelta {
    /// Tells whether nothing changed.
    pub fn is_empty(&self) -> (r: bool)
        ensures
            r == nothing_changed(*self),
    {
        self.goals_changed.len() == 0 && self.goals_removed.len() == 0
            && self.features_changed.len() == 0 && self.features_removed.len() == 0
            && !self.activity_changed && !self.git_head_changed
    }
}

/// The goals without those that were read from a path.
pub open spec fn without_goal_path(
    goals: Map<Seq<char>, GoalSummaryProjection>,
    path: Seq<char>,
) -> Map<Seq<char>, GoalSummaryProjection> {
    goals.restrict(
        Set::new(
            |k: Seq<char>| goals.contains_key(k) && goals[k].goal.json_path@ != path,
        ),
    )
}

/// The goals without those that were read from any of the paths.
pub open spec fn without_goal_paths(
    goals: Map<Seq<char>, GoalSummaryProjection>,
    paths: Seq<Seq<char>>,
) -> Map<Seq<char>, GoalSummaryProjection>
    decreases paths.len(),
{
    if paths.len() == 0 {
        goals
    } else {
        without_goal_path(without_goal_paths(goals, paths.drop_last()), paths.last())
    }
}

/// The entries of a map whose keys are not listed.
pub open spec fn without_keys<V>(
    items: Map<Seq<char>, V>,
    keys: Seq<Seq<char>>,
) -> Map<Seq<char>, V> {
    items.restrict(Set::new(|k: Seq<char>| items.contains_key(k) && !keys.contains(k)))
}

fn drop_keys<V>(items: &mut TextMap<V>, doomed: &Vec<String>)
    ensures
        final(items)@ == without_keys(old(items)@, crate::text::views(doomed@)),
{
    let ghost before = items@;
    let mut d: usize = 0;
    while d < doomed.len()
        invariant
            d <= doomed.len(),
            forall|k: Seq<char>| #[trigger]
                items@.contains_key(k) <==> before.contains_key(k) && !crate::text::views(
                    doomed@.take(d as int),
                ).contains(k),
            forall|k: Seq<char>| #[trigger] items@.contains_key(k) ==> items@[k] == before[k],
        decreases doomed.len() - d,
    {
        let ghost short = crate::text::views(doomed@.take(d as int));
        let ghost long = crate::text::views(doomed@.take(d as int + 1));
        let _ = items.remove(doomed[d].as_str());
        proof {
            assert(long =~= short.push(doomed@[d as int]@));
            assert forall|k: Seq<char>| #[trigger] long.contains(k) <==> short.contains(k) || k
                == doomed@[d as int]@ by {
                if short.contains(k) {
                    let j = short.index_of(k);
                    assert(long[j] == k);
                }
                assert(long[d as int] == doomed@[d as int]@);
                if long.contains(k) && k != doomed@[d as int]@ {
                    let j = long.index_of(k);
                    assert(short[j] == k);
                }
            }
        }
        d = d + 1;
    }
    assert(doomed@.take(doomed.len() as int) =~= doomed@);
    assert(items@ =~= without_keys(before, crate::text::views(doomed@)));
}

fn drop_goal_path(goals: &mut TextMap<GoalSummaryProjection>, path: &str)
    ensures
        final(goals)@ == without_goal_path(old(goals)@, path@),
{
    let ghost before = goals@;
    let n: usize = goals.len();
    let ghost keys = goals.keys();
    let mut doomed: Vec<String> = Vec::new();
    let mut i: usize = 0;
    while i < n
        invariant
            i <= n == goals.keys().len() == goals.values().len(),
            keys == goals.keys(),
            before == goals@,
            forall|j: int|
                0 <= j < n ==> before.contains_key(#[trigger] keys[j]) && before[keys[j]]
                    == goals.values()[j],
            forall|j: int|
                0 <= j < i && before[#[trigger] keys[j]].goal.json_path@ == path@
                    ==> crate::text::views(doomed@).contains(keys[j]),
            forall|j: int|
                0 <= j < doomed@.len() ==> before.contains_key((#[trigger] doomed@[j])@)
                    && before[doomed@[j]@].goal.json_path@ == path@,
        decreases n - i,
    {
        if text_eq(goals.value_at(i).goal.json_path.as_str(), path) {
            let ghost old_views = crate::text::views(doomed@);
            doomed.push(goals.key_at(i).clone());
            proof {
                let new_views = crate::text::views(doomed@);
                assert(new_views =~= old_views.push(keys[i as int]));
                assert(new_views[old_views.len() as int] == keys[i as int]);
                assert forall|j: int|
                    0 <= j < i && before[#[trigger] keys[j]].goal.json_path@
                        == path@ implies new_views.contains(keys[j]) by {
                    let k = old_views.index_of(keys[j]);
                    assert(new_views[k] == keys[j]);
                }
            }
        }
        i = i + 1;
    }
    drop_keys(goals, &doomed);
    proof {
        assert forall|k: Seq<char>|
            goals@.contains_key(k) == without_goal_path(before, path@).contains_key(k) by {
            if before.contains_key(k) {
                assert(keys.contains(k));
                let j = keys.index_of(k);
                assert(keys[j] == k);
                if crate::text::views(doomed@).contains(k) {
                    let m = crate::text::views(doomed@).index_of(k);
                    assert(doomed@[m]@ == k);
                }
            }
        }
        assert(goals@ =~= without_goal_path(before, path@));
    }
}

/// The features without those that were read from any of the paths.
pub open spec fn without_feature_paths(
    features: Map<Seq<char>, FeatureSummaryProjection>,
    paths: Seq<Seq<char>>,
) -> Map<Seq<char>, FeatureSummaryProjection> {
    features.restrict(
        Set::new(
            |k: Seq<char>|
                features.contains_key(k) && !paths.contains(features[k].feature.json_path@),
        ),
    )
}

fn drop_feature_paths(features: &mut TextMap<FeatureSummaryProjection>, paths: &Vec<String>)
    ensures
        final(features)@ == without_feature_paths(old(features)@, crate::text::views(paths@)),
{
    let ghost before = features@;
    let ghost gone = crate::text::views(paths@);
    let n: usize = features.len();
    let ghost keys = features.keys();
    let mut doomed: Vec<String> = Vec::new();
    let mut i: usize = 0;
    while i < n
        invariant
            i <= n == features.keys().len() == features.values().len(),
            keys == features.keys(),
            before == features@,
            gone == crate::text::views(paths@),
            forall|j: int|
                0 <= j < n ==> before.contains_key(#[trigger] keys[j]) && before[keys[j]]
                    == features.values()[j],
            forall|j: int|
                0 <= j < i && gone.contains(before[#[trigger] keys[j]].feature.json_path@)
                    ==> crate::text::views(doomed@).contains(keys[j]),
            forall|j: int|
                0 <= j < doomed@.len() ==> before.contains_key((#[trigger] doomed@[j])@)
                    && gone.contains(before[doomed@[j]@].feature.json_path@),
        decreases n - i,
    {
        if list_contains(paths, features.value_at(i).feature.json_path.as_str()) {
            let ghost old_views = crate::text::views(doomed@);
            doomed.push(features.key_at(i).clone());
            proof {
                let new_views = crate::text::views(doomed@);
                assert(new_views =~= old_views.push(keys[i as int]));
                assert(new_views[old_views.len() as int] == keys[i as int]);
                assert forall|j: int|
                    0 <= j < i && gone.contains(
                        before[#[trigger] keys[j]].feature.json_path@,
                    ) implies new_views.contains(keys[j]) by {
                    let k = old_views.index_of(keys[j]);
                    assert(new_views[k] == keys[j]);
                }
            }
        }
        i = i + 1;
    }
    drop_keys(features, &doomed);
    proof {
        assert forall|k: Seq<char>|
            features@.contains_key(k) == without_feature_paths(before, gone).contains_key(k) by {
            if before.contains_key(k) {
                assert(keys.contains(k));
                let j = keys.index_of(k);
                assert(keys[j] == k);
                if crate::text::views(doomed@).contains(k) {
                    let m = crate::text::views(doomed@).index_of(k);
                    assert(doomed@[m]@ == k);
                }
            }
        }
        assert(features@ =~= without_feature_paths(before, gone));
    }
}

/// The features that a patch derives anew: those that are neither removed nor
/// changed, in order of their ids, then the changed ones as they were read
/// again.
pub open spec fn kept_features(
    features: Seq<FeatureSummaryProjection>,
    removed: Seq<Seq<char>>,
    changed: Seq<Seq<char>>,
) -> Seq<FeatureIndexProjection>
    decreases features.len(),
{
    if features.len() == 0 {
        Seq::empty()
    } else {
        let before = kept_features(features.drop_last(), removed, changed);
        let path = features.last().feature.json_path@;
        if removed.contains(path) || changed.contains(path) {
            before
        } else {
            before.push(features.last().feature)
        }
    }
}

/// The records that could be read.
pub open spec fn present<T>(items: Seq<Option<T>>) -> Seq<T>
    decreases items.len(),
{
    if items.len() == 0 {
        Seq::empty()
    } else {
        match items.last() {
            Some(x) => present(items.drop_last()).push(x),
            None => present(items.drop_last()),
        }
    }
}

/// Repairs a projection from a delta. `reread_goals` and `reread_features`
/// hold what was read again from the changed paths, one for one.
///
/// The dashboard counts the repaired goals, and removed features are gone. What
/// needs more than the records is left to the caller: to derive the rollups of
/// the features in `feature_records` and to read the activity and the changes
/// again where that is due, all of which `ProjectionPatch::complete` takes, and
/// to renew the activity ids of the goals and of the dashboard.
pub fn patch_projection(
    snapshot: ProjectionSnapshot,
    delta: SourceDelta,
    refine_dir: &str,
    reread_goals: &Vec<Option<GoalSummaryProjection>>,
    reread_features: &Vec<Option<FeatureIndexProjection>>,
) -> (r: ProjectionPatch)
    requires
        reread_goals@.len() == delta.goals_changed@.len(),
    ensures
        goals_patched(snapshot.goals@, delta, reread_goals@, r.snapshot.goals@),
        r.feature_records@ == kept_features(
            snapshot.features.values(),
            crate::text::views(delta.features_removed@),
            crate::text::views(delta.features_changed@),
        ) + present(reread_features@),
        r.rescan_activity == (delta.activity_changed || delta.goals_added@.len() > 0
            || delta.goals_removed@.len() > 0),
        r.rescan_changes == delta.git_head_changed,
        r.snapshot.source_fingerprints == delta.fingerprints,
        r.snapshot.generated_at@ == "unknown"@,
        crate::text::maybe_view(r.snapshot.refine_dir) == Some(refine_dir@),
        r.snapshot.version == snapshot.version,
        r.snapshot.activity == snapshot.activity,
        r.snapshot.changes == snapshot.changes,
        r.snapshot.features@ == without_feature_paths(
            snapshot.features@,
            crate::text::views(delta.features_removed@),
        ),
        forall|k: Seq<char>| #[trigger]
            r.snapshot.features@.contains_key(k) ==> !crate::text::views(
                delta.features_removed@,
            ).contains(r.snapshot.features@[k].feature.json_path@),
        counts_goals(r.snapshot.dashboard.all_node_status_counts, r.snapshot.goals),
        r.snapshot.dashboard.recent_activity_ids == snapshot.dashboard.recent_activity_ids,
{
    let mut snapshot = snapshot;
    let mut goals = snapshot.goals;
    let ghost start = goals@;
    let mut i: usize = 0;
    assert(crate::text::views(delta.goals_removed@.take(0)) =~= Seq::<Seq<char>>::empty());
    while i < delta.goals_removed.len()
        invariant
            i <= delta.goals_removed.len(),
            goals@ == without_goal_paths(
                start,
                crate::text::views(delta.goals_removed@.take(i as int)),
            ),
        decreases delta.goals_removed.len() - i,
    {
        assert(crate::text::views(delta.goals_removed@.take(i as int + 1)).drop_last()
            =~= crate::text::views(delta.goals_removed@.take(i as int)));
        drop_goal_path(&mut goals, delta.goals_removed[i].as_str());
        i = i + 1;
    }
    assert(delta.goals_removed@.take(delta.goals_removed.len() as int) =~= delta.goals_removed@);
    let ghost middle = goals@;
    let ghost pieces = summaries(reread_goals@);
    let mut k: usize = 0;
    assert(crate::text::views(delta.goals_changed@.take(0)) =~= Seq::<Seq<char>>::empty());
    assert(goal_contents(goals@) == patched_contents(
        middle,
        crate::text::views(delta.goals_changed@.take(0)),
        pieces,
    ));
    while k < delta.goals_changed.len()
        invariant
            k <= delta.goals_changed.len() == reread_goals@.len(),
            pieces == summaries(reread_goals@),
            goal_contents(goals@) == patched_contents(
                middle,
                crate::text::views(delta.goals_changed@.take(k as int)),
                pieces,
            ),
        decreases delta.goals_changed.len() - k,
    {
        let ghost paths = crate::text::views(delta.goals_changed@.take(k as int + 1));
        assert(paths.drop_last() =~= crate::text::views(delta.goals_changed@.take(k as int)));
        assert(paths.last() == delta.goals_changed@[k as int]@);
        let ghost before = goals@;
        drop_goal_path(&mut goals, delta.goals_changed[k].as_str());
        let ghost dropped = goals@;
        proof {
            dropping_keeps_contents(before, paths.last());
        }
        if let Some(p) = &reread_goals[k] {
            let p = p.clone();
            goals.insert(p.goal.id.clone(), p);
            assert(goal_contents(goals@) =~= goal_contents(dropped).insert(p.goal.id@, p@));
        }
        k = k + 1;
    }
    assert(delta.goals_changed@.take(delta.goals_changed.len() as int) =~= delta.goals_changed@);
    let mut feature_records: Vec<FeatureIndexProjection> = Vec::new();
    let n: usize = snapshot.features.len();
    let ghost features = snapshot.features.values();
    let ghost removed = crate::text::views(delta.features_removed@);
    let ghost changed = crate::text::views(delta.features_changed@);
    let mut f: usize = 0;
    assert(features.take(0) =~= Seq::<FeatureSummaryProjection>::empty());
    while f < n
        invariant
            f <= n == snapshot.features.keys().len() == snapshot.features.values().len(),
            features == snapshot.features.values(),
            removed == crate::text::views(delta.features_removed@),
            changed == crate::text::views(delta.features_changed@),
            feature_records@ == kept_features(features.take(f as int), removed, changed),
        decreases n - f,
    {
        assert(features.take(f as int + 1).drop_last() =~= features.take(f as int));
        let feature = snapshot.features.value_at(f);
        let path = feature.feature.json_path.as_str();
        if !list_contains(&delta.features_removed, path) && !list_contains(
            &delta.features_changed,
            path,
        ) {
            feature_records.push(feature.feature.clone());
        }
        f = f + 1;
    }
    assert(features.take(n as int) =~= features);
    let ghost kept = feature_records@;
    let mut m: usize = 0;
    assert(reread_features@.take(0) =~= Seq::<Option<FeatureIndexProjection>>::empty());
    assert(feature_records@ =~= kept + present(reread_features@.take(0)));
    while m < reread_features.len()
        invariant
            m <= reread_features.len(),
            feature_records@ == kept + present(reread_features@.take(m as int)),
        decreases reread_features.len() - m,
    {
        assert(reread_features@.take(m as int + 1).drop_last() =~= reread_features@.take(
            m as int,
        ));
        if let Some(feature) = &reread_features[m] {
            let ghost before = feature_records@;
            feature_records.push(feature.clone());
            assert(feature_records@ =~= kept + present(reread_features@.take(m as int + 1)));
        }
        m = m + 1;
    }
    assert(reread_features@.take(reread_features.len() as int) =~= reread_features@);
    let rescan_activity = delta.activity_changed || delta.goals_added.len() > 0
        || delta.goals_removed.len() > 0;
    let mut features = snapshot.features;
    drop_feature_paths(&mut features, &delta.features_removed);
    let all_node_status_counts = status_counts_of(&goals);
    ProjectionPatch {
        snapshot: ProjectionSnapshot {
            version: snapshot.version,
            generated_at: "unknown".to_owned(),
            refine_dir: Some(refine_dir.to_owned()),
            source_fingerprints: delta.fingerprints,
            goals,
            features,
            activity: snapshot.activity,
            changes: snapshot.changes,
            dashboard: DashboardProjection {
                recent_activity_ids: snapshot.dashboard.recent_activity_ids,
                all_node_status_counts,
            },
        },
        feature_records,
        rescan_activity,
        rescan_changes: delta.git_head_changed,
    }
}

/// The counts of a dashboard are those of the goals' statuses.
pub open spec fn counts_goals(
    counts: crate::model::StatusCounts,
    goals: TextMap<GoalSummaryProjection>,
) -> bool {
    forall|s: GoalStatus| #[trigger]
        counts.count(s) == crate::model::occurrences(
            crate::project_state::query::statuses_of(
                crate::project_state::query::goals_of(goals.values()),
            ),
            s,
        )
}

impl ProjectionPatch {
    /// Puts what was derived and read again into the repaired projection: the
    /// features with their rollups, and the activity and the changes where they
    /// were to be read again.
    pub fn complete(
        self,
        features: TextMap<FeatureSummaryProjection>,
        activity: TextMap<ActivitySummaryProjection>,
        changes: TextMap<ChangeSummaryProjection>,
    ) -> (r: ProjectionSnapshot)
        ensures
            r.goals == self.snapshot.goals,
            r.features == features,
            r.activity == (if self.rescan_activity {
                activity
            } else {
                self.snapshot.activity
            }),
            r.changes == (if self.rescan_changes {
                changes
            } else {
                self.snapshot.changes
            }),
            counts_goals(r.dashboard.all_node_status_counts, r.goals),
            r.dashboard.recent_activity_ids == self.snapshot.dashboard.recent_activity_ids,
            r.source_fingerprints == self.snapshot.source_fingerprints,
            r.generated_at == self.snapshot.generated_at,
            r.refine_dir == self.snapshot.refine_dir,
            r.version == self.snapshot.version,
    {
        let snapshot = self.snapshot;
        let all_node_status_counts = status_counts_of(&snapshot.goals);
        ProjectionSnapshot {
            version: snapshot.version,
            generated_at: snapshot.generated_at,
            refine_dir: snapshot.refine_dir,
            source_fingerprints: snapshot.source_fingerprints,
            goals: snapshot.goals,
            features,
            activity: if self.rescan_activity {
                activity
            } else {
                snapshot.activity
            },
            changes: if self.rescan_changes {
                changes
            } else {
                snapshot.changes
            },
            dashboard: DashboardProjection {
                recent_activity_ids: snapshot.dashboard.recent_activity_ids,
                all_node_status_counts,
            },
        }
    }
}

/// Goals by the views of their summaries.
pub open spec fn goal_contents(goals: Map<Seq<char>, GoalSummaryProjection>) -> Map<
    Seq<char>,
    crate::model::GoalSummaryView,
> {
    Map::new(|k: Seq<char>| goals.contains_key(k), |k: Seq<char>| goals[k]@)
}

/// Summaries by their views.
pub open spec fn summaries(items: Seq<Option<GoalSummaryProjection>>) -> Seq<
    Option<crate::model::GoalSummaryView>,
> {
    items.map_values(
        |p: Option<GoalSummaryProjection>|
            match p {
                Some(x) => Some(x@),
                None => None,
            },
    )
}

/// The contents without the goals that were read from a path.
pub open spec fn contents_without_path(
    goals: Map<Seq<char>, crate::model::GoalSummaryView>,
    path: Seq<char>,
) -> Map<Seq<char>, crate::model::GoalSummaryView> {
    goals.restrict(
        Set::new(|k: Seq<char>| goals.contains_key(k) && goals[k].goal.json_path@ != path),
    )
}

/// The contents after the changed paths were read again. A record stands under
/// its id, not its path, so a goal whose id was corrected does not survive
/// under its previous one.
pub open spec fn patched_contents(
    goals: Map<Seq<char>, GoalSummaryProjection>,
    paths: Seq<Seq<char>>,
    reread: Seq<Option<crate::model::GoalSummaryView>>,
) -> Map<Seq<char>, crate::model::GoalSummaryView>
    decreases paths.len(),
{
    if paths.len() == 0 {
        goal_contents(goals)
    } else {
        let before = contents_without_path(
            patched_contents(goals, paths.drop_last(), reread),
            paths.last(),
        );
        match reread[paths.len() - 1] {
            Some(p) => before.insert(p.goal.id@, p),
            None => before,
        }
    }
}

proof fn dropping_keeps_contents(goals: Map<Seq<char>, GoalSummaryProjection>, path: Seq<char>)
    ensures
        goal_contents(without_goal_path(goals, path)) == contents_without_path(
            goal_contents(goals),
            path,
        ),
{
    assert(goal_contents(without_goal_path(goals, path)) =~= contents_without_path(
        goal_contents(goals),
        path,
    ));
}

/// The goals of a repaired projection: the removed ones are gone, the changed
/// ones are as they were read again, all others are as they were.
pub open spec fn goals_patched(
    before: Map<Seq<char>, GoalSummaryProjection>,
    delta: SourceDelta,
    reread: Seq<Option<GoalSummaryProjection>>,
    after: Map<Seq<char>, GoalSummaryProjection>,
) -> bool {
    goal_contents(after) == patched_contents(
        without_goal_paths(before, crate::text::views(delta.goals_removed@)),
        crate::text::views(delta.goals_changed@),
        summaries(reread),
    )
}

proof fn changes_are_listed(
    expected: Map<Seq<char>, SourceFingerprint>,
    sources: Seq<ObservedSource>,
)
    ensures
        changed_paths(expected, sources).len() > 0 <==> any_changed(expected, sources),
    decreases sources.len(),
{
    if sources.len() > 0 {
        let short = sources.drop_last();
        changes_are_listed(expected, short);
        if any_changed(expected, short) {
            let i = choose|i: int| 0 <= i < short.len() && !unchanged(expected, #[trigger] short[i]);
            assert(sources[i] == short[i]);
        }
        if any_changed(expected, sources) {
            let i = choose|i: int|
                0 <= i < sources.len() && !unchanged(expected, #[trigger] sources[i]);
            if i < short.len() {
                assert(sources[i] == short[i]);
            }
        }
    }
}

/// A known path of a kind was not found.
pub open spec fn any_missing(
    known: Seq<Seq<char>>,
    found: Map<Seq<char>, SourceFingerprint>,
    kind: SourceKind,
    activity_file: Seq<char>,
) -> bool {
    exists|i: int|
        0 <= i < known.len() && !found.contains_key(#[trigger] known[i]) && kind_of(
            known[i],
            activity_file,
        ) == kind
}

proof fn losses_are_listed(
    known: Seq<Seq<char>>,
    found: Map<Seq<char>, SourceFingerprint>,
    kind: SourceKind,
    activity_file: Seq<char>,
)
    ensures
        missing_paths(known, found, kind, activity_file).len() > 0 <==> any_missing(
            known,
            found,
            kind,
            activity_file,
        ),
    decreases known.len(),
{
    if known.len() > 0 {
        let short = known.drop_last();
        losses_are_listed(short, found, kind, activity_file);
        if any_missing(short, found, kind, activity_file) {
            let i = choose|i: int|
                0 <= i < short.len() && !found.contains_key(#[trigger] short[i]) && kind_of(
                    short[i],
                    activity_file,
                ) == kind;
            assert(known[i] == short[i]);
        }
        if any_missing(known, found, kind, activity_file) {
            let i = choose|i: int|
                0 <= i < known.len() && !found.contains_key(#[trigger] known[i]) && kind_of(
                    known[i],
                    activity_file,
                ) == kind;
            if i < short.len() {
                assert(known[i] == short[i]);
            }
        }
    }
}

/// A delta is empty exactly where every source that was found is as the
/// projection knew it, the Git head did not move, and no known source but the
/// Git head is missing.
pub proof fn an_empty_delta_means_no_change(
    expected: Map<Seq<char>, SourceFingerprint>,
    known: Seq<Seq<char>>,
    found: ObservedSources,
    activity_file: Seq<char>,
    delta: SourceDelta,
)
    requires
        delta_of(expected, known, found, activity_file, delta),
    ensures
        nothing_changed(delta) <==> {
            &&& !any_changed(expected, found.goals@)
            &&& !any_changed(expected, found.features@)
            &&& !any_changed(expected, found.logs@)
            &&& (found.activity matches Some(a) ==> unchanged(expected, a))
            &&& !head_moved(expected, found.git_head)
            &&& forall|i: int|
                0 <= i < known.len() && !observed_fingerprints(found).contains_key(
                    #[trigger] known[i],
                ) ==> kind_of(known[i], activity_file) == SourceKind::GitHead
        },
{
    let seen = observed_fingerprints(found);
    changes_are_listed(expected, found.goals@);
    changes_are_listed(expected, found.features@);
    losses_are_listed(known, seen, SourceKind::Goal, activity_file);
    losses_are_listed(known, seen, SourceKind::Feature, activity_file);
    losses_are_listed(known, seen, SourceKind::Activity, activity_file);
    losses_are_listed(known, seen, SourceKind::Other, activity_file);
    assert(delta.goals_changed@.len() == crate::text::views(delta.goals_changed@).len());
    assert(delta.goals_removed@.len() == crate::text::views(delta.goals_removed@).len());
    assert(delta.features_changed@.len() == crate::text::views(delta.features_changed@).len());
    assert(delta.features_removed@.len() == crate::text::views(delta.features_removed@).len());
}

/// Every file that was found.
pub open spec fn found_files(found: ObservedSources) -> Seq<ObservedSource> {
    found.goals@ + found.features@ + found.logs@ + match found.activity {
        Some(a) => seq![a],
        None => Seq::empty(),
    }
}

/// Every path was found once.
pub open spec fn each_path_once(found: ObservedSources) -> bool {
    let files = found_files(found);
    &&& forall|i: int, j: int|
        0 <= i < j < files.len() ==> (#[trigger] files[i]).rel_path@ != (
        #[trigger] files[j]).rel_path@
    &&& found.git_head matches Some(h) ==> forall|i: int|
        0 <= i < files.len() ==> (#[trigger] files[i]).rel_path@ != h.path@
}

/// Every file was found with the time of its last change.
pub open spec fn change_times_known(found: ObservedSources) -> bool {
    forall|i: int|
        0 <= i < found_files(found).len() ==> (#[trigger] found_files(
            found,
        )[i]).fingerprint.change_unix_ns is Some
}

proof fn fingerprints_add_up(
    known: Map<Seq<char>, SourceFingerprint>,
    first: Seq<ObservedSource>,
    second: Seq<ObservedSource>,
)
    ensures
        with_fingerprints(known, first + second) == with_fingerprints(
            with_fingerprints(known, first),
            second,
        ),
    decreases second.len(),
{
    if second.len() == 0 {
        assert(first + second =~= first);
    } else {
        assert((first + second).drop_last() =~= first + second.drop_last());
        fingerprints_add_up(known, first, second.drop_last());
    }
}

proof fn a_path_keeps_its_fingerprint(
    known: Map<Seq<char>, SourceFingerprint>,
    sources: Seq<ObservedSource>,
    i: int,
)
    requires
        0 <= i < sources.len(),
        forall|j: int|
            i < j < sources.len() ==> (#[trigger] sources[j]).rel_path@ != sources[i].rel_path@,
    ensures
        with_fingerprints(known, sources).contains_key(sources[i].rel_path@),
        with_fingerprints(known, sources)[sources[i].rel_path@] == sources[i].fingerprint,
    decreases sources.len(),
{
    if i < sources.len() - 1 {
        let short = sources.drop_last();
        assert forall|j: int| i < j < short.len() implies (#[trigger] short[j]).rel_path@
            != short[i].rel_path@ by {
            assert(short[j] == sources[j]);
        }
        a_path_keeps_its_fingerprint(known, short, i);
        assert(sources[sources.len() - 1].rel_path@ != sources[i].rel_path@);
    }
}

/// Once a delta was taken, a second one over the same sources is empty, where
/// every path was found once and every file with the time of its last change.
pub proof fn a_second_look_finds_no_change(
    expected: Map<Seq<char>, SourceFingerprint>,
    known: Seq<Seq<char>>,
    found: ObservedSources,
    activity_file: Seq<char>,
    first: SourceDelta,
    second: SourceDelta,
)
    requires
        delta_of(expected, known, found, activity_file, first),
        delta_of(first.fingerprints@, first.fingerprints.keys(), found, activity_file, second),
        each_path_once(found),
        change_times_known(found),
    ensures
        nothing_changed(second),
{
    let seen = observed_fingerprints(found);
    let files = found_files(found);
    let none = Map::<Seq<char>, SourceFingerprint>::empty();
    fingerprints_add_up(none, found.goals@, found.features@);
    fingerprints_add_up(none, found.goals@ + found.features@, found.logs@);
    let logged = match found.activity {
        Some(a) => seq![a],
        None => Seq::empty(),
    };
    fingerprints_add_up(none, found.goals@ + found.features@ + found.logs@, logged);
    let base = with_fingerprints(none, found.goals@ + found.features@ + found.logs@);
    assert(logged.len() > 0 ==> logged.drop_last() =~= Seq::<ObservedSource>::empty());
    assert(with_fingerprints(base, Seq::<ObservedSource>::empty()) == base);
    assert forall|i: int| 0 <= i < files.len() implies unchanged(seen, #[trigger] files[i]) by {
        a_path_keeps_its_fingerprint(none, files, i);
    }
    let g = found.goals@.len() as int;
    let f = found.features@.len() as int;
    let l = found.logs@.len() as int;
    assert forall|i: int| 0 <= i < g implies unchanged(seen, #[trigger] found.goals@[i]) by {
        assert(files[i] == found.goals@[i]);
    }
    assert forall|i: int| 0 <= i < f implies unchanged(seen, #[trigger] found.features@[i]) by {
        assert(files[g + i] == found.features@[i]);
    }
    assert forall|i: int| 0 <= i < l implies unchanged(seen, #[trigger] found.logs@[i]) by {
        assert(files[g + f + i] == found.logs@[i]);
    }
    if let Some(a) = found.activity {
        assert(files[g + f + l] == a);
    }
    an_empty_delta_means_no_change(
        seen,
        first.fingerprints.keys(),
        found,
        activity_file,
        second,
    );
}

proof fn removal_is_exact(
    goals: Map<Seq<char>, GoalSummaryProjection>,
    paths: Seq<Seq<char>>,
    key: Seq<char>,
)
    ensures
        without_goal_paths(goals, paths).contains_key(key) <==> goals.contains_key(key)
            && !paths.contains(goals[key].goal.json_path@),
        without_goal_paths(goals, paths).contains_key(key) ==> without_goal_paths(goals, paths)[key]
            == goals[key],
    decreases paths.len(),
{
    if paths.len() > 0 {
        let short = paths.drop_last();
        removal_is_exact(goals, short, key);
        let path = goals[key].goal.json_path@;
        if short.contains(path) {
            let i = short.index_of(path);
            assert(paths[i] == path);
        }
        if paths.contains(path) && paths.last() != path {
            let i = paths.index_of(path);
            assert(short[i] == path);
        }
        assert(paths[paths.len() - 1] == paths.last());
    }
}

proof fn rereading_is_exact(
    goals: Map<Seq<char>, GoalSummaryProjection>,
    paths: Seq<Seq<char>>,
    reread: Seq<Option<crate::model::GoalSummaryView>>,
    key: Seq<char>,
)
    requires
        paths.len() <= reread.len(),
    ensures
        ({
            let after = patched_contents(goals, paths, reread);
            &&& (goals.contains_key(key) && !paths.contains(goals[key].goal.json_path@) && forall|
                i: int,
            |
                0 <= i < paths.len() ==> (#[trigger] reread[i] matches Some(p) ==> p.goal.id@
                    != key)) ==> after.contains_key(key) && after[key] == goals[key]@
            &&& after.contains_key(key) ==> (goals.contains_key(key) && after[key] == goals[key]@
                && !paths.contains(goals[key].goal.json_path@)) || exists|i: int|
                0 <= i < paths.len() && #[trigger] reread[i] == Some(after[key])
        }),
    decreases paths.len(),
{
    if paths.len() > 0 {
        let short = paths.drop_last();
        let last = paths.len() - 1;
        rereading_is_exact(goals, short, reread, key);
        let path = goals[key].goal.json_path@;
        if short.contains(path) {
            let i = short.index_of(path);
            assert(paths[i] == path);
        }
        if paths.contains(path) && paths.last() != path {
            let i = paths.index_of(path);
            assert(short[i] == path);
        }
        assert(paths[last] == paths.last());
        assert(reread[last] == reread[last]);
    }
}

/// A goal whose record neither changed nor was removed, and whose id no record
/// that was read again carries, survives a repair as it was.
pub proof fn untouched_goals_survive_a_repair(
    before: Map<Seq<char>, GoalSummaryProjection>,
    delta: SourceDelta,
    reread: Seq<Option<GoalSummaryProjection>>,
    after: Map<Seq<char>, GoalSummaryProjection>,
    key: Seq<char>,
)
    requires
        goals_patched(before, delta, reread, after),
        reread.len() == delta.goals_changed@.len(),
        before.contains_key(key),
        !crate::text::views(delta.goals_removed@).contains(before[key].goal.json_path@),
        !crate::text::views(delta.goals_changed@).contains(before[key].goal.json_path@),
        forall|i: int|
            0 <= i < reread.len() ==> (#[trigger] reread[i] matches Some(p) ==> p.goal.id@ != key),
    ensures
        after.contains_key(key),
        after[key]@ == before[key]@,
{
    let removed = crate::text::views(delta.goals_removed@);
    let changed = crate::text::views(delta.goals_changed@);
    removal_is_exact(before, removed, key);
    let middle = without_goal_paths(before, removed);
    let again = summaries(reread);
    assert forall|i: int| 0 <= i < changed.len() implies (#[trigger] again[i] matches Some(p)
        ==> p.goal.id@ != key) by {
        assert(reread[i] is Some ==> again[i] == Some(reread[i]->0@));
    }
    rereading_is_exact(middle, changed, again, key);
    assert(goal_contents(after).contains_key(key));
}

/// After a repair every goal was read again or is one that neither changed nor
/// was removed: nothing stale survives.
pub proof fn no_stale_goal_survives_a_repair(
    before: Map<Seq<char>, GoalSummaryProjection>,
    delta: SourceDelta,
    reread: Seq<Option<GoalSummaryProjection>>,
    after: Map<Seq<char>, GoalSummaryProjection>,
    key: Seq<char>,
)
    requires
        goals_patched(before, delta, reread, after),
        reread.len() == delta.goals_changed@.len(),
        after.contains_key(key),
    ensures
        (before.contains_key(key) && after[key]@ == before[key]@ && !crate::text::views(
            delta.goals_removed@,
        ).contains(before[key].goal.json_path@) && !crate::text::views(
            delta.goals_changed@,
        ).contains(before[key].goal.json_path@)) || exists|i: int|
            0 <= i < reread.len() && #[trigger] reread[i] is Some && reread[i]->0@ == after[key]@,
{
    let removed = crate::text::views(delta.goals_removed@);
    let changed = crate::text::views(delta.goals_changed@);
    removal_is_exact(before, removed, key);
    let middle = without_goal_paths(before, removed);
    let again = summaries(reread);
    assert(goal_contents(after).contains_key(key));
    rereading_is_exact(middle, changed, again, key);
    if exists|i: int| 0 <= i < changed.len() && #[trigger] again[i] == Some(after[key]@) {
        let i = choose|i: int| 0 <= i < changed.len() && #[trigger] again[i] == Some(after[key]@);
        assert(reread[i] is Some && reread[i]->0@ == after[key]@);
    }
}

} // verus!

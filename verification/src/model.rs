//! Goals, features and the projection that summarizes them.
use vstd::prelude::*;

use crate::text::text_eq;
use crate::text_map::TextMap;

verus! {

/// Where a goal stands in its workflow.
#[derive(Clone, Copy, Debug, PartialEq, Eq, Structural)]
pub enum GoalStatus {
    Backlog,
    Todo,
    InProgress,
    Qa,
    ReadyMerge,
    Build,
    Review,
    Done,
    Failed,
    Cancelled,
}

/// How urgent a goal is.
#[derive(Clone, Copy, Debug, PartialEq, Eq, Structural)]
pub enum GoalPriority {
    Low,
    Medium,
    High,
}

/// The stored name of a status.
pub open spec fn status_name(status: GoalStatus) -> Seq<char> {
    match status {
        GoalStatus::Backlog => "backlog"@,
        GoalStatus::Todo => "todo"@,
        GoalStatus::InProgress => "in-progress"@,
        GoalStatus::Qa => "qa"@,
        GoalStatus::ReadyMerge => "ready-merge"@,
        GoalStatus::Build => "build"@,
        GoalStatus::Review => "review"@,
        GoalStatus::Done => "done"@,
        GoalStatus::Failed => "failed"@,
        GoalStatus::Cancelled => "cancelled"@,
    }
}

/// The position of a status in workflow order.
pub open spec fn status_position(status: GoalStatus) -> int {
    match status {
        GoalStatus::Backlog => 0,
        GoalStatus::Todo => 1,
        GoalStatus::InProgress => 2,
        GoalStatus::Qa => 3,
        GoalStatus::ReadyMerge => 4,
        GoalStatus::Build => 5,
        GoalStatus::Review => 6,
        GoalStatus::Done => 7,
        GoalStatus::Failed => 8,
        GoalStatus::Cancelled => 9,
    }
}

/// The stored name of a priority.
pub open spec fn priority_name(priority: GoalPriority) -> Seq<char> {
    match priority {
        GoalPriority::Low => "low"@,
        GoalPriority::Medium => "medium"@,
        GoalPriority::High => "high"@,
    }
}

/// Stored status names are distinct.
pub proof fn status_names_are_distinct(a: GoalStatus, b: GoalStatus)
    ensures
        status_name(a) == status_name(b) ==> a == b,
{
    reveal_strlit("backlog");
    reveal_strlit("todo");
    reveal_strlit("in-progress");
    reveal_strlit("qa");
    reveal_strlit("ready-merge");
    reveal_strlit("build");
    reveal_strlit("review");
    reveal_strlit("done");
    reveal_strlit("failed");
    reveal_strlit("cancelled");
    if status_name(a) == status_name(b) && a != b {
        assert(status_name(a).len() == status_name(b).len());
        assert(status_name(a)[0] == status_name(b)[0]);
        assert(status_name(a)[1] == status_name(b)[1]);
    }
}

/// Stored priority names are distinct.
pub proof fn priority_names_are_distinct(a: GoalPriority, b: GoalPriority)
    ensures
        priority_name(a) == priority_name(b) ==> a == b,
{
    reveal_strlit("low");
    reveal_strlit("medium");
    reveal_strlit("high");
    if priority_name(a) == priority_name(b) && a != b {
        assert(priority_name(a).len() == priority_name(b).len());
    }
}

/// The status with a stored name.
pub open spec fn status_named(text: Seq<char>) -> Option<GoalStatus> {
    if exists|s: GoalStatus| text == #[trigger] status_name(s) {
        Some(choose|s: GoalStatus| text == #[trigger] status_name(s))
    } else {
        None
    }
}

impl GoalStatus {
    /// The stored name.
    pub fn as_str(&self) -> (r: &'static str)
        ensures
            r@ == status_name(*self),
    {
        match self {
            GoalStatus::Backlog => "backlog",
            GoalStatus::Todo => "todo",
            GoalStatus::InProgress => "in-progress",
            GoalStatus::Qa => "qa",
            GoalStatus::ReadyMerge => "ready-merge",
            GoalStatus::Build => "build",
            GoalStatus::Review => "review",
            GoalStatus::Done => "done",
            GoalStatus::Failed => "failed",
            GoalStatus::Cancelled => "cancelled",
        }
    }

    /// The status with a stored name.
    pub fn parse_wire(text: &str) -> (r: Option<GoalStatus>)
        ensures
            r == status_named(text@),
            match r {
                Some(s) => text@ == status_name(s),
                None => forall|s: GoalStatus| text@ != status_name(s),
            },
    {
        let all = [
            GoalStatus::Backlog,
            GoalStatus::Todo,
            GoalStatus::InProgress,
            GoalStatus::Qa,
            GoalStatus::ReadyMerge,
            GoalStatus::Build,
            GoalStatus::Review,
            GoalStatus::Done,
            GoalStatus::Failed,
            GoalStatus::Cancelled,
        ];
        let mut i: usize = 0;
        while i < 10
            invariant
                i <= 10,
                forall|s: GoalStatus| status_position(s) < i ==> text@ != #[trigger] status_name(s),
                forall|j: int| 0 <= j < 10 ==> status_position(#[trigger] all@[j]) == j,
                all@.len() == 10,
            decreases 10 - i,
        {
            if text_eq(text, all[i].as_str()) {
                proof {
                    status_names_are_distinct(all@[i as int], status_named(text@)->0);
                }
                return Some(all[i]);
            }
            assert forall|s: GoalStatus| status_position(s) == i implies s == all@[i as int] by {}
            i = i + 1;
        }
        assert forall|s: GoalStatus| text@ != #[trigger] status_name(s) by {
            assert(status_position(s) < 10);
        }
        None
    }

    /// The position in workflow order.
    pub fn position(&self) -> (r: usize)
        ensures
            r == status_position(*self),
    {
        match self {
            GoalStatus::Backlog => 0,
            GoalStatus::Todo => 1,
            GoalStatus::InProgress => 2,
            GoalStatus::Qa => 3,
            GoalStatus::ReadyMerge => 4,
            GoalStatus::Build => 5,
            GoalStatus::Review => 6,
            GoalStatus::Done => 7,
            GoalStatus::Failed => 8,
            GoalStatus::Cancelled => 9,
        }
    }
}

impl GoalPriority {
    /// The stored name.
    pub fn as_str(&self) -> (r: &'static str)
        ensures
            r@ == priority_name(*self),
    {
        match self {
            GoalPriority::Low => "low",
            GoalPriority::Medium => "medium",
            GoalPriority::High => "high",
        }
    }

    /// The priority with a stored name.
    pub fn parse_wire(text: &str) -> (r: Option<GoalPriority>)
        ensures
            match r {
                Some(p) => text@ == priority_name(p),
                None => forall|p: GoalPriority| text@ != priority_name(p),
            },
    {
        if text_eq(text, "low") {
            Some(GoalPriority::Low)
        } else if text_eq(text, "medium") {
            Some(GoalPriority::Medium)
        } else if text_eq(text, "high") {
            Some(GoalPriority::High)
        } else {
            None
        }
    }
}

/// What the index keeps of a goal.
#[derive(Debug)]
pub struct GoalIndexProjection {
    pub id: String,
    pub name: String,
    pub status: GoalStatus,
    pub priority: GoalPriority,
    pub reporter: Option<String>,
    pub assignee: Option<String>,
    pub round_count: usize,
    pub created: String,
    pub updated: String,
    pub branch_name: Option<String>,
    pub node_id: Option<String>,
    pub feature_id: Option<String>,
    pub feature_order: Option<i64>,
    pub json_path: String,
}

impl Clone for GoalIndexProjection {
    fn clone(&self) -> (r: Self)
        ensures
            r == *self,
    {
        GoalIndexProjection {
            id: self.id.clone(),
            name: self.name.clone(),
            status: self.status,
            priority: self.priority,
            reporter: self.reporter.clone(),
            assignee: self.assignee.clone(),
            round_count: self.round_count,
            created: self.created.clone(),
            updated: self.updated.clone(),
            branch_name: self.branch_name.clone(),
            node_id: self.node_id.clone(),
            feature_id: self.feature_id.clone(),
            feature_order: self.feature_order,
            json_path: self.json_path.clone(),
        }
    }
}

/// Copies a list of texts.
pub fn clone_texts(texts: &Vec<String>) -> (r: Vec<String>)
    ensures
        r@ == texts@,
{
    let mut out: Vec<String> = Vec::new();
    let mut i: usize = 0;
    while i < texts.len()
        invariant
            i <= texts.len(),
            out@ == texts@.take(i as int),
        decreases texts.len() - i,
    {
        out.push(texts[i].clone());
        assert(texts@.take(i as int + 1) =~= texts@.take(i as int).push(texts@[i as int]));
        i = i + 1;
    }
    assert(texts@.take(texts.len() as int) =~= texts@);
    out
}

/// What the projection keeps of a goal.
#[derive(Debug)]
pub struct GoalSummaryProjection {
    pub goal: GoalIndexProjection,
    pub node_display_name: Option<String>,
    pub latest_round_prompt: Option<String>,
    pub searchable_text: String,
    pub activity_ids: Vec<String>,
}

/// A goal summary by its contents.
pub ghost struct GoalSummaryView {
    pub goal: GoalIndexProjection,
    pub node_display_name: Option<String>,
    pub latest_round_prompt: Option<String>,
    pub searchable_text: String,
    pub activity_ids: Seq<String>,
}

impl View for GoalSummaryProjection {
    type V = GoalSummaryView;

    open spec fn view(&self) -> GoalSummaryView {
        GoalSummaryView {
            goal: self.goal,
            node_display_name: self.node_display_name,
            latest_round_prompt: self.latest_round_prompt,
            searchable_text: self.searchable_text,
            activity_ids: self.activity_ids@,
        }
    }
}

impl Clone for GoalSummaryProjection {
    fn clone(&self) -> (r: Self)
        ensures
            r@ == self@,
    {
        GoalSummaryProjection {
            goal: self.goal.clone(),
            node_display_name: self.node_display_name.clone(),
            latest_round_prompt: self.latest_round_prompt.clone(),
            searchable_text: self.searchable_text.clone(),
            activity_ids: clone_texts(&self.activity_ids),
        }
    }
}

/// What the index keeps of a feature.
#[derive(Debug)]
pub struct FeatureIndexProjection {
    pub id: String,
    pub name: String,
    pub description: Option<String>,
    pub reporter: Option<String>,
    pub assignee: Option<String>,
    pub node_id: Option<String>,
    pub created: String,
    pub updated: String,
    pub json_path: String,
}

impl Clone for FeatureIndexProjection {
    fn clone(&self) -> (r: Self)
        ensures
            r == *self,
    {
        FeatureIndexProjection {
            id: self.id.clone(),
            name: self.name.clone(),
            description: self.description.clone(),
            reporter: self.reporter.clone(),
            assignee: self.assignee.clone(),
            node_id: self.node_id.clone(),
            created: self.created.clone(),
            updated: self.updated.clone(),
            json_path: self.json_path.clone(),
        }
    }
}

/// How the goals of a feature are spread over the workflow.
#[derive(Clone, Copy, Debug, PartialEq, Eq, Structural)]
pub struct FeatureRollup {
    pub total: usize,
    pub done: usize,
    pub failed: usize,
    pub active: usize,
}

/// What the projection keeps of a feature.
#[derive(Debug)]
pub struct FeatureSummaryProjection {
    pub feature: FeatureIndexProjection,
    pub status: GoalStatus,
    pub rollup: FeatureRollup,
    pub goal_ids: Vec<String>,
}

/// A feature summary by its contents.
pub ghost struct FeatureSummaryView {
    pub feature: FeatureIndexProjection,
    pub status: GoalStatus,
    pub rollup: FeatureRollup,
    pub goal_ids: Seq<String>,
}

impl View for FeatureSummaryProjection {
    type V = FeatureSummaryView;

    open spec fn view(&self) -> FeatureSummaryView {
        FeatureSummaryView {
            feature: self.feature,
            status: self.status,
            rollup: self.rollup,
            goal_ids: self.goal_ids@,
        }
    }
}

impl Clone for FeatureSummaryProjection {
    fn clone(&self) -> (r: Self)
        ensures
            r@ == self@,
    {
        FeatureSummaryProjection {
            feature: self.feature.clone(),
            status: self.status,
            rollup: self.rollup,
            goal_ids: clone_texts(&self.goal_ids),
        }
    }
}

/// One entry of the activity log.
#[derive(Debug)]
pub struct ActivityEntry {
    pub id: String,
    pub datetime: String,
    pub severity: String,
    pub category: String,
    pub message: String,
    pub actor: Option<String>,
    pub goal_id: Option<String>,
}

impl Clone for ActivityEntry {
    fn clone(&self) -> (r: Self)
        ensures
            r == *self,
    {
        ActivityEntry {
            id: self.id.clone(),
            datetime: self.datetime.clone(),
            severity: self.severity.clone(),
            category: self.category.clone(),
            message: self.message.clone(),
            actor: self.actor.clone(),
            goal_id: self.goal_id.clone(),
        }
    }
}

/// What the projection keeps of an activity entry.
#[derive(Debug)]
pub struct ActivitySummaryProjection {
    pub entry: ActivityEntry,
    pub searchable_text: String,
}

impl Clone for ActivitySummaryProjection {
    fn clone(&self) -> (r: Self)
        ensures
            r == *self,
    {
        ActivitySummaryProjection {
            entry: self.entry.clone(),
            searchable_text: self.searchable_text.clone(),
        }
    }
}

/// What the projection keeps of a commit that belongs to a goal.
#[derive(Debug)]
pub struct ChangeSummaryProjection {
    pub commit: String,
    pub subject: String,
    pub branch: Option<String>,
    pub committed_time: String,
    pub order: u64,
    pub goal_id: Option<String>,
    pub goal_name: Option<String>,
    pub goal_status: Option<GoalStatus>,
    pub goal_priority: Option<String>,
    pub goal_assignee: Option<String>,
    pub searchable_text: String,
}

impl Clone for ChangeSummaryProjection {
    fn clone(&self) -> (r: Self)
        ensures
            r == *self,
    {
        ChangeSummaryProjection {
            commit: self.commit.clone(),
            subject: self.subject.clone(),
            branch: self.branch.clone(),
            committed_time: self.committed_time.clone(),
            order: self.order,
            goal_id: self.goal_id.clone(),
            goal_name: self.goal_name.clone(),
            goal_status: self.goal_status,
            goal_priority: self.goal_priority.clone(),
            goal_assignee: self.goal_assignee.clone(),
            searchable_text: self.searchable_text.clone(),
        }
    }
}

/// What identifies the contents of a source file without opening it.
#[derive(Debug)]
pub struct SourceFingerprint {
    pub path: String,
    pub size: u64,
    pub modified_unix_ms: u64,
    pub change_unix_ns: Option<u64>,
    pub content_hash: Option<String>,
}

impl Clone for SourceFingerprint {
    fn clone(&self) -> (r: Self)
        ensures
            r == *self,
    {
        SourceFingerprint {
            path: self.path.clone(),
            size: self.size,
            modified_unix_ms: self.modified_unix_ms,
            change_unix_ns: self.change_unix_ns,
            content_hash: self.content_hash.clone(),
        }
    }
}

/// The number of goals in each status.
#[derive(Debug)]
pub struct StatusCounts {
    counts: Vec<usize>,
}

/// How often a status occurs in a list.
pub open spec fn occurrences(statuses: Seq<GoalStatus>, status: GoalStatus) -> nat
    decreases statuses.len(),
{
    if statuses.len() == 0 {
        0
    } else {
        occurrences(statuses.drop_last(), status) + if statuses.last() == status { 1nat } else { 0nat }
    }
}

/// A status occurs at most as often as the list is long.
pub proof fn occurrences_are_bounded(statuses: Seq<GoalStatus>, status: GoalStatus)
    ensures
        occurrences(statuses, status) <= statuses.len(),
    decreases statuses.len(),
{
    if statuses.len() > 0 {
        occurrences_are_bounded(statuses.drop_last(), status);
    }
}

impl StatusCounts {
    #[verifier::type_invariant]
    spec fn well_formed(&self) -> bool {
        self.counts@.len() == 10
    }

    /// The count of a status.
    pub closed spec fn count(&self, status: GoalStatus) -> nat {
        self.counts@[status_position(status)] as nat
    }

    /// Counts the statuses of a list.
    pub fn of(statuses: &Vec<GoalStatus>) -> (r: StatusCounts)
        ensures
            forall|s: GoalStatus| #[trigger] r.count(s) == occurrences(statuses@, s),
    {
        let mut counts: Vec<usize> = vec![0, 0, 0, 0, 0, 0, 0, 0, 0, 0];
        let mut i: usize = 0;
        while i < statuses.len()
            invariant
                i <= statuses.len(),
                counts@.len() == 10,
                forall|s: GoalStatus|
                    counts@[status_position(s)] == #[trigger] occurrences(
                        statuses@.take(i as int),
                        s,
                    ),
                forall|j: int| 0 <= j < 10 ==> counts@[j] <= i,
            decreases statuses.len() - i,
        {
            let at: usize = statuses[i].position();
            let n: usize = counts[at];
            counts.set(at, n + 1);
            proof {
                let short = statuses@.take(i as int);
                let long = statuses@.take(i as int + 1);
                assert(long.drop_last() =~= short);
                assert forall|s: GoalStatus| counts@[status_position(s)] == #[trigger] occurrences(
                    long,
                    s,
                ) by {
                    assert(occurrences(short, s) >= 0);
                    assert(status_position(s) == at <==> s == statuses@[i as int]);
                }
            }
            i = i + 1;
        }
        assert(statuses@.take(statuses.len() as int) =~= statuses@);
        StatusCounts { counts }
    }

    /// The count of a status, if it occurs at all.
    pub fn get(&self, status: &GoalStatus) -> (r: Option<usize>)
        ensures
            match r {
                Some(n) => n > 0 && self.count(*status) == n,
                None => self.count(*status) == 0,
            },
    {
        proof {
            use_type_invariant(self);
        }
        let n: usize = self.counts[status.position()];
        if n > 0 {
            Some(n)
        } else {
            None
        }
    }
}

/// The dashboard part of the projection.
#[derive(Debug)]
pub struct DashboardProjection {
    pub recent_activity_ids: Vec<String>,
    pub all_node_status_counts: StatusCounts,
}

/// Everything the queries read.
pub struct ProjectionSnapshot {
    pub version: u64,
    pub generated_at: String,
    pub refine_dir: Option<String>,
    pub source_fingerprints: TextMap<SourceFingerprint>,
    pub goals: TextMap<GoalSummaryProjection>,
    pub features: TextMap<FeatureSummaryProjection>,
    pub activity: TextMap<ActivitySummaryProjection>,
    pub changes: TextMap<ChangeSummaryProjection>,
    pub dashboard: DashboardProjection,
}

/// The owner that ownership checks compare: an absent or empty node id stands
/// for the default node.
pub open spec fn effective_owner(node_id: Option<String>) -> Seq<char> {
    match node_id {
        Some(n) => if n@.len() == 0 { "default"@ } else { n@ },
        None => "default"@,
    }
}

/// The owner that ownership checks compare.
pub fn owner_of(node_id: &Option<String>) -> (r: &str)
    ensures
        r@ == effective_owner(*node_id),
{
    match node_id {
        Some(n) => if n.as_str().is_empty() { "default" } else { n.as_str() },
        None => "default",
    }
}

} // verus!

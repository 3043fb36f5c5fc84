//! Goals as records: how they are authored, edited and settled.
use vstd::prelude::*;

use crate::codec::parse_record;
use crate::errors::{goal_not_found_error, RefineError, RefineResult};
use crate::json::{clone_json, Json};
use crate::merging::workflow_revision;
use crate::model::{
    owner_of, FeatureIndexProjection, GoalIndexProjection, GoalStatus, GoalSummaryProjection,
    ProjectionSnapshot,
};
use crate::nodes::FileNodeRegistryService;
use crate::paths::join_path;
use crate::text::{cat2, cat3, cat5, text_eq};

pub mod authoring;
pub mod bulk;
pub mod placement;
pub mod queries;
pub mod records;
pub mod rounds;

verus! {

/// What the workflow says of an operation.
#[derive(Debug)]
pub struct OperationDecision {
    pub allowed: bool,
    pub reason: Option<String>,
}

/// What the work items of a project can be asked to do.
pub trait WorkItemService {
    type Goal;

    type Feature;

    type FeatureDetail;

    fn create_goal(&self, goal: Self::Goal) -> RefineResult<Self::Goal>;

    fn list_goals(&self) -> RefineResult<Vec<Self::Goal>>;

    fn update_goal(&self, goal: Self::Goal) -> RefineResult<Self::Goal>;

    fn transition_goal(&self, goal_id: &str, target: GoalStatus) -> RefineResult<Self::Goal>;

    fn cancel_goal(&self, goal_id: &str) -> RefineResult<Self::Goal>;

    fn delete_goal(&self, goal_id: &str) -> RefineResult<()>;

    fn create_feature(&self, feature: Self::Feature) -> RefineResult<Self::Feature>;

    fn feature_detail(&self, feature_id: &str) -> RefineResult<Self::FeatureDetail>;

    fn assign_goal(&self, goal_id: &str, feature_id: &str, order: i64) -> RefineResult<Self::Goal>;

    fn reorder_goal(&self, goal_id: &str, order: i64) -> RefineResult<Self::Goal>;
}

/// Turns the workflow's decision on a transition that a user asked for into a
/// result.
pub fn validate_manual_goal_transition(decision: OperationDecision) -> (r: RefineResult<()>)
    ensures
        crate::errors::outcome(r) == manual_transition(decision),
{
    if decision.allowed {
        Ok(())
    } else {
        match decision.reason {
            Some(reason) => Err(RefineError::InvalidInput(reason)),
            None => Err(RefineError::InvalidInput("transition is not allowed".to_owned())),
        }
    }
}

/// The result of a transition that a user asked for.
pub open spec fn manual_transition(decision: OperationDecision) -> Result<
    (),
    crate::errors::ErrorView,
> {
    if decision.allowed {
        Ok(())
    } else {
        Err(
            crate::errors::ErrorView::InvalidInput(
                match decision.reason {
                    Some(reason) => reason@,
                    None => "transition is not allowed"@,
                },
            ),
        )
    }
}

/// The transitions that automation may make.
pub open spec fn automation_may(from: GoalStatus, to: GoalStatus) -> bool {
    match from {
        GoalStatus::Todo => to == GoalStatus::InProgress || to == GoalStatus::Qa,
        GoalStatus::InProgress => to == GoalStatus::Qa || to == GoalStatus::ReadyMerge || to
            == GoalStatus::Failed,
        GoalStatus::Qa => to == GoalStatus::ReadyMerge || to == GoalStatus::Review || to
            == GoalStatus::Build || to == GoalStatus::Done || to == GoalStatus::Failed,
        GoalStatus::ReadyMerge => to == GoalStatus::Build || to == GoalStatus::Qa || to
            == GoalStatus::Todo || to == GoalStatus::Failed,
        GoalStatus::Build => to == GoalStatus::Qa || to == GoalStatus::Review || to
            == GoalStatus::Failed,
        _ => false,
    }
}

/// Refuses a transition that automation may not make.
pub fn validate_automated_goal_transition(from: &GoalStatus, to: &GoalStatus) -> (r: RefineResult<
    (),
>)
    ensures
        crate::errors::outcome(r) == if automation_may(*from, *to) {
            Ok(())
        } else {
            Err(
                crate::errors::ErrorView::InvalidInput(
                    "automated transition "@ + crate::model::status_name(*from) + " -> "@
                        + crate::model::status_name(*to) + " is not allowed"@,
                ),
            )
        },
{
    let allowed = match (from, to) {
        (GoalStatus::Todo, GoalStatus::InProgress) => true,
        (GoalStatus::Todo, GoalStatus::Qa) => true,
        (GoalStatus::InProgress, GoalStatus::Qa) => true,
        (GoalStatus::InProgress, GoalStatus::ReadyMerge) => true,
        (GoalStatus::Qa, GoalStatus::ReadyMerge) => true,
        (GoalStatus::ReadyMerge, GoalStatus::Build) => true,
        (GoalStatus::ReadyMerge, GoalStatus::Qa) => true,
        (GoalStatus::Build, GoalStatus::Qa) => true,
        (GoalStatus::Build, GoalStatus::Review) => true,
        (GoalStatus::Qa, GoalStatus::Review) => true,
        (GoalStatus::Qa, GoalStatus::Build) => true,
        (GoalStatus::Qa, GoalStatus::Done) => true,
        (GoalStatus::ReadyMerge, GoalStatus::Todo) => true,
        (GoalStatus::InProgress, GoalStatus::Failed) => true,
        (GoalStatus::Qa, GoalStatus::Failed) => true,
        (GoalStatus::ReadyMerge, GoalStatus::Failed) => true,
        (GoalStatus::Build, GoalStatus::Failed) => true,
        _ => false,
    };
    if allowed {
        Ok(())
    } else {
        Err(
            RefineError::InvalidInput(
                cat5(
                    "automated transition ",
                    from.as_str(),
                    " -> ",
                    to.as_str(),
                    " is not allowed",
                ),
            ),
        )
    }
}

/// Automation never touches a goal that is in the backlog, in review, done,
/// failed or cancelled, and never puts one into the backlog or cancels it.
pub proof fn automation_leaves_settled_goals_alone(from: GoalStatus, to: GoalStatus)
    requires
        automation_may(from, to),
    ensures
        from != GoalStatus::Backlog,
        from != GoalStatus::Review,
        from != GoalStatus::Done,
        from != GoalStatus::Failed,
        from != GoalStatus::Cancelled,
        to != GoalStatus::Backlog,
        to != GoalStatus::Cancelled,
        from != to,
{
}

/// The goals and features of one project.
#[derive(Debug)]
pub struct FileWorkItemService {
    pub refine_dir: String,
    pub projection_cache_dir: Option<String>,
    pub active_node_root: Option<String>,
    pub active_node_id_override: Option<String>,
}

/// Where the projection is taken from.
#[derive(Debug)]
pub enum ProjectionSource {
    /// A cache, refreshed against the runtime root where one is known.
    Cached { runtime_root: Option<String>, cache_dir: String },
    /// The records alone.
    Rebuilt,
}

/// What is known of a goal before its record is changed.
pub struct GoalAccess {
    pub goal_id: String,
    /// What the projection holds of the goal, if it knows it.
    pub summary: Option<GoalIndexProjection>,
    /// The active node, as the node registry tells it.
    pub registered_node: RefineResult<String>,
    /// The workflow's refusal of the operation, if it refuses.
    pub refusal: Option<RefineError>,
    /// The record, as it was read.
    pub record: RefineResult<Json>,
}

/// The active node that ownership is checked against: a fixed one, or that of
/// the registry.
pub open spec fn active_node(
    service: FileWorkItemService,
    registered: RefineResult<String>,
) -> Result<Seq<char>, crate::errors::ErrorView> {
    match service.active_node_id_override {
        Some(node) => Ok(node@),
        None => crate::errors::viewed(registered),
    }
}

/// The refusal of a change to a goal that another node owns.
pub open spec fn goal_refusal(
    goal: GoalIndexProjection,
    active: Result<Seq<char>, crate::errors::ErrorView>,
) -> Option<crate::errors::ErrorView> {
    match active {
        Err(e) => Some(e),
        Ok(active) => if crate::model::effective_owner(goal.node_id) == active {
            None
        } else {
            Some(
                crate::errors::ErrorView::Conflict(
                    "Goal "@ + goal.id@ + " is owned by node "@ + crate::model::effective_owner(
                        goal.node_id,
                    ) + ", not active node "@ + active,
                ),
            )
        },
    }
}

/// The refusal of a change to a feature that another node owns.
pub open spec fn feature_refusal(
    feature: FeatureIndexProjection,
    active: Result<Seq<char>, crate::errors::ErrorView>,
) -> Option<crate::errors::ErrorView> {
    match active {
        Err(e) => Some(e),
        Ok(active) => if crate::model::effective_owner(feature.node_id) == active {
            None
        } else {
            Some(
                crate::errors::ErrorView::Conflict(
                    "Feature "@ + feature.id@ + " is owned by node "@
                        + crate::model::effective_owner(feature.node_id) + ", not active node "@
                        + active,
                ),
            )
        },
    }
}

/// Where the record of a goal is stored.
pub open spec fn record_path(service: FileWorkItemService, goal: GoalIndexProjection) -> Seq<char> {
    crate::paths::joined(service.refine_dir@, goal.json_path@)
}

/// The refusal of a record that is not an object.
pub open spec fn not_an_object(what: Seq<char>, path: Seq<char>) -> crate::errors::ErrorView {
    crate::errors::ErrorView::Serialization(what + " "@ + path + " is not a JSON object"@)
}

/// Success unless there is a refusal.
pub open spec fn unless(refusal: Option<crate::errors::ErrorView>) -> Result<
    (),
    crate::errors::ErrorView,
> {
    match refusal {
        Some(e) => Err(e),
        None => Ok(()),
    }
}

/// The refusal of an operation on a goal: the goal is unknown, or the workflow
/// refuses.
pub open spec fn edit_gate(access: GoalAccess) -> Option<crate::errors::ErrorView> {
    match access.summary {
        None => Some(crate::errors::goal_not_found(access.goal_id@)),
        Some(_) => crate::errors::error_view(access.refusal),
    }
}

/// The refusal of a change to a goal: the goal is unknown, or another node owns
/// it.
pub open spec fn owner_gate(service: FileWorkItemService, access: GoalAccess) -> Option<
    crate::errors::ErrorView,
> {
    match access.summary {
        None => Some(crate::errors::goal_not_found(access.goal_id@)),
        Some(goal) => goal_refusal(goal, active_node(service, access.registered_node)),
    }
}

/// The record of a known goal, if it could be read and is an object.
pub open spec fn read_record(service: FileWorkItemService, access: GoalAccess) -> Result<
    crate::json::JsonView,
    crate::errors::ErrorView,
> {
    match access.summary {
        None => Err(crate::errors::goal_not_found(access.goal_id@)),
        Some(goal) => match access.record {
            Err(e) => Err(e@),
            Ok(value) => if value@ is Object {
                Ok(value@)
            } else {
                Err(not_an_object("Goal"@, record_path(service, goal)))
            },
        },
    }
}

/// The record of a goal that the active node owns.
pub open spec fn owned_record(service: FileWorkItemService, access: GoalAccess) -> Result<
    crate::json::JsonView,
    crate::errors::ErrorView,
> {
    match owner_gate(service, access) {
        Some(e) => Err(e),
        None => read_record(service, access),
    }
}

impl FileWorkItemService {
    /// The work items under a directory.
    pub fn new(refine_dir: &str) -> (r: Self)
        ensures
            r.refine_dir@ == refine_dir@,
            r.projection_cache_dir is None,
            r.active_node_root is None,
            r.active_node_id_override is None,
    {
        FileWorkItemService {
            refine_dir: refine_dir.to_owned(),
            projection_cache_dir: None,
            active_node_root: None,
            active_node_id_override: None,
        }
    }

    /// The work items under a directory, checked against one resolved node.
    pub fn for_node(refine_dir: &str, node_id: &str) -> (r: Self)
        ensures
            r.refine_dir@ == refine_dir@,
            r.projection_cache_dir is None,
            r.active_node_root is None,
            crate::text::maybe_view(r.active_node_id_override) == Some(node_id@),
    {
        FileWorkItemService {
            refine_dir: refine_dir.to_owned(),
            projection_cache_dir: None,
            active_node_root: None,
            active_node_id_override: Some(node_id.to_owned()),
        }
    }

    /// The work items under a directory, read through a cache. The runtime
    /// root is given, not inferred from where the cache lies.
    pub fn with_projection_cache(refine_dir: &str, runtime_root: &str, cache_dir: &str) -> (r: Self)
        ensures
            r.refine_dir@ == refine_dir@,
            crate::text::maybe_view(r.projection_cache_dir) == Some(cache_dir@),
            crate::text::maybe_view(r.active_node_root) == Some(runtime_root@),
            r.active_node_id_override is None,
    {
        FileWorkItemService {
            refine_dir: refine_dir.to_owned(),
            projection_cache_dir: Some(cache_dir.to_owned()),
            active_node_root: Some(runtime_root.to_owned()),
            active_node_id_override: None,
        }
    }

    /// Where the projection is taken from.
    pub fn projection_source(&self) -> (r: ProjectionSource)
        ensures
            match r {
                ProjectionSource::Cached { runtime_root, cache_dir } => crate::text::maybe_view(
                    self.projection_cache_dir,
                ) == Some(cache_dir@) && runtime_root == self.active_node_root,
                ProjectionSource::Rebuilt => self.projection_cache_dir is None,
            },
    {
        match &self.projection_cache_dir {
            Some(cache_dir) => ProjectionSource::Cached {
                runtime_root: self.active_node_root.clone(),
                cache_dir: cache_dir.clone(),
            },
            None => ProjectionSource::Rebuilt,
        }
    }

    /// The registry that tells the active node: the one of the runtime root
    /// where one is given.
    pub fn node_registry_service(&self) -> (r: FileNodeRegistryService)
        ensures
            r.refine_dir@ == self.refine_dir@,
            crate::text::maybe_view(r.active_root) == crate::text::maybe_view(
                self.active_node_root,
            ),
    {
        match &self.active_node_root {
            Some(root) => FileNodeRegistryService::with_active_root(
                self.refine_dir.as_str(),
                root.as_str(),
            ),
            None => FileNodeRegistryService::new(self.refine_dir.as_str()),
        }
    }

    /// The active node that ownership is checked against.
    pub fn active_node_id(&self, registered: &RefineResult<String>) -> (r: RefineResult<String>)
        ensures
            crate::errors::viewed(r) == active_node(*self, *registered),
    {
        if let Some(node_id) = &self.active_node_id_override {
            return Ok(node_id.clone());
        }
        match registered {
            Ok(node_id) => Ok(node_id.clone()),
            Err(e) => Err(e.clone()),
        }
    }

    /// Refuses a change to a goal that another node owns.
    pub fn ensure_goal_index_owned(
        &self,
        goal: &GoalIndexProjection,
        registered: &RefineResult<String>,
    ) -> (r: RefineResult<()>)
        ensures
            crate::errors::outcome(r) == unless(
                goal_refusal(*goal, active_node(*self, *registered)),
            ),
    {
        let active = match self.active_node_id(registered) {
            Ok(active) => active,
            Err(e) => {
                return Err(e);
            },
        };
        let owner = owner_of(&goal.node_id);
        if text_eq(owner, active.as_str()) {
            Ok(())
        } else {
            let mut m = cat5(
                "Goal ",
                goal.id.as_str(),
                " is owned by node ",
                owner,
                ", not active node ",
            );
            m.append(active.as_str());
            Err(RefineError::Conflict(m))
        }
    }

    /// Refuses a change to a goal that another node owns.
    pub fn ensure_goal_owned(
        &self,
        goal: &GoalSummaryProjection,
        registered: &RefineResult<String>,
    ) -> (r: RefineResult<()>)
        ensures
            crate::errors::outcome(r) == unless(
                goal_refusal(goal.goal, active_node(*self, *registered)),
            ),
    {
        self.ensure_goal_index_owned(&goal.goal, registered)
    }

    /// Refuses a change to a feature that another node owns.
    pub fn ensure_feature_owned(
        &self,
        feature: &FeatureIndexProjection,
        registered: &RefineResult<String>,
    ) -> (r: RefineResult<()>)
        ensures
            crate::errors::outcome(r) == unless(
                feature_refusal(*feature, active_node(*self, *registered)),
            ),
    {
        let active = match self.active_node_id(registered) {
            Ok(active) => active,
            Err(e) => {
                return Err(e);
            },
        };
        let owner = owner_of(&feature.node_id);
        if text_eq(owner, active.as_str()) {
            Ok(())
        } else {
            let mut m = cat5(
                "Feature ",
                feature.id.as_str(),
                " is owned by node ",
                owner,
                ", not active node ",
            );
            m.append(active.as_str());
            Err(RefineError::Conflict(m))
        }
    }

    /// Where the record of a goal is stored.
    pub fn goal_record_path(&self, goal: &GoalIndexProjection) -> (r: String)
        ensures
            r@ == record_path(*self, *goal),
    {
        join_path(self.refine_dir.as_str(), goal.json_path.as_str())
    }

    /// Reads the bytes of a goal's record.
    pub fn decode_goal_record(&self, goal: &GoalIndexProjection, bytes: &[u8]) -> (r: RefineResult<
        Json,
    >)
        ensures
            crate::errors::viewed(r) == crate::codec::record_outcome(
                "Goal "@ + record_path(*self, *goal),
                bytes@,
            ),
    {
        let what = cat2("Goal ", self.goal_record_path(goal).as_str());
        parse_record(what.as_str(), bytes)
    }

    pub(crate) fn check_operation(&self, access: &GoalAccess) -> (r: Option<RefineError>)
        ensures
            crate::errors::error_view(r) == edit_gate(*access),
    {
        match &access.summary {
            None => Some(goal_not_found_error(access.goal_id.as_str())),
            Some(_) => match &access.refusal {
                Some(e) => Some(e.clone()),
                None => None,
            },
        }
    }

    pub(crate) fn check_owner(&self, access: &GoalAccess) -> (r: Option<RefineError>)
        ensures
            crate::errors::error_view(r) == owner_gate(*self, *access),
    {
        match &access.summary {
            None => Some(goal_not_found_error(access.goal_id.as_str())),
            Some(goal) => match self.ensure_goal_index_owned(goal, &access.registered_node) {
                Ok(_) => None,
                Err(e) => Some(e),
            },
        }
    }

    /// The record of a known goal, whoever owns it.
    pub fn read_goal_value_unchecked(&self, access: &GoalAccess) -> (r: RefineResult<Json>)
        ensures
            crate::errors::viewed(r) == read_record(*self, *access),
    {
        match &access.summary {
            None => Err(goal_not_found_error(access.goal_id.as_str())),
            Some(goal) => match &access.record {
                Err(e) => Err(e.clone()),
                Ok(value) => if value.is_object() {
                    Ok(clone_json(value))
                } else {
                    Err(not_an_object_error("Goal", self.goal_record_path(goal).as_str()))
                },
            },
        }
    }

    /// The record of a goal that the active node owns.
    pub fn read_goal_value(&self, access: &GoalAccess) -> (r: RefineResult<Json>)
        ensures
            crate::errors::viewed(r) == owned_record(*self, *access),
    {
        match self.check_owner(access) {
            Some(e) => Err(e),
            None => self.read_goal_value_unchecked(access),
        }
    }
}

pub(crate) fn not_an_object_error(what: &str, path: &str) -> (r: RefineError)
    ensures
        r@ == not_an_object(what@, path@),
{
    let mut m = cat3(what, " ", path);
    m.append(" is not a JSON object");
    RefineError::Serialization(m)
}

/// A change to a goal that another node owns is refused, whatever else holds.
pub proof fn foreign_goals_are_not_changed(
    service: FileWorkItemService,
    access: GoalAccess,
    node: Seq<char>,
)
    requires
        access.summary matches Some(goal) && crate::model::effective_owner(goal.node_id) != node,
        active_node(service, access.registered_node) == Ok::<_, crate::errors::ErrorView>(node),
    ensures
        owned_record(service, access) is Err,
        owned_record(service, access)->Err_0 is Conflict,
{
}

/// A service for one node checks ownership against that node, whatever the
/// registry says.
pub proof fn a_fixed_node_overrides_the_registry(
    service: FileWorkItemService,
    first: RefineResult<String>,
    second: RefineResult<String>,
)
    requires
        service.active_node_id_override is Some,
    ensures
        active_node(service, first) == active_node(service, second),
        active_node(service, first) == Ok::<_, crate::errors::ErrorView>(
            service.active_node_id_override->0@,
        ),
{
}

/// The cancellation of a goal, which is written in one step and can be undone.
pub struct GoalCancellationTransaction {
    pub goal_id: String,
    pub goal_path: String,
    pub original: Json,
    pub settled: Json,
    pub committed: bool,
}

/// A record that is expected at a revision.
pub open spec fn at_revision(record: crate::json::JsonView, revision: u64) -> crate::json::JsonView {
    crate::json::with_field(
        record,
        "workflow_revision"@,
        crate::json::JsonView::Number(crate::json::NumberView::Unsigned(revision)),
    )
}

/// A record that is expected at a revision, if it is an object.
pub open spec fn expected_at(record: crate::json::JsonView, revision: u64) -> Result<
    crate::json::JsonView,
    crate::errors::ErrorView,
> {
    if record is Object {
        Ok(at_revision(record, revision))
    } else {
        Err(crate::errors::ErrorView::Serialization("Goal record is not a JSON object"@))
    }
}

/// Sets the revision that a record is expected at.
pub fn set_workflow_revision(record: &Json, revision: u64) -> (r: RefineResult<Json>)
    ensures
        crate::errors::viewed(r) == expected_at(record@, revision),
{
    if !record.is_object() {
        return Err(RefineError::Serialization("Goal record is not a JSON object".to_owned()));
    }
    let mut expected = clone_json(record);
    expected.set("workflow_revision", Json::unsigned(revision));
    Ok(expected)
}

impl GoalCancellationTransaction {
    /// What a commit writes; nothing where it was already written.
    pub fn commit(&self) -> (r: RefineResult<Option<Json>>)
        ensures
            match r {
                Ok(None) => self.committed,
                Ok(Some(value)) => !self.committed && expected_at(
                    self.settled@,
                    crate::merging::revision_of(self.original@),
                ) == Ok::<_, crate::errors::ErrorView>(value@),
                Err(e) => !self.committed && expected_at(
                    self.settled@,
                    crate::merging::revision_of(self.original@),
                ) == Err::<crate::json::JsonView, _>(e@),
            },
    {
        if self.committed {
            return Ok(None);
        }
        match set_workflow_revision(&self.settled, workflow_revision(&self.original)) {
            Ok(value) => Ok(Some(value)),
            Err(e) => Err(e),
        }
    }

    /// Records that the commit was written.
    pub fn committed(&mut self)
        ensures
            final(self).committed,
            final(self).original == old(self).original,
            final(self).settled == old(self).settled,
            final(self).goal_id == old(self).goal_id,
            final(self).goal_path == old(self).goal_path,
    {
        self.committed = true;
    }

    /// What undoing the commit writes; nothing where nothing was written.
    pub fn restore(&self) -> (r: RefineResult<Option<Json>>)
        ensures
            match r {
                Ok(None) => !self.committed,
                Ok(Some(value)) => self.committed && expected_at(
                    self.original@,
                    crate::merging::revision_of(self.settled@),
                ) == Ok::<_, crate::errors::ErrorView>(value@),
                Err(e) => self.committed && expected_at(
                    self.original@,
                    crate::merging::revision_of(self.settled@),
                ) == Err::<crate::json::JsonView, _>(e@),
            },
    {
        if !self.committed {
            return Ok(None);
        }
        match set_workflow_revision(&self.original, workflow_revision(&self.settled)) {
            Ok(value) => Ok(Some(value)),
            Err(e) => Err(e),
        }
    }

    /// Records that the commit was undone.
    pub fn restored(&mut self)
        ensures
            !final(self).committed,
            final(self).original == old(self).original,
            final(self).settled == old(self).settled,
            final(self).goal_id == old(self).goal_id,
            final(self).goal_path == old(self).goal_path,
    {
        self.committed = false;
    }

    /// Reads the bytes of the record after the commit was undone.
    pub fn restored_record(&self, bytes: &[u8]) -> (r: RefineResult<Json>)
        ensures
            crate::errors::viewed(r) == crate::codec::record_outcome(
                "restored Goal "@ + self.goal_path@,
                bytes@,
            ),
    {
        let what = cat2("restored Goal ", self.goal_path.as_str());
        parse_record(what.as_str(), bytes)
    }

    /// What the projection holds of the goal.
    pub fn projection(&self, snapshot: &ProjectionSnapshot) -> (r: RefineResult<
        GoalSummaryProjection,
    >)
        ensures
            crate::errors::viewed(r) == shown_goal(
                snapshot.goals@,
                self.goal_id@,
            ),
    {
        find_goal_summary(snapshot, self.goal_id.as_str())
    }

    /// The record before the cancellation.
    pub fn original_value(&self) -> (r: Json)
        ensures
            r@ == self.original@,
    {
        clone_json(&self.original)
    }

    /// The record after the cancellation, at the revision it will have.
    pub fn settled_value(&self) -> (r: Json)
        ensures
            r@ == at_revision(
                self.settled@,
                next_revision(crate::merging::revision_of(self.original@)),
            ),
    {
        let revision: u64 = workflow_revision(&self.original);
        let next: u64 = if revision < u64::MAX { revision + 1 } else { revision };
        let mut settled = clone_json(&self.settled);
        settled.set("workflow_revision", Json::unsigned(next));
        settled
    }
}

/// The revision after a write.
pub open spec fn next_revision(revision: u64) -> u64 {
    if revision < u64::MAX {
        (revision + 1) as u64
    } else {
        revision
    }
}

/// Undoing a commit writes the original record, and committing writes the
/// settled one: each differs from it in nothing but the expected revision.
pub proof fn restoring_undoes_committing(
    original: crate::json::JsonView,
    settled: crate::json::JsonView,
    key: Seq<char>,
)
    requires
        original is Object,
        settled is Object,
        key != "workflow_revision"@,
    ensures
        ({
            let written = expected_at(settled, crate::merging::revision_of(original))->Ok_0;
            let undone = expected_at(original, crate::merging::revision_of(settled))->Ok_0;
            &&& crate::json::field(written, key) == crate::json::field(settled, key)
            &&& crate::json::field(undone, key) == crate::json::field(original, key)
            &&& crate::merging::revision_of(written) == crate::merging::revision_of(original)
            &&& crate::merging::revision_of(undone) == crate::merging::revision_of(settled)
        }),
{
}

/// What the projection says of a goal.
pub open spec fn shown_goal(goals: Map<Seq<char>, GoalSummaryProjection>, goal_id: Seq<char>) -> Result<
    crate::model::GoalSummaryView,
    crate::errors::ErrorView,
> {
    if goals.contains_key(goal_id) {
        Ok(goals[goal_id]@)
    } else {
        Err(crate::errors::goal_not_found(goal_id))
    }
}

pub(crate) fn find_goal_summary(snapshot: &ProjectionSnapshot, goal_id: &str) -> (r: RefineResult<
    GoalSummaryProjection,
>)
    ensures
        crate::errors::viewed(r) == shown_goal(snapshot.goals@, goal_id@),
{
    match snapshot.goals.get(goal_id) {
        Some(goal) => Ok(goal.clone()),
        None => Err(goal_not_found_error(goal_id)),
    }
}

} // verus!

//! Changes to single fields of a goal's record.
use vstd::prelude::*;

use crate::clock::timestamp;
use crate::errors::{RefineError, RefineResult};
use crate::json::{clone_json, Json};
use crate::model::GoalStatus;
use crate::text::{cat3, is_blank, trim};
use crate::work_items::{not_an_object_error, FileWorkItemService, GoalAccess};

verus! {

/// The name of a person, and whether the naming rules accept it once trimmed.
#[derive(Debug)]
pub struct PersonName {
    pub text: String,
    pub acceptable: bool,
}

/// A person's name without the white space around it. An empty name is
/// accepted, as is any that the naming rules accept.
pub open spec fn checked_name(name: PersonName, refusal: Seq<char>) -> Result<
    Seq<char>,
    crate::errors::ErrorView,
> {
    let text = crate::text::trimmed(name.text@);
    if text.len() > 0 && !name.acceptable {
        Err(crate::errors::ErrorView::InvalidInput(refusal))
    } else {
        Ok(text)
    }
}

/// An assignee's name without the white space around it.
pub open spec fn checked_assignee(name: PersonName) -> Result<
    Seq<char>,
    crate::errors::ErrorView,
> {
    checked_name(name, "invalid assignee name"@)
}

/// A reporter's name without the white space around it.
pub open spec fn checked_reporter(name: PersonName) -> Result<
    Seq<char>,
    crate::errors::ErrorView,
> {
    checked_name(name, "invalid reporter name"@)
}

/// A text value, or null where the text is empty.
pub open spec fn text_or_null(text: Seq<char>) -> crate::json::JsonView {
    if text.len() == 0 {
        crate::json::JsonView::Null
    } else {
        crate::json::JsonView::Text(text)
    }
}

/// A record with the time of its last change.
pub open spec fn stamped(record: crate::json::JsonView, now: Seq<char>) -> crate::json::JsonView {
    crate::json::with_field(record, "updated"@, crate::json::JsonView::Text(now))
}

/// A record with a text under a key.
pub open spec fn with_text(record: crate::json::JsonView, key: Seq<char>, text: Seq<char>) -> crate::json::JsonView {
    crate::json::with_field(record, key, crate::json::JsonView::Text(text))
}

/// The rounds of a record.
pub open spec fn rounds_of(record: crate::json::JsonView) -> Option<Seq<crate::json::JsonView>> {
    crate::json::elements(crate::json::field(record, "rounds"@))
}

/// Tells an object from any other value.
pub open spec fn is_object() -> spec_fn(crate::json::JsonView) -> bool {
    |v: crate::json::JsonView| v is Object
}

/// The refusal for a goal without a round.
pub open spec fn no_rounds(goal_id: Seq<char>) -> crate::errors::ErrorView {
    crate::errors::ErrorView::NotFound("Goal "@ + goal_id + " has no rounds"@)
}

/// The position of the latest round that is an object, and that round.
pub open spec fn latest_round(record: crate::json::JsonView, goal_id: Seq<char>) -> Result<
    (int, crate::json::JsonView),
    crate::errors::ErrorView,
> {
    match rounds_of(record) {
        None => Err(no_rounds(goal_id)),
        Some(rounds) => match crate::lists::last_position(rounds, is_object()) {
            None => Err(no_rounds(goal_id)),
            Some(at) => Ok((at, rounds[at])),
        },
    }
}

/// A record with another round at a position.
pub open spec fn with_round(
    record: crate::json::JsonView,
    at: int,
    round: crate::json::JsonView,
) -> crate::json::JsonView {
    match rounds_of(record) {
        Some(rounds) => crate::json::with_field(
            record,
            "rounds"@,
            crate::json::JsonView::Array(rounds.update(at, round)),
        ),
        None => record,
    }
}

/// A record whose latest round carries no failure.
pub open spec fn without_failure(record: crate::json::JsonView) -> crate::json::JsonView {
    match latest_round(record, Seq::empty()) {
        Err(_) => record,
        Ok((at, round)) => with_round(
            record,
            at,
            with_text(
                with_text(with_text(round, "failure_category"@, ""@), "failure_message"@, ""@),
                "failure_at"@,
                ""@,
            ),
        ),
    }
}

/// A record in another status. Only a failed goal keeps the reason of its last
/// failure.
pub open spec fn with_status(
    record: crate::json::JsonView,
    status: GoalStatus,
    now: Seq<char>,
) -> crate::json::JsonView {
    let moved = with_text(record, "status"@, crate::model::status_name(status));
    stamped(
        if status == GoalStatus::Failed {
            moved
        } else {
            without_failure(moved)
        },
        now,
    )
}

/// A record in another place of a feature, or in none.
pub open spec fn with_membership(
    record: crate::json::JsonView,
    feature_id: Option<Seq<char>>,
    feature_order: Option<i64>,
    now: Seq<char>,
) -> crate::json::JsonView {
    stamped(
        crate::json::with_field(
            crate::json::with_field(
                record,
                "feature_id"@,
                match feature_id {
                    Some(id) => crate::json::JsonView::Text(id),
                    None => crate::json::JsonView::Null,
                },
            ),
            "feature_order"@,
            match feature_order {
                Some(order) => crate::json::signed_view(order),
                None => crate::json::JsonView::Null,
            },
        ),
        now,
    )
}

/// What becomes of a goal's record that is moved within or out of a feature.
pub open spec fn membership_set(
    service: FileWorkItemService,
    access: GoalAccess,
    feature_id: Option<Seq<char>>,
    feature_order: Option<i64>,
    now: Seq<char>,
) -> Result<crate::json::JsonView, crate::errors::ErrorView> {
    match crate::work_items::owned_record(service, access) {
        Err(e) => Err(e),
        Ok(record) => Ok(with_membership(record, feature_id, feature_order, now)),
    }
}

/// What becomes of a goal's record that is put into a status.
pub open spec fn status_set(
    service: FileWorkItemService,
    access: GoalAccess,
    status: GoalStatus,
    now: Seq<char>,
) -> Result<crate::json::JsonView, crate::errors::ErrorView> {
    match crate::work_items::owned_record(service, access) {
        Err(e) => Err(e),
        Ok(record) => Ok(with_status(record, status, now)),
    }
}

/// What becomes of a goal's record that gets a priority.
pub open spec fn priority_set(
    service: FileWorkItemService,
    access: GoalAccess,
    priority: Seq<char>,
    now: Seq<char>,
) -> Result<crate::json::JsonView, crate::errors::ErrorView> {
    match crate::work_items::owned_record(service, access) {
        Err(e) => Err(e),
        Ok(record) => Ok(stamped(with_text(record, "priority"@, priority), now)),
    }
}

/// What becomes of a goal's record that gets a reporter.
pub open spec fn reporter_set(
    service: FileWorkItemService,
    access: GoalAccess,
    reporter: PersonName,
    now: Seq<char>,
) -> Result<crate::json::JsonView, crate::errors::ErrorView> {
    match checked_reporter(reporter) {
        Err(e) => Err(e),
        Ok(name) => match crate::work_items::owned_record(service, access) {
            Err(e) => Err(e),
            Ok(record) => Ok(
                stamped(crate::json::with_field(record, "reporter"@, text_or_null(name)), now),
            ),
        },
    }
}

/// What becomes of a goal's record that is given to a node, whoever owns it.
pub open spec fn node_set(
    service: FileWorkItemService,
    access: GoalAccess,
    node_id: Seq<char>,
    now: Seq<char>,
) -> Result<crate::json::JsonView, crate::errors::ErrorView> {
    match crate::work_items::read_record(service, access) {
        Err(e) => Err(e),
        Ok(record) => Ok(stamped(with_text(record, "node_id"@, node_id), now)),
    }
}

/// What becomes of a feature's record that is given to a node.
pub open spec fn feature_node_set(
    path: Seq<char>,
    record: RefineResult<Json>,
    node_id: Seq<char>,
    now: Seq<char>,
) -> Result<crate::json::JsonView, crate::errors::ErrorView> {
    match record {
        Err(e) => Err(e@),
        Ok(value) => if value@ is Object {
            Ok(stamped(with_text(value@, "node_id"@, node_id), now))
        } else {
            Err(crate::work_items::not_an_object("Feature"@, path))
        },
    }
}

/// A record whose latest round gets an assignee.
pub open spec fn with_assignee(
    record: crate::json::JsonView,
    goal_id: Seq<char>,
    name: Seq<char>,
    now: Seq<char>,
) -> Result<crate::json::JsonView, crate::errors::ErrorView> {
    match latest_round(record, goal_id) {
        Err(e) => Err(e),
        Ok((at, round)) => Ok(
            stamped(
                with_round(
                    record,
                    at,
                    stamped(
                        crate::json::with_field(round, "assignee"@, text_or_null(name)),
                        now,
                    ),
                ),
                now,
            ),
        ),
    }
}

/// What becomes of a goal's record whose latest round gets an assignee.
pub open spec fn assignee_set(
    service: FileWorkItemService,
    access: GoalAccess,
    assignee: PersonName,
    now: Seq<char>,
) -> Result<crate::json::JsonView, crate::errors::ErrorView> {
    match checked_assignee(assignee) {
        Err(e) => Err(e),
        Ok(name) => match crate::work_items::owned_record(service, access) {
            Err(e) => Err(e),
            Ok(record) => with_assignee(record, access.goal_id@, name, now),
        },
    }
}

pub(crate) fn no_rounds_error(goal_id: &str) -> (r: RefineError)
    ensures
        r@ == no_rounds(goal_id@),
{
    RefineError::NotFound(cat3("Goal ", goal_id, " has no rounds"))
}

pub(crate) fn text_or_null_value(text: &str) -> (r: Json)
    ensures
        r@ == text_or_null(text@),
{
    if text.is_empty() {
        Json::null()
    } else {
        Json::text(text)
    }
}

pub(crate) fn stamp(record: &mut Json, now: &str)
    ensures
        final(record)@ == stamped(old(record)@, now@),
{
    record.set("updated", Json::text(now));
}

fn latest_object(rounds: &Vec<Json>) -> (r: Option<usize>)
    ensures
        match r {
            Some(at) => at < rounds@.len() && crate::lists::last_position(
                crate::json::json_views(rounds@),
                is_object(),
            ) == Some(at as int),
            None => crate::lists::last_position(crate::json::json_views(rounds@), is_object())
                is None,
        },
{
    let ghost views = crate::json::json_views(rounds@);
    let mut i: usize = rounds.len();
    assert(views.take(i as int) =~= views);
    while i > 0
        invariant
            i <= rounds.len(),
            views == crate::json::json_views(rounds@),
            crate::lists::last_position(views.take(i as int), is_object())
                == crate::lists::last_position(views, is_object()),
        decreases i,
    {
        assert(views.take(i as int).drop_last() =~= views.take(i as int - 1));
        assert(views.take(i as int).last() == views[i as int - 1]);
        if rounds[i - 1].is_object() {
            return Some(i - 1);
        }
        i = i - 1;
    }
    None
}

/// Finds the latest round that is an object.
pub(crate) fn find_latest_round(record: &Json, goal_id: &str) -> (r: RefineResult<(usize, Json)>)
    ensures
        match r {
            Ok((at, round)) => latest_round(record@, goal_id@) == Ok::<
                (int, crate::json::JsonView),
                crate::errors::ErrorView,
            >((at as int, round@)) && rounds_of(record@) is Some && at < rounds_of(
                record@,
            )->0.len(),
            Err(e) => latest_round(record@, goal_id@) == Err::<
                (int, crate::json::JsonView),
                crate::errors::ErrorView,
            >(e@),
        },
{
    match record.get_array("rounds") {
        None => Err(no_rounds_error(goal_id)),
        Some(rounds) => match latest_object(rounds) {
            None => Err(no_rounds_error(goal_id)),
            Some(at) => Ok((at, clone_json(&rounds[at]))),
        },
    }
}

/// Puts a round in the place of another.
pub(crate) fn put_round(record: &mut Json, at: usize, round: Json)
    requires
        rounds_of(old(record)@) is Some,
        at < rounds_of(old(record)@)->0.len(),
    ensures
        final(record)@ == with_round(old(record)@, at as int, round@),
{
    let ghost before = record@;
    match record.remove_array("rounds") {
        Some(rounds) => {
            let mut rounds = rounds;
            let ghost all = rounds@;
            let ghost view = round@;
            rounds.set(at, round);
            assert(crate::json::json_views(rounds@) =~= crate::json::json_views(all).update(
                at as int,
                view,
            ));
            record.set("rounds", Json::array(rounds));
            proof {
                let m = before->Object_0;
                assert(m.remove("rounds"@).insert("rounds"@, record@->Object_0["rounds"@])
                    =~= m.insert("rounds"@, record@->Object_0["rounds"@]));
            }
        },
        None => {},
    }
}

/// Gives the latest round of a record an assignee.
pub(crate) fn assign_latest_round(record: Json, goal_id: &str, name: &str, now: &str) -> (r:
    RefineResult<Json>)
    ensures
        crate::errors::viewed(r) == with_assignee(record@, goal_id@, name@, now@),
{
    let mut record = record;
    let (at, round): (usize, Json) = match find_latest_round(&record, goal_id) {
        Ok(found) => found,
        Err(e) => {
            return Err(e);
        },
    };
    let mut round = round;
    round.set("assignee", text_or_null_value(name));
    stamp(&mut round, now);
    put_round(&mut record, at, round);
    stamp(&mut record, now);
    Ok(record)
}

/// Clears the failure of the latest round.
pub fn clear_latest_round_failure(record: &mut Json)
    ensures
        final(record)@ == without_failure(old(record)@),
{
    proof {
        reveal_strlit("");
        assert(""@ =~= Seq::<char>::empty());
    }
    match find_latest_round(record, "") {
        Ok((at, round)) => {
            let mut round = round;
            round.set("failure_category", Json::text(""));
            round.set("failure_message", Json::text(""));
            round.set("failure_at", Json::text(""));
            put_round(record, at, round);
        },
        Err(_) => {},
    }
}

/// What becomes of a record that is put into a status.
pub open spec fn status_written(
    path: Seq<char>,
    record: crate::json::JsonView,
    status: GoalStatus,
    now: Seq<char>,
) -> Result<crate::json::JsonView, crate::errors::ErrorView> {
    if record is Object {
        Ok(with_status(record, status, now))
    } else {
        Err(crate::work_items::not_an_object("Goal"@, path))
    }
}

impl FileWorkItemService {
    /// Puts the record that is stored at a path into a status, as of a given
    /// time. A record that is not an object is refused and stays as it is.
    pub fn write_goal_status_value_at(
        &self,
        goal_path: &str,
        record: &mut Json,
        status: &GoalStatus,
        now: &str,
    ) -> (r: RefineResult<()>)
        ensures
            match status_written(goal_path@, old(record)@, *status, now@) {
                Ok(written) => r is Ok && final(record)@ == written,
                Err(e) => r matches Err(error) && error@ == e && *final(record) == *old(record),
            },
    {
        if !record.is_object() {
            return Err(not_an_object_error("Goal", goal_path));
        }
        record.set("status", Json::text(status.as_str()));
        if *status != GoalStatus::Failed {
            clear_latest_round_failure(record);
        }
        stamp(record, now);
        Ok(())
    }

    /// Puts the record that is stored at a path into a status.
    pub fn write_goal_status_value(
        &self,
        goal_path: &str,
        record: &mut Json,
        status: &GoalStatus,
    ) -> (r: RefineResult<()>)
        ensures
            exists|now: Seq<char>|
                match #[trigger] status_written(goal_path@, old(record)@, *status, now) {
                    Ok(written) => r is Ok && final(record)@ == written,
                    Err(e) => r matches Err(error) && error@ == e && *final(record) == *old(
                        record,
                    ),
                },
    {
        let now = timestamp();
        self.write_goal_status_value_at(goal_path, record, status, now.as_str())
    }

    /// Checks the name of an assignee.
    pub fn validate_goal_assignee<'a>(assignee: &'a PersonName) -> (r: RefineResult<&'a str>)
        ensures
            match r {
                Ok(name) => checked_assignee(*assignee) == Ok::<_, crate::errors::ErrorView>(name@),
                Err(e) => checked_assignee(*assignee) == Err::<Seq<char>, _>(e@),
            },
    {
        let name = trim(assignee.text.as_str());
        if !name.is_empty() && !assignee.acceptable {
            return Err(RefineError::InvalidInput("invalid assignee name".to_owned()));
        }
        Ok(name)
    }

    /// Checks the name of a reporter.
    pub fn validate_goal_reporter<'a>(reporter: &'a PersonName) -> (r: RefineResult<&'a str>)
        ensures
            match r {
                Ok(name) => checked_reporter(*reporter) == Ok::<_, crate::errors::ErrorView>(name@),
                Err(e) => checked_reporter(*reporter) == Err::<Seq<char>, _>(e@),
            },
    {
        let name = trim(reporter.text.as_str());
        if !name.is_empty() && !reporter.acceptable {
            return Err(RefineError::InvalidInput("invalid reporter name".to_owned()));
        }
        Ok(name)
    }

    /// Moves a goal within or out of a feature, as of a given time.
    pub fn set_goal_feature_membership_at(
        &self,
        access: &GoalAccess,
        feature_id: Option<&str>,
        feature_order: Option<i64>,
        now: &str,
    ) -> (r: RefineResult<Json>)
        ensures
            crate::errors::viewed(r) == membership_set(
                *self,
                *access,
                crate::text::borrowed_view(feature_id),
                feature_order,
                now@,
            ),
    {
        let mut record = match self.read_goal_value(access) {
            Ok(record) => record,
            Err(e) => {
                return Err(e);
            },
        };
        let feature = match feature_id {
            Some(id) => Json::text(id),
            None => Json::null(),
        };
        let order = match feature_order {
            Some(order) => Json::signed(order),
            None => Json::null(),
        };
        record.set("feature_id", feature);
        record.set("feature_order", order);
        stamp(&mut record, now);
        Ok(record)
    }

    /// Moves a goal within or out of a feature.
    pub fn set_goal_feature_membership(
        &self,
        access: &GoalAccess,
        feature_id: Option<&str>,
        feature_order: Option<i64>,
    ) -> (r: RefineResult<Json>)
        ensures
            exists|now: Seq<char>|
                crate::errors::viewed(r) == #[trigger] membership_set(
                    *self,
                    *access,
                    crate::text::borrowed_view(feature_id),
                    feature_order,
                    now,
                ),
    {
        let now = timestamp();
        self.set_goal_feature_membership_at(access, feature_id, feature_order, now.as_str())
    }

    /// Puts a goal into a status, as of a given time.
    pub fn set_goal_status_unchecked_at(
        &self,
        access: &GoalAccess,
        status: &GoalStatus,
        now: &str,
    ) -> (r: RefineResult<Json>)
        ensures
            crate::errors::viewed(r) == status_set(
                *self,
                *access,
                *status,
                now@,
            ),
    {
        let mut record = match self.read_goal_value(access) {
            Ok(record) => record,
            Err(e) => {
                return Err(e);
            },
        };
        let path = match &access.summary {
            Some(goal) => self.goal_record_path(goal),
            None => String::new(),
        };
        match self.write_goal_status_value_at(path.as_str(), &mut record, status, now) {
            Ok(()) => Ok(record),
            Err(e) => Err(e),
        }
    }

    /// Puts a goal into a status.
    pub fn set_goal_status_unchecked(&self, access: &GoalAccess, status: &GoalStatus) -> (r:
        RefineResult<Json>)
        ensures
            exists|now: Seq<char>|
                crate::errors::viewed(r) == #[trigger] status_set(
                    *self,
                    *access,
                    *status,
                    now,
                ),
    {
        let now = timestamp();
        self.set_goal_status_unchecked_at(access, status, now.as_str())
    }

    /// Gives a goal a priority, as of a given time.
    pub fn set_goal_priority_unchecked_at(
        &self,
        access: &GoalAccess,
        priority: &str,
        now: &str,
    ) -> (r: RefineResult<Json>)
        ensures
            crate::errors::viewed(r) == priority_set(
                *self,
                *access,
                priority@,
                now@,
            ),
    {
        let mut record = match self.read_goal_value(access) {
            Ok(record) => record,
            Err(e) => {
                return Err(e);
            },
        };
        record.set("priority", Json::text(priority));
        stamp(&mut record, now);
        Ok(record)
    }

    /// Gives a goal a priority.
    pub fn set_goal_priority_unchecked(&self, access: &GoalAccess, priority: &str) -> (r:
        RefineResult<Json>)
        ensures
            exists|now: Seq<char>|
                crate::errors::viewed(r) == #[trigger] priority_set(
                    *self,
                    *access,
                    priority@,
                    now,
                ),
    {
        let now = timestamp();
        self.set_goal_priority_unchecked_at(access, priority, now.as_str())
    }

    /// Gives a goal a reporter, as of a given time.
    pub fn set_goal_reporter_unchecked_at(
        &self,
        access: &GoalAccess,
        reporter: &PersonName,
        now: &str,
    ) -> (r: RefineResult<Json>)
        ensures
            crate::errors::viewed(r) == reporter_set(
                *self,
                *access,
                *reporter,
                now@,
            ),
    {
        let name = match FileWorkItemService::validate_goal_reporter(reporter) {
            Ok(name) => name,
            Err(e) => {
                return Err(e);
            },
        };
        let mut record = match self.read_goal_value(access) {
            Ok(record) => record,
            Err(e) => {
                return Err(e);
            },
        };
        record.set("reporter", text_or_null_value(name));
        stamp(&mut record, now);
        Ok(record)
    }

    /// Gives a goal a reporter.
    pub fn set_goal_reporter_unchecked(&self, access: &GoalAccess, reporter: &PersonName) -> (r:
        RefineResult<Json>)
        ensures
            exists|now: Seq<char>|
                crate::errors::viewed(r) == #[trigger] reporter_set(
                    *self,
                    *access,
                    *reporter,
                    now,
                ),
    {
        let now = timestamp();
        self.set_goal_reporter_unchecked_at(access, reporter, now.as_str())
    }

    /// Gives a goal to a node, as of a given time.
    pub fn set_goal_node_unchecked_at(&self, access: &GoalAccess, node_id: &str, now: &str) -> (r:
        RefineResult<Json>)
        ensures
            crate::errors::viewed(r) == node_set(
                *self,
                *access,
                node_id@,
                now@,
            ),
    {
        let mut record = match self.read_goal_value_unchecked(access) {
            Ok(record) => record,
            Err(e) => {
                return Err(e);
            },
        };
        record.set("node_id", Json::text(node_id));
        stamp(&mut record, now);
        Ok(record)
    }

    /// Gives a goal to a node.
    pub fn set_goal_node_unchecked(&self, access: &GoalAccess, node_id: &str) -> (r: RefineResult<
        Json,
    >)
        ensures
            exists|now: Seq<char>|
                crate::errors::viewed(r) == #[trigger] node_set(
                    *self,
                    *access,
                    node_id@,
                    now,
                ),
    {
        let now = timestamp();
        self.set_goal_node_unchecked_at(access, node_id, now.as_str())
    }

    /// Gives a feature to a node, as of a given time.
    pub fn set_feature_node_unchecked_at(
        feature_path: &str,
        record: &RefineResult<Json>,
        node_id: &str,
        now: &str,
    ) -> (r: RefineResult<Json>)
        ensures
            crate::errors::viewed(r) == feature_node_set(
                feature_path@,
                *record,
                node_id@,
                now@,
            ),
    {
        match record {
            Err(e) => Err(e.clone()),
            Ok(value) => {
                if !value.is_object() {
                    return Err(not_an_object_error("Feature", feature_path));
                }
                let mut value = clone_json(value);
                value.set("node_id", Json::text(node_id));
                stamp(&mut value, now);
                Ok(value)
            },
        }
    }

    /// Gives a feature to a node.
    pub fn set_feature_node_unchecked(
        feature_path: &str,
        record: &RefineResult<Json>,
        node_id: &str,
    ) -> (r: RefineResult<Json>)
        ensures
            exists|now: Seq<char>|
                crate::errors::viewed(r) == #[trigger] feature_node_set(
                    feature_path@,
                    *record,
                    node_id@,
                    now,
                ),
    {
        let now = timestamp();
        FileWorkItemService::set_feature_node_unchecked_at(
            feature_path,
            record,
            node_id,
            now.as_str(),
        )
    }

    /// Checks the node that a goal is to be given to. `registry` is what the
    /// node registry says of it.
    pub fn validate_transfer_target_node(
        &self,
        target_node_id: &str,
        registry: &RefineResult<()>,
    ) -> (r: RefineResult<String>)
        ensures
            crate::errors::viewed(r) == if crate::text::blank(target_node_id@) {
                Err(crate::errors::ErrorView::InvalidInput("target_node_id is required"@))
            } else {
                match registry {
                    Ok(_) => Ok(crate::text::trimmed(target_node_id@)),
                    Err(e) => Err(e@),
                }
            },
    {
        if is_blank(target_node_id) {
            return Err(RefineError::InvalidInput("target_node_id is required".to_owned()));
        }
        match registry {
            Ok(_) => Ok(trim(target_node_id).to_owned()),
            Err(e) => Err(e.clone()),
        }
    }

    /// Gives the latest round of a goal an assignee, as of a given time.
    pub fn set_latest_round_assignee_at(
        &self,
        access: &GoalAccess,
        assignee: &PersonName,
        now: &str,
    ) -> (r: RefineResult<Json>)
        ensures
            crate::errors::viewed(r) == assignee_set(
                *self,
                *access,
                *assignee,
                now@,
            ),
    {
        let name = match FileWorkItemService::validate_goal_assignee(assignee) {
            Ok(name) => name,
            Err(e) => {
                return Err(e);
            },
        };
        match self.read_goal_value(access) {
            Ok(record) => assign_latest_round(record, access.goal_id.as_str(), name, now),
            Err(e) => Err(e),
        }
    }

    /// Gives the latest round of a goal an assignee.
    pub fn set_latest_round_assignee(&self, access: &GoalAccess, assignee: &PersonName) -> (r:
        RefineResult<Json>)
        ensures
            exists|now: Seq<char>|
                crate::errors::viewed(r) == #[trigger] assignee_set(
                    *self,
                    *access,
                    *assignee,
                    now,
                ),
    {
        let now = timestamp();
        self.set_latest_round_assignee_at(access, assignee, now.as_str())
    }
}

/// A change of status touches the status, the time of the change and the
/// rounds alone, and the rounds of a goal that fails stay as they were.
pub proof fn a_status_change_keeps_the_rest(
    record: crate::json::JsonView,
    status: GoalStatus,
    now: Seq<char>,
    key: Seq<char>,
)
    requires
        record is Object,
        key != "status"@,
        key != "updated"@,
        key != "rounds"@ || status == GoalStatus::Failed,
    ensures
        crate::json::field(with_status(record, status, now), key) == crate::json::field(
            record,
            key,
        ),
        crate::json::text_field(with_status(record, status, now), "status"@) == Some(
            crate::model::status_name(status),
        ),
        crate::json::text_field(with_status(record, status, now), "updated"@) == Some(now),
{
    reveal_strlit("status");
    reveal_strlit("updated");
    reveal_strlit("rounds");
    assert("status"@.len() != "updated"@.len());
    assert("rounds"@[0] != "status"@[0]);
}

/// A goal that leaves the failed status carries no failure on its latest round,
/// and every other field of that round stays as it was.
pub proof fn leaving_failure_clears_its_reason(
    record: crate::json::JsonView,
    status: GoalStatus,
    now: Seq<char>,
    key: Seq<char>,
)
    requires
        status != GoalStatus::Failed,
        latest_round(record, Seq::empty()) is Ok,
    ensures
        ({
            let (at, round) = latest_round(record, Seq::empty())->Ok_0;
            let after = rounds_of(with_status(record, status, now))->0[at];
            &&& rounds_of(with_status(record, status, now)) is Some
            &&& key == "failure_category"@ || key == "failure_message"@ || key == "failure_at"@
                ==> crate::json::text_field(after, key) == Some(""@)
            &&& key != "failure_category"@ && key != "failure_message"@ && key != "failure_at"@
                ==> crate::json::field(after, key) == crate::json::field(round, key)
        }),
{
    reveal_strlit("rounds");
    reveal_strlit("status");
    reveal_strlit("updated");
    reveal_strlit("failure_category");
    reveal_strlit("failure_message");
    reveal_strlit("failure_at");
    assert("rounds"@[0] != "status"@[0]);
    assert("rounds"@.len() != "updated"@.len());
    assert("failure_category"@.len() != "failure_message"@.len());
    assert("failure_category"@.len() != "failure_at"@.len());
    assert("failure_message"@.len() != "failure_at"@.len());
    let rounds = rounds_of(record)->0;
    crate::lists::last_position_is_sound(rounds, is_object());
    let moved = with_text(record, "status"@, crate::model::status_name(status));
    assert(rounds_of(moved) == rounds_of(record));
}

} // verus!

//! Changes to a goal's metadata, notes and rounds.
use vstd::prelude::*;

use crate::clock::timestamp;
use crate::errors::{goal_not_found_error, RefineError, RefineResult};
use crate::json::{clone_json, Json};
use crate::model::{GoalPriority, GoalStatus};
use crate::paths::parent_of;
use crate::project_state::active_goals::{ActiveGoalIndex, ActiveGoalRecord};
use crate::text::{cat2, cat3, cat5, decimal_text, is_blank, trim};
use crate::work_items::records::{
    assign_latest_round, find_latest_round, no_rounds_error, put_round, stamp, text_or_null_value, PersonName,
};
use crate::work_items::{FileWorkItemService, GoalAccess};

verus! {

/// A change to the metadata of a goal; what is absent stays as it is.
#[derive(Debug)]
pub struct MetadataEdit {
    pub name: Option<String>,
    pub priority: Option<String>,
    pub reporter: Option<PersonName>,
    /// Who is to do the latest round.
    pub assignee: Option<PersonName>,
}

/// What a metadata edit writes: the edited record, and then, where an assignee
/// is given, that record with the assignee, or why the assignee is refused.
pub struct MetadataChange {
    pub metadata: Json,
    pub assigned: Option<RefineResult<Json>>,
}

/// The writes of a metadata edit by their contents.
pub ghost struct MetadataChangeView {
    pub metadata: crate::json::JsonView,
    pub assigned: Option<Result<crate::json::JsonView, crate::errors::ErrorView>>,
}

impl View for MetadataChange {
    type V = MetadataChangeView;

    open spec fn view(&self) -> MetadataChangeView {
        MetadataChangeView {
            metadata: self.metadata@,
            assigned: match self.assigned {
                Some(r) => Some(crate::errors::viewed(r)),
                None => None,
            },
        }
    }
}

/// What a new round is made of.
#[derive(Debug)]
pub struct RoundInput {
    pub reporter: PersonName,
    pub assignee: Option<PersonName>,
    pub prompt: String,
}

/// A new round whose parts were checked.
#[derive(Debug)]
pub struct NewRound {
    pub reporter: String,
    pub assignee: String,
    pub prompt: String,
}

/// A new round by its contents.
pub ghost struct NewRoundView {
    pub reporter: Seq<char>,
    pub assignee: Seq<char>,
    pub prompt: Seq<char>,
}

impl View for NewRound {
    type V = NewRoundView;

    open spec fn view(&self) -> NewRoundView {
        NewRoundView { reporter: self.reporter@, assignee: self.assignee@, prompt: self.prompt@ }
    }
}

/// A change to the latest round of a goal; what is absent stays as it is.
#[derive(Debug)]
pub struct RoundEdit {
    pub reporter: Option<PersonName>,
    pub assignee: Option<PersonName>,
    pub prompt: Option<String>,
}

/// The Git references of a goal.
#[derive(Debug)]
pub struct GitRefs {
    pub branch_name: String,
    pub target_branch: String,
    pub base_commit: String,
    pub candidate_commit: Option<String>,
}

/// What deleting a goal takes.
#[derive(Debug)]
pub struct GoalDeletion {
    /// The record to delete.
    pub path: String,
    /// The directory to delete where nothing is left in it.
    pub directory: String,
    /// What the index of live goals is told.
    pub index_record: ActiveGoalRecord,
}

/// A priority is one of three words.
pub open spec fn is_priority(text: Seq<char>) -> bool {
    text == "low"@ || text == "medium"@ || text == "high"@
}

/// The refusal of an unknown priority.
pub open spec fn unknown_priority() -> crate::errors::ErrorView {
    crate::errors::ErrorView::InvalidInput("priority must be one of low, medium, or high"@)
}

/// A name that may be absent, checked.
pub open spec fn checked_reporter_option(name: Option<PersonName>) -> Result<
    Option<Seq<char>>,
    crate::errors::ErrorView,
> {
    match name {
        None => Ok(None),
        Some(n) => match crate::work_items::records::checked_reporter(n) {
            Ok(text) => Ok(Some(text)),
            Err(e) => Err(e),
        },
    }
}

/// An assignee that may be absent, checked.
pub open spec fn checked_assignee_option(name: Option<PersonName>) -> Result<
    Option<Seq<char>>,
    crate::errors::ErrorView,
> {
    match name {
        None => Ok(None),
        Some(n) => match crate::work_items::records::checked_assignee(n) {
            Ok(text) => Ok(Some(text)),
            Err(e) => Err(e),
        },
    }
}

/// A record with another name.
pub open spec fn with_name(record: crate::json::JsonView, name: Option<Seq<char>>) -> Result<
    crate::json::JsonView,
    crate::errors::ErrorView,
> {
    match name {
        None => Ok(record),
        Some(n) => if crate::text::blank(n) {
            Err(crate::errors::ErrorView::InvalidInput("Goal name cannot be empty"@))
        } else {
            Ok(crate::work_items::records::with_text(record, "name"@, crate::text::trimmed(n)))
        },
    }
}

/// A record with another priority.
pub open spec fn with_priority(record: crate::json::JsonView, priority: Option<Seq<char>>) -> Result<
    crate::json::JsonView,
    crate::errors::ErrorView,
> {
    match priority {
        None => Ok(record),
        Some(p) => if is_priority(p) {
            Ok(crate::work_items::records::with_text(record, "priority"@, p))
        } else {
            Err(unknown_priority())
        },
    }
}

/// A record with another reporter.
pub open spec fn with_reporter(record: crate::json::JsonView, reporter: Option<Seq<char>>) -> crate::json::JsonView {
    match reporter {
        None => record,
        Some(name) => crate::json::with_field(
            record,
            "reporter"@,
            crate::work_items::records::text_or_null(name),
        ),
    }
}

/// What becomes of a goal's record whose metadata is edited.
pub open spec fn metadata_edited(
    service: FileWorkItemService,
    access: GoalAccess,
    edit: MetadataEdit,
    now: Seq<char>,
) -> Result<crate::json::JsonView, crate::errors::ErrorView> {
    match crate::work_items::edit_gate(access) {
        Some(e) => Err(e),
        None => match checked_reporter_option(edit.reporter) {
            Err(e) => Err(e),
            Ok(reporter) => match crate::work_items::owned_record(service, access) {
                Err(e) => Err(e),
                Ok(record) => match with_name(record, crate::text::maybe_view(edit.name)) {
                    Err(e) => Err(e),
                    Ok(named) => match with_priority(named, crate::text::maybe_view(edit.priority)) {
                        Err(e) => Err(e),
                        Ok(ranked) => Ok(
                            crate::work_items::records::stamped(
                                with_reporter(ranked, reporter),
                                now,
                            ),
                        ),
                    },
                },
            },
        },
    }
}

/// Both writes of a metadata edit. The first stands even where the second is
/// refused.
pub open spec fn metadata_changed(
    service: FileWorkItemService,
    access: GoalAccess,
    edit: MetadataEdit,
    now: Seq<char>,
    then: Seq<char>,
) -> Result<MetadataChangeView, crate::errors::ErrorView> {
    match metadata_edited(service, access, edit, now) {
        Err(e) => Err(e),
        Ok(metadata) => Ok(
            MetadataChangeView {
                metadata,
                assigned: match edit.assignee {
                    None => None,
                    Some(assignee) => Some(
                        match crate::work_items::records::checked_assignee(assignee) {
                            Err(e) => Err(e),
                            Ok(name) => crate::work_items::records::with_assignee(
                                metadata,
                                access.goal_id@,
                                name,
                                then,
                            ),
                        },
                    ),
                },
            },
        ),
    }
}

/// The reporter who is registered around a metadata edit, or what refuses the
/// edit before that.
pub open spec fn metadata_reporter_outcome(access: GoalAccess, edit: MetadataEdit) -> Result<
    Option<Seq<char>>,
    crate::errors::ErrorView,
> {
    match crate::work_items::edit_gate(access) {
        Some(e) => Err(e),
        None => checked_reporter_option(edit.reporter),
    }
}

/// What becomes of a goal's record that a user gives an assignee.
pub open spec fn assignee_updated(
    service: FileWorkItemService,
    access: GoalAccess,
    assignee: PersonName,
    now: Seq<char>,
) -> Result<crate::json::JsonView, crate::errors::ErrorView> {
    match crate::work_items::edit_gate(access) {
        Some(e) => Err(e),
        None => crate::work_items::records::assignee_set(service, access, assignee, now),
    }
}

/// What becomes of a goal's record that a user gives a reporter.
pub open spec fn reporter_updated(
    service: FileWorkItemService,
    access: GoalAccess,
    reporter: PersonName,
    now: Seq<char>,
) -> Result<crate::json::JsonView, crate::errors::ErrorView> {
    match crate::work_items::edit_gate(access) {
        Some(e) => Err(e),
        None => crate::work_items::records::reporter_set(service, access, reporter, now),
    }
}

/// A note.
pub open spec fn note_value(
    id: Seq<char>,
    author: Seq<char>,
    body: Seq<char>,
    created: Seq<char>,
    updated: Seq<char>,
) -> crate::json::JsonView {
    crate::json::JsonView::Object(
        Map::<Seq<char>, crate::json::JsonView>::empty().insert(
            "id"@,
            crate::json::JsonView::Text(id),
        ).insert("author"@, crate::json::JsonView::Text(author)).insert(
            "body"@,
            crate::json::JsonView::Text(body),
        ).insert("created"@, crate::json::JsonView::Text(created)).insert(
            "updated"@,
            crate::json::JsonView::Text(updated),
        ),
    )
}

/// A record with one more element in an array; anything else that stands there
/// gives way.
pub open spec fn with_element(
    record: crate::json::JsonView,
    key: Seq<char>,
    element: crate::json::JsonView,
) -> crate::json::JsonView {
    crate::json::with_field(
        record,
        key,
        crate::json::JsonView::Array(
            match crate::json::elements(crate::json::field(record, key)) {
                Some(elements) => elements.push(element),
                None => seq![element],
            },
        ),
    )
}

/// The refusal of an empty note.
pub open spec fn empty_note() -> crate::errors::ErrorView {
    crate::errors::ErrorView::InvalidInput("note body cannot be empty"@)
}

/// What becomes of a goal's record that gets a note.
pub open spec fn note_added(
    service: FileWorkItemService,
    access: GoalAccess,
    author: Seq<char>,
    body: Seq<char>,
    note_id: Seq<char>,
    now: Seq<char>,
) -> Result<crate::json::JsonView, crate::errors::ErrorView> {
    match crate::work_items::edit_gate(access) {
        Some(e) => Err(e),
        None => if crate::text::blank(body) {
            Err(empty_note())
        } else {
            match crate::work_items::owned_record(service, access) {
                Err(e) => Err(e),
                Ok(record) => Ok(
                    crate::work_items::records::stamped(
                        with_element(
                            record,
                            "notes"@,
                            note_value(
                                note_id,
                                crate::text::trimmed(author),
                                crate::text::trimmed(body),
                                now,
                                now,
                            ),
                        ),
                        now,
                    ),
                ),
            }
        },
    }
}

/// A text under a key that is not blank, or another.
pub open spec fn filled_text(v: crate::json::JsonView, key: Seq<char>, other: Seq<char>) -> Seq<
    char,
> {
    match crate::json::text_field(v, key) {
        Some(t) => if crate::text::blank(t) { other } else { t },
        None => other,
    }
}

/// A text under a key without the white space around it; empty where there is
/// none.
pub open spec fn trimmed_text(v: crate::json::JsonView, key: Seq<char>) -> Seq<char> {
    match crate::json::text_field(v, key) {
        Some(t) => crate::text::trimmed(t),
        None => ""@,
    }
}

/// A note as it is stored: with an id, a body and its times.
pub open spec fn cleaned_note(note: crate::json::JsonView, fresh: Seq<char>, now: Seq<char>) -> Result<
    crate::json::JsonView,
    crate::errors::ErrorView,
> {
    if !(note is Object) {
        Err(crate::errors::ErrorView::InvalidInput("notes must be an array of objects"@))
    } else if trimmed_text(note, "body"@).len() == 0 {
        Err(empty_note())
    } else {
        Ok(
            note_value(
                filled_text(note, "id"@, fresh),
                trimmed_text(note, "author"@),
                trimmed_text(note, "body"@),
                filled_text(note, "created"@, now),
                now,
            ),
        )
    }
}

/// The first notes as they are stored, or the refusal of the first bad one.
pub open spec fn cleaned_notes(
    notes: Seq<crate::json::JsonView>,
    fresh: Seq<Seq<char>>,
    now: Seq<char>,
) -> Result<Seq<crate::json::JsonView>, crate::errors::ErrorView>
    decreases notes.len(),
{
    if notes.len() == 0 {
        Ok(Seq::empty())
    } else {
        match cleaned_notes(notes.drop_last(), fresh, now) {
            Err(e) => Err(e),
            Ok(before) => match cleaned_note(notes.last(), fresh[notes.len() - 1], now) {
                Err(e) => Err(e),
                Ok(note) => Ok(before.push(note)),
            },
        }
    }
}

/// What becomes of a goal's record whose notes are replaced.
pub open spec fn notes_replaced(
    service: FileWorkItemService,
    access: GoalAccess,
    notes: Seq<crate::json::JsonView>,
    fresh: Seq<Seq<char>>,
    now: Seq<char>,
) -> Result<crate::json::JsonView, crate::errors::ErrorView> {
    match crate::work_items::edit_gate(access) {
        Some(e) => Err(e),
        None => match cleaned_notes(notes, fresh, now) {
            Err(e) => Err(e),
            Ok(cleaned) => match crate::work_items::owned_record(service, access) {
                Err(e) => Err(e),
                Ok(record) => Ok(
                    crate::work_items::records::stamped(
                        crate::json::with_field(
                            record,
                            "notes"@,
                            crate::json::JsonView::Array(cleaned),
                        ),
                        now,
                    ),
                ),
            },
        },
    }
}

/// A new round: the reporter stands in for an absent assignee.
pub open spec fn checked_round(input: RoundInput) -> Result<
    NewRoundView,
    crate::errors::ErrorView,
> {
    match crate::work_items::records::checked_reporter(input.reporter) {
        Err(e) => Err(e),
        Ok(reporter) => match checked_assignee_option(input.assignee) {
            Err(e) => Err(e),
            Ok(assignee) => {
                let prompt = crate::text::trimmed(input.prompt@);
                if reporter.len() == 0 || prompt.len() == 0 {
                    Err(
                        crate::errors::ErrorView::InvalidInput(
                            "round reporter and prompt are required"@,
                        ),
                    )
                } else {
                    Ok(
                        NewRoundView {
                            reporter,
                            assignee: match assignee {
                                Some(a) => if a.len() == 0 { reporter } else { a },
                                None => reporter,
                            },
                            prompt,
                        },
                    )
                }
            },
        },
    }
}

/// The value of a new round: `base` with who reported it, who is to do it and
/// what is asked. A base that is not an object counts as an empty one.
pub open spec fn round_value(base: crate::json::JsonView, parts: NewRoundView) -> crate::json::JsonView {
    let object = if base is Object {
        base
    } else {
        crate::json::JsonView::Object(Map::empty())
    };
    crate::work_items::records::with_text(
        crate::work_items::records::with_text(
            crate::work_items::records::with_text(object, "reporter"@, parts.reporter),
            "assignee"@,
            parts.assignee,
        ),
        "prompt"@,
        parts.prompt,
    )
}

/// What becomes of a goal's record that gets a round. A goal in review goes
/// back to be done.
pub open spec fn round_appended(
    service: FileWorkItemService,
    access: GoalAccess,
    input: RoundInput,
    round: crate::json::JsonView,
    now: Seq<char>,
) -> Result<crate::json::JsonView, crate::errors::ErrorView> {
    match checked_round(input) {
        Err(e) => Err(e),
        Ok(parts) => match crate::work_items::owner_gate(service, access) {
            Some(e) => Err(e),
            None => match crate::work_items::edit_gate(access) {
                Some(e) => Err(e),
                None => match crate::work_items::read_record(service, access) {
                    Err(e) => Err(e),
                    Ok(record) => {
                        let grown = with_element(record, "rounds"@, round_value(round, parts));
                        Ok(
                            crate::work_items::records::stamped(
                                if access.summary->0.status == GoalStatus::Review {
                                    crate::work_items::records::with_text(
                                        grown,
                                        "status"@,
                                        crate::model::status_name(GoalStatus::Todo),
                                    )
                                } else {
                                    grown
                                },
                                now,
                            ),
                        )
                    },
                },
            },
        },
    }
}

/// A round with other parts.
pub open spec fn edited_round(
    round: crate::json::JsonView,
    reporter: Option<Seq<char>>,
    assignee: Option<Seq<char>>,
    prompt: Option<Seq<char>>,
    now: Seq<char>,
) -> crate::json::JsonView {
    let a = match reporter {
        Some(name) => crate::work_items::records::with_text(round, "reporter"@, name),
        None => round,
    };
    let b = match assignee {
        Some(name) => crate::json::with_field(
            a,
            "assignee"@,
            crate::work_items::records::text_or_null(name),
        ),
        None => a,
    };
    let c = match prompt {
        Some(p) => crate::work_items::records::with_text(b, "prompt"@, crate::text::trimmed(p)),
        None => b,
    };
    crate::work_items::records::stamped(c, now)
}

/// What becomes of a goal's record whose latest round is edited.
pub open spec fn latest_round_edited(
    service: FileWorkItemService,
    access: GoalAccess,
    edit: RoundEdit,
    now: Seq<char>,
) -> Result<crate::json::JsonView, crate::errors::ErrorView> {
    match checked_reporter_option(edit.reporter) {
        Err(e) => Err(e),
        Ok(reporter) => match checked_assignee_option(edit.assignee) {
            Err(e) => Err(e),
            Ok(assignee) => match crate::work_items::edit_gate(access) {
                Some(e) => Err(e),
                None => match crate::work_items::owned_record(service, access) {
                    Err(e) => Err(e),
                    Ok(record) => match crate::work_items::records::latest_round(
                        record,
                        access.goal_id@,
                    ) {
                        Err(e) => Err(e),
                        Ok((at, round)) => Ok(
                            crate::work_items::records::stamped(
                                crate::work_items::records::with_round(
                                    record,
                                    at,
                                    edited_round(
                                        round,
                                        reporter,
                                        assignee,
                                        crate::text::maybe_view(edit.prompt),
                                        now,
                                    ),
                                ),
                                now,
                            ),
                        ),
                    },
                },
            },
        },
    }
}

/// A text without the white space around it as a value, or null where there is
/// none or it is blank.
pub open spec fn trimmed_or_null(text: Option<Seq<char>>) -> crate::json::JsonView {
    match text {
        Some(t) => if crate::text::blank(t) {
            crate::json::JsonView::Null
        } else {
            crate::json::JsonView::Text(crate::text::trimmed(t))
        },
        None => crate::json::JsonView::Null,
    }
}

/// What becomes of a goal's record that gets a branch name.
pub open spec fn branch_named(
    service: FileWorkItemService,
    access: GoalAccess,
    branch_name: Option<Seq<char>>,
    now: Seq<char>,
) -> Result<crate::json::JsonView, crate::errors::ErrorView> {
    match crate::work_items::owned_record(service, access) {
        Err(e) => Err(e),
        Ok(record) => Ok(
            crate::work_items::records::stamped(
                crate::json::with_field(record, "branch_name"@, trimmed_or_null(branch_name)),
                now,
            ),
        ),
    }
}

/// A record with a text that must not be blank.
pub open spec fn with_required(
    record: Result<crate::json::JsonView, crate::errors::ErrorView>,
    key: Seq<char>,
    text: Seq<char>,
) -> Result<crate::json::JsonView, crate::errors::ErrorView> {
    match record {
        Err(e) => Err(e),
        Ok(r) => if crate::text::blank(text) {
            Err(crate::errors::ErrorView::InvalidInput(key + " is required"@))
        } else {
            Ok(crate::work_items::records::with_text(r, key, crate::text::trimmed(text)))
        },
    }
}

/// What becomes of a goal's record that gets its Git references.
pub open spec fn refs_set(
    service: FileWorkItemService,
    access: GoalAccess,
    refs: GitRefs,
    now: Seq<char>,
) -> Result<crate::json::JsonView, crate::errors::ErrorView> {
    let named = with_required(
        with_required(
            with_required(
                crate::work_items::owned_record(service, access),
                "branch_name"@,
                refs.branch_name@,
            ),
            "target_branch"@,
            refs.target_branch@,
        ),
        "base_commit"@,
        refs.base_commit@,
    );
    match named {
        Err(e) => Err(e),
        Ok(record) => Ok(
            crate::work_items::records::stamped(
                crate::json::with_field(
                    record,
                    "candidate_commit"@,
                    trimmed_or_null(crate::text::maybe_view(refs.candidate_commit)),
                ),
                now,
            ),
        ),
    }
}

/// What becomes of a goal's record that gets a candidate.
pub open spec fn candidate_set(
    service: FileWorkItemService,
    access: GoalAccess,
    candidate: Seq<char>,
    now: Seq<char>,
) -> Result<crate::json::JsonView, crate::errors::ErrorView> {
    if crate::text::blank(candidate) {
        Err(crate::errors::ErrorView::InvalidInput("candidate commit is required"@))
    } else {
        match crate::work_items::owned_record(service, access) {
            Err(e) => Err(e),
            Ok(record) => Ok(
                crate::work_items::records::stamped(
                    crate::work_items::records::with_text(
                        record,
                        "candidate_commit"@,
                        crate::text::trimmed(candidate),
                    ),
                    now,
                ),
            ),
        }
    }
}

/// The fields of an evaluation that a round takes over.
pub open spec fn evaluation_fields() -> Seq<Seq<char>> {
    seq![
        "agent_context"@,
        "guidance_decision"@,
        "rule_state"@,
        "meta_rule_state"@,
        "product_state"@,
        "constitution_state"@,
        "governance_message"@,
        "governance_details"@,
        "governance_checked_at"@,
        "governance_rule_actions"@,
        "quality_state"@,
        "quality_message"@,
        "quality_details"@,
        "quality_checked_at"@,
        "workflow_quality_timing"@,
        "workflow_git_remote"@,
        "workflow_integration"@,
        "workflow_reconciliation"@,
        "workflow_recovery"@,
        "failure_category"@,
        "failure_message"@,
        "failure_at"@,
    ]
}

/// A round with the fields that an evaluation has among the given ones.
pub open spec fn with_evaluation(
    round: crate::json::JsonView,
    evaluation: crate::json::JsonView,
    keys: Seq<Seq<char>>,
) -> crate::json::JsonView
    decreases keys.len(),
{
    if keys.len() == 0 {
        round
    } else {
        let before = with_evaluation(round, evaluation, keys.drop_last());
        match crate::json::field(evaluation, keys.last()) {
            Some(value) => crate::json::with_field(before, keys.last(), value),
            None => before,
        }
    }
}

/// What becomes of a goal's record one of whose rounds was evaluated.
pub open spec fn round_evaluated(
    service: FileWorkItemService,
    access: GoalAccess,
    round_idx: nat,
    evaluation: crate::json::JsonView,
    now: Seq<char>,
) -> Result<crate::json::JsonView, crate::errors::ErrorView> {
    match crate::work_items::owner_gate(service, access) {
        Some(e) => Err(e),
        None => if !(evaluation is Object) {
            Err(
                crate::errors::ErrorView::InvalidInput(
                    "round evaluation body must be a JSON object"@,
                ),
            )
        } else {
            match crate::work_items::read_record(service, access) {
                Err(e) => Err(e),
                Ok(record) => match crate::work_items::records::rounds_of(record) {
                    None => Err(crate::work_items::records::no_rounds(access.goal_id@)),
                    Some(rounds) => if round_idx >= rounds.len() {
                        Err(
                            crate::errors::ErrorView::NotFound(
                                "Goal "@ + access.goal_id@ + " has no round "@
                                    + crate::text::decimal(round_idx + 1),
                            ),
                        )
                    } else if !(rounds[round_idx as int] is Object) {
                        Err(
                            crate::errors::ErrorView::Serialization(
                                "round "@ + crate::text::decimal(round_idx + 1) + " for Goal "@
                                    + access.goal_id@ + " is not a JSON object"@,
                            ),
                        )
                    } else {
                        Ok(
                            crate::work_items::records::stamped(
                                crate::work_items::records::with_round(
                                    record,
                                    round_idx as int,
                                    crate::work_items::records::stamped(
                                        with_evaluation(
                                            rounds[round_idx as int],
                                            evaluation,
                                            evaluation_fields(),
                                        ),
                                        now,
                                    ),
                                ),
                                now,
                            ),
                        )
                    },
                },
            }
        },
    }
}

/// What becomes of a goal's record whose latest round was evaluated.
pub open spec fn latest_round_evaluated(
    service: FileWorkItemService,
    access: GoalAccess,
    evaluation: crate::json::JsonView,
    now: Seq<char>,
) -> Result<crate::json::JsonView, crate::errors::ErrorView> {
    match access.summary {
        None => Err(crate::errors::goal_not_found(access.goal_id@)),
        Some(goal) => if goal.round_count == 0 {
            Err(crate::work_items::records::no_rounds(access.goal_id@))
        } else {
            round_evaluated(service, access, (goal.round_count - 1) as nat, evaluation, now)
        },
    }
}

/// What becomes of a goal's record whose latest round is reported on.
pub open spec fn report_set(
    service: FileWorkItemService,
    access: GoalAccess,
    report: Seq<char>,
    now: Seq<char>,
) -> Result<crate::json::JsonView, crate::errors::ErrorView> {
    if crate::text::blank(report) {
        Err(crate::errors::ErrorView::InvalidInput("implementation report cannot be empty"@))
    } else {
        match crate::work_items::owned_record(service, access) {
            Err(e) => Err(e),
            Ok(record) => match crate::work_items::records::latest_round(record, access.goal_id@) {
                Err(e) => Err(e),
                Ok((at, round)) => Ok(
                    crate::work_items::records::stamped(
                        crate::work_items::records::with_round(
                            record,
                            at,
                            crate::work_items::records::stamped(
                                crate::work_items::records::with_text(
                                    crate::work_items::records::with_text(
                                        round,
                                        "implementation_report"@,
                                        crate::text::trimmed(report),
                                    ),
                                    "implementation_reported_at"@,
                                    now,
                                ),
                                now,
                            ),
                        ),
                        now,
                    ),
                ),
            },
        }
    }
}

/// A deletion is that of a goal: its record goes, the index of live goals drops
/// it, and its directory goes where nothing else is in it.
pub open spec fn deletes(
    service: FileWorkItemService,
    goal: crate::model::GoalIndexProjection,
    deletion: GoalDeletion,
) -> bool {
    &&& deletion.path@ == crate::work_items::record_path(service, goal)
    &&& deletion.directory@ == crate::paths::parent_dir(deletion.path@)
    &&& deletion.index_record.id@ == goal.id@
    &&& deletion.index_record.goal is None
    &&& deletion.index_record.removed
}

/// The refusal to delete a goal.
pub open spec fn deletion_gate(service: FileWorkItemService, access: GoalAccess) -> Option<
    crate::errors::ErrorView,
> {
    match crate::work_items::owner_gate(service, access) {
        Some(e) => Some(e),
        None => crate::work_items::edit_gate(access),
    }
}

fn reporter_option<'a>(name: &'a Option<PersonName>) -> (r: RefineResult<Option<&'a str>>)
    ensures
        match r {
            Ok(text) => checked_reporter_option(*name) == Ok::<_, crate::errors::ErrorView>(
                crate::text::borrowed_view(text),
            ),
            Err(e) => checked_reporter_option(*name) == Err::<Option<Seq<char>>, _>(e@),
        },
{
    match name {
        None => Ok(None),
        Some(n) => match FileWorkItemService::validate_goal_reporter(n) {
            Ok(text) => Ok(Some(text)),
            Err(e) => Err(e),
        },
    }
}

fn assignee_option<'a>(name: &'a Option<PersonName>) -> (r: RefineResult<Option<&'a str>>)
    ensures
        match r {
            Ok(text) => checked_assignee_option(*name) == Ok::<_, crate::errors::ErrorView>(
                crate::text::borrowed_view(text),
            ),
            Err(e) => checked_assignee_option(*name) == Err::<Option<Seq<char>>, _>(e@),
        },
{
    match name {
        None => Ok(None),
        Some(n) => match FileWorkItemService::validate_goal_assignee(n) {
            Ok(text) => Ok(Some(text)),
            Err(e) => Err(e),
        },
    }
}

fn note(id: &str, author: &str, body: &str, created: &str, updated: &str) -> (r: Json)
    ensures
        r@ == note_value(id@, author@, body@, created@, updated@),
{
    let mut note = Json::object();
    note.set("id", Json::text(id));
    note.set("author", Json::text(author));
    note.set("body", Json::text(body));
    note.set("created", Json::text(created));
    note.set("updated", Json::text(updated));
    note
}

fn push_element(record: &mut Json, key: &str, element: Json)
    ensures
        final(record)@ == with_element(old(record)@, key@, element@),
{
    let ghost before = record@;
    let ghost added = element@;
    let mut elements: Vec<Json> = match record.remove_array(key) {
        Some(elements) => elements,
        None => Vec::new(),
    };
    let ghost old_elements = elements@;
    elements.push(element);
    proof {
        assert(crate::json::json_views(elements@) =~= crate::json::json_views(old_elements).push(
            added,
        ));
        if crate::json::elements(crate::json::field(before, key@)) is None {
            assert(crate::json::json_views(elements@) =~= seq![added]);
        }
        let array = crate::json::JsonView::Array(crate::json::json_views(elements@));
        if before is Object {
            let m = before->Object_0;
            assert(m.remove(key@).insert(key@, array) =~= m.insert(key@, array));
        }
    }
    record.set(key, Json::array(elements));
}

fn filled<'a>(value: &'a Json, key: &str, other: &'a str) -> (r: &'a str)
    ensures
        r@ == filled_text(value@, key@, other@),
{
    match value.get_text(key) {
        Some(t) => if is_blank(t) {
            other
        } else {
            t
        },
        None => other,
    }
}

fn trimmed_part<'a>(value: &'a Json, key: &str) -> (r: &'a str)
    ensures
        r@ == trimmed_text(value@, key@),
{
    match value.get_text(key) {
        Some(t) => trim(t),
        None => "",
    }
}

/// Brings a note into the form in which it is stored.
pub fn clean_note(value: &Json, fresh_id: &str, now: &str) -> (r: RefineResult<Json>)
    ensures
        crate::errors::viewed(r) == cleaned_note(value@, fresh_id@, now@),
{
    if !value.is_object() {
        return Err(RefineError::InvalidInput("notes must be an array of objects".to_owned()));
    }
    let body = trimmed_part(value, "body");
    if body.is_empty() {
        return Err(RefineError::InvalidInput("note body cannot be empty".to_owned()));
    }
    Ok(
        note(
            filled(value, "id", fresh_id),
            trimmed_part(value, "author"),
            body,
            filled(value, "created", now),
            now,
        ),
    )
}

fn clean_notes(notes: &Vec<Json>, fresh_ids: &Vec<String>, now: &str) -> (r: RefineResult<Vec<Json>>)
    requires
        notes@.len() == fresh_ids@.len(),
    ensures
        match r {
            Ok(cleaned) => cleaned_notes(
                crate::json::json_views(notes@),
                crate::text::views(fresh_ids@),
                now@,
            ) == Ok::<_, crate::errors::ErrorView>(crate::json::json_views(cleaned@)),
            Err(e) => cleaned_notes(
                crate::json::json_views(notes@),
                crate::text::views(fresh_ids@),
                now@,
            ) == Err::<Seq<crate::json::JsonView>, _>(e@),
        },
{
    let ghost all = crate::json::json_views(notes@);
    let ghost fresh = crate::text::views(fresh_ids@);
    let mut out: Vec<Json> = Vec::new();
    let mut i: usize = 0;
    assert(all.take(0) =~= Seq::empty());
    assert(crate::json::json_views(out@) =~= Seq::empty());
    while i < notes.len()
        invariant
            i <= notes.len() == fresh_ids@.len(),
            all == crate::json::json_views(notes@),
            fresh == crate::text::views(fresh_ids@),
            cleaned_notes(all.take(i as int), fresh, now@) == Ok::<_, crate::errors::ErrorView>(
                crate::json::json_views(out@),
            ),
        decreases notes.len() - i,
    {
        assert(all.take(i as int + 1).drop_last() =~= all.take(i as int));
        assert(all.take(i as int + 1).last() == notes@[i as int]@);
        assert(fresh[i as int] == fresh_ids@[i as int]@);
        match clean_note(&notes[i], fresh_ids[i].as_str(), now) {
            Ok(cleaned) => {
                let ghost before = out@;
                let ghost view = cleaned@;
                out.push(cleaned);
                assert(crate::json::json_views(out@) =~= crate::json::json_views(before).push(
                    view,
                ));
            },
            Err(e) => {
                proof {
                    bad_notes_stop_the_rest(all, fresh, now@, i as int + 1);
                }
                return Err(e);
            },
        }
        i = i + 1;
    }
    assert(all.take(notes.len() as int) =~= all);
    Ok(out)
}

proof fn bad_notes_stop_the_rest(
    notes: Seq<crate::json::JsonView>,
    fresh: Seq<Seq<char>>,
    now: Seq<char>,
    n: int,
)
    requires
        0 <= n <= notes.len(),
        cleaned_notes(notes.take(n), fresh, now) is Err,
    ensures
        cleaned_notes(notes, fresh, now) == cleaned_notes(notes.take(n), fresh, now),
    decreases notes.len() - n,
{
    if n < notes.len() {
        assert(notes.take(n + 1).drop_last() =~= notes.take(n));
        bad_notes_stop_the_rest(notes, fresh, now, n + 1);
    } else {
        assert(notes.take(n) =~= notes);
    }
}

/// Checks the parts of a new round.
pub fn check_round(input: &RoundInput) -> (r: RefineResult<NewRound>)
    ensures
        crate::errors::viewed(r) == checked_round(*input),
{
    let reporter = match FileWorkItemService::validate_goal_reporter(&input.reporter) {
        Ok(name) => name,
        Err(e) => {
            return Err(e);
        },
    };
    let assignee = match assignee_option(&input.assignee) {
        Ok(Some(name)) => if name.is_empty() {
            reporter
        } else {
            name
        },
        Ok(None) => reporter,
        Err(e) => {
            return Err(e);
        },
    };
    let prompt = trim(input.prompt.as_str());
    if reporter.is_empty() || prompt.is_empty() {
        return Err(RefineError::InvalidInput("round reporter and prompt are required".to_owned()));
    }
    Ok(
        NewRound {
            reporter: reporter.to_owned(),
            assignee: assignee.to_owned(),
            prompt: prompt.to_owned(),
        },
    )
}

/// Makes the value of a new round.
pub fn new_round_value(base: &Json, parts: &NewRound) -> (r: Json)
    ensures
        r@ == round_value(base@, parts@),
{
    let mut round = if base.is_object() { clone_json(base) } else { Json::object() };
    round.set("reporter", Json::text(parts.reporter.as_str()));
    round.set("assignee", Json::text(parts.assignee.as_str()));
    round.set("prompt", Json::text(parts.prompt.as_str()));
    round
}

fn trimmed_value(text: Option<&str>) -> (r: Json)
    ensures
        r@ == trimmed_or_null(crate::text::borrowed_view(text)),
{
    match text {
        Some(t) => if is_blank(t) {
            Json::null()
        } else {
            Json::text(trim(t))
        },
        None => Json::null(),
    }
}

fn set_required(record: &mut Json, key: &str, text: &str) -> (r: Option<RefineError>)
    ensures
        match r {
            None => with_required(Ok(old(record)@), key@, text@) == Ok::<
                _,
                crate::errors::ErrorView,
            >(final(record)@),
            Some(e) => with_required(Ok(old(record)@), key@, text@) == Err::<
                crate::json::JsonView,
                _,
            >(e@),
        },
{
    if is_blank(text) {
        return Some(RefineError::InvalidInput(cat2(key, " is required")));
    }
    record.set(key, Json::text(trim(text)));
    None
}

fn evaluation_keys() -> (r: Vec<&'static str>)
    ensures
        r@.len() == evaluation_fields().len(),
        forall|i: int| 0 <= i < r@.len() ==> (#[trigger] r@[i])@ == evaluation_fields()[i],
{
    vec![
        "agent_context",
        "guidance_decision",
        "rule_state",
        "meta_rule_state",
        "product_state",
        "constitution_state",
        "governance_message",
        "governance_details",
        "governance_checked_at",
        "governance_rule_actions",
        "quality_state",
        "quality_message",
        "quality_details",
        "quality_checked_at",
        "workflow_quality_timing",
        "workflow_git_remote",
        "workflow_integration",
        "workflow_reconciliation",
        "workflow_recovery",
        "failure_category",
        "failure_message",
        "failure_at",
    ]
}

/// Takes the fields of an evaluation over into a round.
pub fn take_evaluation(round: &mut Json, evaluation: &Json)
    ensures
        final(round)@ == with_evaluation(old(round)@, evaluation@, evaluation_fields()),
{
    let keys = evaluation_keys();
    let ghost before = round@;
    let ghost all = evaluation_fields();
    let mut i: usize = 0;
    assert(all.take(0) =~= Seq::empty());
    while i < keys.len()
        invariant
            i <= keys.len() == all.len(),
            all == evaluation_fields(),
            forall|j: int| 0 <= j < keys@.len() ==> (#[trigger] keys@[j])@ == all[j],
            round@ == with_evaluation(before, evaluation@, all.take(i as int)),
        decreases keys.len() - i,
    {
        assert(all.take(i as int + 1).drop_last() =~= all.take(i as int));
        assert(all.take(i as int + 1).last() == keys@[i as int]@);
        match evaluation.get(keys[i]) {
            Some(value) => {
                round.set(keys[i], clone_json(value));
            },
            None => {},
        }
        i = i + 1;
    }
    assert(all.take(keys.len() as int) =~= all);
}

impl FileWorkItemService {
    fn edit_metadata_at(
        &self,
        access: &GoalAccess,
        edit: &MetadataEdit,
        now: &str,
    ) -> (r: RefineResult<Json>)
        ensures
            crate::errors::viewed(r) == metadata_edited(
                *self,
                *access,
                *edit,
                now@,
            ),
    {
        if let Some(e) = self.check_operation(access) {
            return Err(e);
        }
        let reporter = match reporter_option(&edit.reporter) {
            Ok(reporter) => reporter,
            Err(e) => {
                return Err(e);
            },
        };
        let mut record = match self.read_goal_value(access) {
            Ok(record) => record,
            Err(e) => {
                return Err(e);
            },
        };
        if let Some(name) = &edit.name {
            if is_blank(name.as_str()) {
                return Err(RefineError::InvalidInput("Goal name cannot be empty".to_owned()));
            }
            record.set("name", Json::text(trim(name.as_str())));
        }
        if let Some(priority) = &edit.priority {
            match GoalPriority::parse_wire(priority.as_str()) {
                Some(p) => {
                    record.set("priority", Json::text(p.as_str()));
                },
                None => {
                    proof {
                        assert(priority@ != crate::model::priority_name(GoalPriority::Low));
                        assert(priority@ != crate::model::priority_name(GoalPriority::Medium));
                        assert(priority@ != crate::model::priority_name(GoalPriority::High));
                    }
                    return Err(
                        RefineError::InvalidInput(
                            "priority must be one of low, medium, or high".to_owned(),
                        ),
                    );
                },
            }
        }
        if let Some(name) = reporter {
            record.set("reporter", text_or_null_value(name));
        }
        stamp(&mut record, now);
        Ok(record)
    }

    /// Edits the metadata of a goal, as of a given time. Where an assignee is
    /// given too, the latest round gets it in a second write, which may be
    /// refused when the first has been made.
    pub fn update_goal_metadata_summary_at(
        &self,
        access: &GoalAccess,
        edit: &MetadataEdit,
        now: &str,
        then: &str,
    ) -> (r: RefineResult<MetadataChange>)
        ensures
            crate::errors::viewed(r) == metadata_changed(*self, *access, *edit, now@, then@),
    {
        let metadata = match self.edit_metadata_at(access, edit, now) {
            Ok(metadata) => metadata,
            Err(e) => {
                return Err(e);
            },
        };
        let assigned = match &edit.assignee {
            None => None,
            Some(assignee) => Some(
                match FileWorkItemService::validate_goal_assignee(assignee) {
                    Ok(name) => assign_latest_round(
                        clone_json(&metadata),
                        access.goal_id.as_str(),
                        name,
                        then,
                    ),
                    Err(e) => Err(e),
                },
            ),
        };
        Ok(MetadataChange { metadata, assigned })
    }

    /// Edits the metadata of a goal. Where an assignee is given too, the latest
    /// round gets it in a second write.
    pub fn update_goal_metadata_summary(&self, access: &GoalAccess, edit: &MetadataEdit) -> (r:
        RefineResult<MetadataChange>)
        ensures
            exists|now: Seq<char>, then: Seq<char>|
                crate::errors::viewed(r) == #[trigger] metadata_changed(
                    *self,
                    *access,
                    *edit,
                    now,
                    then,
                ),
    {
        let now = timestamp();
        let then = timestamp();
        self.update_goal_metadata_summary_at(access, edit, now.as_str(), then.as_str())
    }

    /// Names the reporter who is to be registered around the write of a
    /// metadata edit, or tells what refuses the edit before that.
    pub fn metadata_reporter(&self, access: &GoalAccess, edit: &MetadataEdit) -> (r: RefineResult<
        Option<String>,
    >)
        ensures
            match r {
                Ok(reporter) => metadata_reporter_outcome(*access, *edit) == Ok::<
                    _,
                    crate::errors::ErrorView,
                >(crate::text::maybe_view(reporter)),
                Err(e) => metadata_reporter_outcome(*access, *edit) == Err::<
                    Option<Seq<char>>,
                    _,
                >(e@),
            },
    {
        if let Some(e) = self.check_operation(access) {
            return Err(e);
        }
        match reporter_option(&edit.reporter) {
            Ok(Some(reporter)) => Ok(Some(reporter.to_owned())),
            Ok(None) => Ok(None),
            Err(e) => Err(e),
        }
    }

    /// Names the reporter who is to be registered around the write of a round
    /// edit, or tells what refuses the edit before that.
    pub fn round_edit_reporter(&self, edit: &RoundEdit) -> (r: RefineResult<Option<String>>)
        ensures
            match r {
                Ok(reporter) => checked_reporter_option(edit.reporter) == Ok::<
                    _,
                    crate::errors::ErrorView,
                >(crate::text::maybe_view(reporter)) && checked_assignee_option(
                    edit.assignee,
                ) is Ok,
                Err(e) => checked_reporter_option(edit.reporter) == Err::<Option<Seq<char>>, _>(e@)
                    || (checked_reporter_option(edit.reporter) is Ok && checked_assignee_option(
                    edit.assignee,
                ) == Err::<Option<Seq<char>>, _>(e@)),
            },
    {
        match reporter_option(&edit.reporter) {
            Err(e) => Err(e),
            Ok(reporter) => match assignee_option(&edit.assignee) {
                Err(e) => Err(e),
                Ok(_) => match reporter {
                    Some(name) => Ok(Some(name.to_owned())),
                    None => Ok(None),
                },
            },
        }
    }

    /// Gives the latest round of a goal an assignee, as of a given time.
    pub fn update_goal_assignee_summary_at(
        &self,
        access: &GoalAccess,
        assignee: &PersonName,
        now: &str,
    ) -> (r: RefineResult<Json>)
        ensures
            crate::errors::viewed(r) == assignee_updated(
                *self,
                *access,
                *assignee,
                now@,
            ),
    {
        match self.check_operation(access) {
            Some(e) => Err(e),
            None => self.set_latest_round_assignee_at(access, assignee, now),
        }
    }

    /// Gives the latest round of a goal an assignee.
    pub fn update_goal_assignee_summary(&self, access: &GoalAccess, assignee: &PersonName) -> (r:
        RefineResult<Json>)
        ensures
            exists|now: Seq<char>|
                crate::errors::viewed(r) == #[trigger] assignee_updated(
                    *self,
                    *access,
                    *assignee,
                    now,
                ),
    {
        let now = timestamp();
        self.update_goal_assignee_summary_at(access, assignee, now.as_str())
    }

    /// Gives a goal a reporter, as of a given time.
    pub fn update_goal_reporter_summary_at(
        &self,
        access: &GoalAccess,
        reporter: &PersonName,
        now: &str,
    ) -> (r: RefineResult<Json>)
        ensures
            crate::errors::viewed(r) == reporter_updated(
                *self,
                *access,
                *reporter,
                now@,
            ),
    {
        match self.check_operation(access) {
            Some(e) => Err(e),
            None => self.set_goal_reporter_unchecked_at(access, reporter, now),
        }
    }

    /// Gives a goal a reporter.
    pub fn update_goal_reporter_summary(&self, access: &GoalAccess, reporter: &PersonName) -> (r:
        RefineResult<Json>)
        ensures
            exists|now: Seq<char>|
                crate::errors::viewed(r) == #[trigger] reporter_updated(
                    *self,
                    *access,
                    *reporter,
                    now,
                ),
    {
        let now = timestamp();
        self.update_goal_reporter_summary_at(access, reporter, now.as_str())
    }

    /// Adds a note to a goal, as of a given time.
    pub fn add_goal_note_summary_at(
        &self,
        access: &GoalAccess,
        author: &str,
        body: &str,
        note_id: &str,
        now: &str,
    ) -> (r: RefineResult<Json>)
        ensures
            crate::errors::viewed(r) == note_added(
                *self,
                *access,
                author@,
                body@,
                note_id@,
                now@,
            ),
    {
        if let Some(e) = self.check_operation(access) {
            return Err(e);
        }
        if is_blank(body) {
            return Err(RefineError::InvalidInput("note body cannot be empty".to_owned()));
        }
        let mut record = match self.read_goal_value(access) {
            Ok(record) => record,
            Err(e) => {
                return Err(e);
            },
        };
        push_element(&mut record, "notes", note(note_id, trim(author), trim(body), now, now));
        stamp(&mut record, now);
        Ok(record)
    }

    /// Adds a note to a goal.
    pub fn add_goal_note_summary(
        &self,
        access: &GoalAccess,
        author: &str,
        body: &str,
        note_id: &str,
    ) -> (r: RefineResult<Json>)
        ensures
            exists|now: Seq<char>|
                crate::errors::viewed(r) == #[trigger] note_added(
                    *self,
                    *access,
                    author@,
                    body@,
                    note_id@,
                    now,
                ),
    {
        let now = timestamp();
        self.add_goal_note_summary_at(access, author, body, note_id, now.as_str())
    }

    /// Replaces the notes of a goal, as of a given time. `fresh_ids` holds one
    /// id for each note, for those that bring none.
    pub fn replace_goal_notes_summary_at(
        &self,
        access: &GoalAccess,
        notes: &Vec<Json>,
        fresh_ids: &Vec<String>,
        now: &str,
    ) -> (r: RefineResult<Json>)
        requires
            notes@.len() == fresh_ids@.len(),
        ensures
            crate::errors::viewed(r) == notes_replaced(
                *self,
                *access,
                crate::json::json_views(notes@),
                crate::text::views(fresh_ids@),
                now@,
            ),
    {
        if let Some(e) = self.check_operation(access) {
            return Err(e);
        }
        let cleaned = match clean_notes(notes, fresh_ids, now) {
            Ok(cleaned) => cleaned,
            Err(e) => {
                return Err(e);
            },
        };
        let mut record = match self.read_goal_value(access) {
            Ok(record) => record,
            Err(e) => {
                return Err(e);
            },
        };
        record.set("notes", Json::array(cleaned));
        stamp(&mut record, now);
        Ok(record)
    }

    /// Replaces the notes of a goal.
    pub fn replace_goal_notes_summary(
        &self,
        access: &GoalAccess,
        notes: &Vec<Json>,
        fresh_ids: &Vec<String>,
    ) -> (r: RefineResult<Json>)
        requires
            notes@.len() == fresh_ids@.len(),
        ensures
            exists|now: Seq<char>|
                crate::errors::viewed(r) == #[trigger] notes_replaced(
                    *self,
                    *access,
                    crate::json::json_views(notes@),
                    crate::text::views(fresh_ids@),
                    now,
                ),
    {
        let now = timestamp();
        self.replace_goal_notes_summary_at(access, notes, fresh_ids, now.as_str())
    }

    /// Adds a round to a goal, as of a given time. `round` holds what a round
    /// starts out with besides the parts of the input.
    pub fn append_goal_round_summary_with_assignee_at(
        &self,
        access: &GoalAccess,
        input: &RoundInput,
        round: &Json,
        now: &str,
    ) -> (r: RefineResult<Json>)
        ensures
            crate::errors::viewed(r) == round_appended(
                *self,
                *access,
                *input,
                round@,
                now@,
            ),
    {
        let parts = match check_round(input) {
            Ok(parts) => parts,
            Err(e) => {
                return Err(e);
            },
        };
        if let Some(e) = self.check_owner(access) {
            return Err(e);
        }
        if let Some(e) = self.check_operation(access) {
            return Err(e);
        }
        let mut record = match self.read_goal_value_unchecked(access) {
            Ok(record) => record,
            Err(e) => {
                return Err(e);
            },
        };
        push_element(&mut record, "rounds", new_round_value(round, &parts));
        if let Some(goal) = &access.summary {
            if goal.status == GoalStatus::Review {
                record.set("status", Json::text(GoalStatus::Todo.as_str()));
            }
        }
        stamp(&mut record, now);
        Ok(record)
    }

    /// Adds a round to a goal.
    pub fn append_goal_round_summary_with_assignee(
        &self,
        access: &GoalAccess,
        input: &RoundInput,
        round: &Json,
    ) -> (r: RefineResult<Json>)
        ensures
            exists|now: Seq<char>|
                crate::errors::viewed(r) == #[trigger] round_appended(
                    *self,
                    *access,
                    *input,
                    round@,
                    now,
                ),
    {
        let now = timestamp();
        self.append_goal_round_summary_with_assignee_at(access, input, round, now.as_str())
    }

    /// Adds a round to a goal, to be done by its reporter.
    pub fn append_goal_round_summary(
        &self,
        access: &GoalAccess,
        reporter: PersonName,
        prompt: &str,
        round: &Json,
    ) -> (r: RefineResult<Json>)
        ensures
            exists|now: Seq<char>, input: RoundInput|
                input.reporter == reporter && input.assignee is None && input.prompt@ == prompt@
                    && crate::errors::viewed(r) == #[trigger] round_appended(
                    *self,
                    *access,
                    input,
                    round@,
                    now,
                ),
    {
        let input = RoundInput { reporter, assignee: None, prompt: prompt.to_owned() };
        self.append_goal_round_summary_with_assignee(access, &input, round)
    }

    /// Edits the latest round of a goal, as of a given time.
    pub fn edit_latest_goal_round_summary_at(
        &self,
        access: &GoalAccess,
        edit: &RoundEdit,
        now: &str,
    ) -> (r: RefineResult<Json>)
        ensures
            crate::errors::viewed(r) == latest_round_edited(
                *self,
                *access,
                *edit,
                now@,
            ),
    {
        let reporter = match reporter_option(&edit.reporter) {
            Ok(reporter) => reporter,
            Err(e) => {
                return Err(e);
            },
        };
        let assignee = match assignee_option(&edit.assignee) {
            Ok(assignee) => assignee,
            Err(e) => {
                return Err(e);
            },
        };
        if let Some(e) = self.check_operation(access) {
            return Err(e);
        }
        let mut record = match self.read_goal_value(access) {
            Ok(record) => record,
            Err(e) => {
                return Err(e);
            },
        };
        let (at, round): (usize, Json) = match find_latest_round(&record, access.goal_id.as_str()) {
            Ok(found) => found,
            Err(e) => {
                return Err(e);
            },
        };
        let mut round = round;
        if let Some(name) = reporter {
            round.set("reporter", Json::text(name));
        }
        if let Some(name) = assignee {
            round.set("assignee", text_or_null_value(name));
        }
        if let Some(prompt) = &edit.prompt {
            round.set("prompt", Json::text(trim(prompt.as_str())));
        }
        stamp(&mut round, now);
        put_round(&mut record, at, round);
        stamp(&mut record, now);
        Ok(record)
    }

    /// Edits the latest round of a goal.
    pub fn edit_latest_goal_round_summary(&self, access: &GoalAccess, edit: &RoundEdit) -> (r:
        RefineResult<Json>)
        ensures
            exists|now: Seq<char>|
                crate::errors::viewed(r) == #[trigger] latest_round_edited(
                    *self,
                    *access,
                    *edit,
                    now,
                ),
    {
        let now = timestamp();
        self.edit_latest_goal_round_summary_at(access, edit, now.as_str())
    }

    /// Names the branch of a goal, as of a given time.
    pub fn update_goal_branch_name_at(
        &self,
        access: &GoalAccess,
        branch_name: Option<&str>,
        now: &str,
    ) -> (r: RefineResult<Json>)
        ensures
            crate::errors::viewed(r) == branch_named(
                *self,
                *access,
                crate::text::borrowed_view(branch_name),
                now@,
            ),
    {
        let mut record = match self.read_goal_value(access) {
            Ok(record) => record,
            Err(e) => {
                return Err(e);
            },
        };
        record.set("branch_name", trimmed_value(branch_name));
        stamp(&mut record, now);
        Ok(record)
    }

    /// Names the branch of a goal.
    pub fn update_goal_branch_name(&self, access: &GoalAccess, branch_name: Option<&str>) -> (r:
        RefineResult<Json>)
        ensures
            exists|now: Seq<char>|
                crate::errors::viewed(r) == #[trigger] branch_named(
                    *self,
                    *access,
                    crate::text::borrowed_view(branch_name),
                    now,
                ),
    {
        let now = timestamp();
        self.update_goal_branch_name_at(access, branch_name, now.as_str())
    }

    /// Records the Git references of a goal, as of a given time.
    pub fn update_goal_git_refs_at(&self, access: &GoalAccess, refs: &GitRefs, now: &str) -> (r:
        RefineResult<Json>)
        ensures
            crate::errors::viewed(r) == refs_set(*self, *access, *refs, now@),
    {
        let mut record = match self.read_goal_value(access) {
            Ok(record) => record,
            Err(e) => {
                return Err(e);
            },
        };
        if let Some(e) = set_required(&mut record, "branch_name", refs.branch_name.as_str()) {
            return Err(e);
        }
        if let Some(e) = set_required(&mut record, "target_branch", refs.target_branch.as_str()) {
            return Err(e);
        }
        if let Some(e) = set_required(&mut record, "base_commit", refs.base_commit.as_str()) {
            return Err(e);
        }
        let candidate = match &refs.candidate_commit {
            Some(c) => Some(c.as_str()),
            None => None,
        };
        record.set("candidate_commit", trimmed_value(candidate));
        stamp(&mut record, now);
        Ok(record)
    }

    /// Records the Git references of a goal.
    pub fn update_goal_git_refs(&self, access: &GoalAccess, refs: &GitRefs) -> (r: RefineResult<
        Json,
    >)
        ensures
            exists|now: Seq<char>|
                crate::errors::viewed(r) == #[trigger] refs_set(
                    *self,
                    *access,
                    *refs,
                    now,
                ),
    {
        let now = timestamp();
        self.update_goal_git_refs_at(access, refs, now.as_str())
    }

    /// Records the candidate of a goal, as of a given time.
    pub fn update_goal_candidate_commit_at(
        &self,
        access: &GoalAccess,
        candidate_commit: &str,
        now: &str,
    ) -> (r: RefineResult<Json>)
        ensures
            crate::errors::viewed(r) == candidate_set(
                *self,
                *access,
                candidate_commit@,
                now@,
            ),
    {
        if is_blank(candidate_commit) {
            return Err(RefineError::InvalidInput("candidate commit is required".to_owned()));
        }
        let mut record = match self.read_goal_value(access) {
            Ok(record) => record,
            Err(e) => {
                return Err(e);
            },
        };
        record.set("candidate_commit", Json::text(trim(candidate_commit)));
        stamp(&mut record, now);
        Ok(record)
    }

    /// Records the candidate of a goal.
    pub fn update_goal_candidate_commit(&self, access: &GoalAccess, candidate_commit: &str) -> (r:
        RefineResult<Json>)
        ensures
            exists|now: Seq<char>|
                crate::errors::viewed(r) == #[trigger] candidate_set(
                    *self,
                    *access,
                    candidate_commit@,
                    now,
                ),
    {
        let now = timestamp();
        self.update_goal_candidate_commit_at(access, candidate_commit, now.as_str())
    }

    /// Records the evaluation of a goal's latest round, as of a given time.
    pub fn update_latest_goal_round_evaluation_summary_at(
        &self,
        access: &GoalAccess,
        evaluation: &Json,
        now: &str,
    ) -> (r: RefineResult<Json>)
        ensures
            crate::errors::viewed(r) == latest_round_evaluated(
                *self,
                *access,
                evaluation@,
                now@,
            ),
    {
        match &access.summary {
            None => Err(goal_not_found_error(access.goal_id.as_str())),
            Some(goal) => if goal.round_count == 0 {
                Err(no_rounds_error(access.goal_id.as_str()))
            } else {
                self.update_goal_round_evaluation_summary_at(
                    access,
                    goal.round_count - 1,
                    evaluation,
                    now,
                )
            },
        }
    }

    /// Records the evaluation of a goal's latest round.
    pub fn update_latest_goal_round_evaluation_summary(
        &self,
        access: &GoalAccess,
        evaluation: &Json,
    ) -> (r: RefineResult<Json>)
        ensures
            exists|now: Seq<char>|
                crate::errors::viewed(r) == #[trigger] latest_round_evaluated(
                    *self,
                    *access,
                    evaluation@,
                    now,
                ),
    {
        let now = timestamp();
        self.update_latest_goal_round_evaluation_summary_at(access, evaluation, now.as_str())
    }

    /// Records the evaluation of a goal's round, as of a given time.
    pub fn update_goal_round_evaluation_summary_at(
        &self,
        access: &GoalAccess,
        round_idx: usize,
        evaluation: &Json,
        now: &str,
    ) -> (r: RefineResult<Json>)
        ensures
            crate::errors::viewed(r) == round_evaluated(
                *self,
                *access,
                round_idx as nat,
                evaluation@,
                now@,
            ),
    {
        if let Some(e) = self.check_owner(access) {
            return Err(e);
        }
        if !evaluation.is_object() {
            return Err(
                RefineError::InvalidInput("round evaluation body must be a JSON object".to_owned()),
            );
        }
        let mut record = match self.read_goal_value_unchecked(access) {
            Ok(record) => record,
            Err(e) => {
                return Err(e);
            },
        };
        let goal_id = access.goal_id.as_str();
        let number = decimal_text(round_idx as u128 + 1);
        let mut round = match record.get_array("rounds") {
            None => {
                return Err(no_rounds_error(goal_id));
            },
            Some(rounds) => {
                if round_idx >= rounds.len() {
                    let mut m = cat3("Goal ", goal_id, " has no round ");
                    m.append(number.as_str());
                    return Err(RefineError::NotFound(m));
                }
                if !rounds[round_idx].is_object() {
                    return Err(
                        RefineError::Serialization(
                            cat5(
                                "round ",
                                number.as_str(),
                                " for Goal ",
                                goal_id,
                                " is not a JSON object",
                            ),
                        ),
                    );
                }
                clone_json(&rounds[round_idx])
            },
        };
        take_evaluation(&mut round, evaluation);
        stamp(&mut round, now);
        put_round(&mut record, round_idx, round);
        stamp(&mut record, now);
        Ok(record)
    }

    /// Records the evaluation of a goal's round.
    pub fn update_goal_round_evaluation_summary(
        &self,
        access: &GoalAccess,
        round_idx: usize,
        evaluation: &Json,
    ) -> (r: RefineResult<Json>)
        ensures
            exists|now: Seq<char>|
                crate::errors::viewed(r) == #[trigger] round_evaluated(
                    *self,
                    *access,
                    round_idx as nat,
                    evaluation@,
                    now,
                ),
    {
        let now = timestamp();
        self.update_goal_round_evaluation_summary_at(access, round_idx, evaluation, now.as_str())
    }

    /// Records the report on a goal's latest round, as of a given time.
    pub fn update_latest_goal_round_implementation_report_at(
        &self,
        access: &GoalAccess,
        report: &str,
        now: &str,
    ) -> (r: RefineResult<Json>)
        ensures
            crate::errors::viewed(r) == report_set(
                *self,
                *access,
                report@,
                now@,
            ),
    {
        if is_blank(report) {
            return Err(
                RefineError::InvalidInput("implementation report cannot be empty".to_owned()),
            );
        }
        let mut record = match self.read_goal_value(access) {
            Ok(record) => record,
            Err(e) => {
                return Err(e);
            },
        };
        let (at, round): (usize, Json) = match find_latest_round(&record, access.goal_id.as_str()) {
            Ok(found) => found,
            Err(e) => {
                return Err(e);
            },
        };
        let mut round = round;
        round.set("implementation_report", Json::text(trim(report)));
        round.set("implementation_reported_at", Json::text(now));
        stamp(&mut round, now);
        put_round(&mut record, at, round);
        stamp(&mut record, now);
        Ok(record)
    }

    /// Records the report on a goal's latest round.
    pub fn update_latest_goal_round_implementation_report(
        &self,
        access: &GoalAccess,
        report: &str,
    ) -> (r: RefineResult<Json>)
        ensures
            exists|now: Seq<char>|
                crate::errors::viewed(r) == #[trigger] report_set(
                    *self,
                    *access,
                    report@,
                    now,
                ),
    {
        let now = timestamp();
        self.update_latest_goal_round_implementation_report_at(access, report, now.as_str())
    }

    /// What deleting a goal takes, unless it is refused.
    pub fn delete_goal_record(&self, access: &GoalAccess) -> (r: RefineResult<GoalDeletion>)
        ensures
            match r {
                Err(e) => deletion_gate(*self, *access) == Some(e@),
                Ok(deletion) => deletion_gate(*self, *access) is None && deletes(
                    *self,
                    access.summary->0,
                    deletion,
                ),
            },
    {
        if let Some(e) = self.check_owner(access) {
            return Err(e);
        }
        if let Some(e) = self.check_operation(access) {
            return Err(e);
        }
        match &access.summary {
            None => Err(goal_not_found_error(access.goal_id.as_str())),
            Some(goal) => {
                let path = self.goal_record_path(goal);
                let directory = parent_of(path.as_str()).to_owned();
                Ok(
                    GoalDeletion {
                        path,
                        directory,
                        index_record: ActiveGoalIndex::forget_goal(goal.id.as_str()),
                    },
                )
            },
        }
    }
}

/// Adding a note keeps every note there was, in order, and puts the new one
/// last.
pub proof fn notes_are_never_lost(
    service: FileWorkItemService,
    access: GoalAccess,
    author: Seq<char>,
    body: Seq<char>,
    note_id: Seq<char>,
    now: Seq<char>,
    notes: Seq<crate::json::JsonView>,
)
    requires
        crate::work_items::edit_gate(access) is None,
        crate::work_items::owned_record(service, access) is Ok,
        !crate::text::blank(body),
        crate::json::elements(
            crate::json::field(crate::work_items::owned_record(service, access)->Ok_0, "notes"@),
        ) == Some(notes),
    ensures
        ({
            let after = note_added(service, access, author, body, note_id, now);
            &&& after is Ok
            &&& crate::json::elements(crate::json::field(after->Ok_0, "notes"@)) == Some(
                notes.push(
                    note_value(
                        note_id,
                        crate::text::trimmed(author),
                        crate::text::trimmed(body),
                        now,
                        now,
                    ),
                ),
            )
        }),
{
    reveal_strlit("notes");
    reveal_strlit("updated");
    assert("notes"@.len() != "updated"@.len());
}

/// Adding a round keeps every round there was, in order, and puts the new one
/// last.
pub proof fn rounds_are_never_lost(
    service: FileWorkItemService,
    access: GoalAccess,
    input: RoundInput,
    round: crate::json::JsonView,
    now: Seq<char>,
    rounds: Seq<crate::json::JsonView>,
)
    requires
        round_appended(service, access, input, round, now) is Ok,
        crate::work_items::records::rounds_of(
            crate::work_items::read_record(service, access)->Ok_0,
        ) == Some(rounds),
    ensures
        crate::work_items::records::rounds_of(
            round_appended(service, access, input, round, now)->Ok_0,
        ) == Some(rounds.push(round_value(round, checked_round(input)->Ok_0))),
{
    reveal_strlit("rounds");
    reveal_strlit("updated");
    reveal_strlit("status");
    assert("rounds"@.len() != "updated"@.len());
    assert("rounds"@[0] != "status"@[0]);
}

/// The value of a new round holds its parts, whatever it starts out with.
pub proof fn a_new_round_holds_its_parts(base: crate::json::JsonView, parts: NewRoundView)
    ensures
        crate::json::text_field(round_value(base, parts), "reporter"@) == Some(parts.reporter),
        crate::json::text_field(round_value(base, parts), "assignee"@) == Some(parts.assignee),
        crate::json::text_field(round_value(base, parts), "prompt"@) == Some(parts.prompt),
{
    reveal_strlit("reporter");
    reveal_strlit("assignee");
    reveal_strlit("prompt");
    assert("reporter"@[0] != "assignee"@[0]);
    assert("reporter"@.len() != "prompt"@.len());
    assert("assignee"@.len() != "prompt"@.len());
}

/// A new round names its trimmed reporter and prompt, and as its assignee the
/// trimmed one that was given, or else the reporter.
pub proof fn a_new_round_says_who_asked_for_what(base: crate::json::JsonView, input: RoundInput)
    requires
        checked_round(input) is Ok,
    ensures
        ({
            let round = round_value(base, checked_round(input)->Ok_0);
            let reporter = crate::text::trimmed(input.reporter.text@);
            &&& crate::json::text_field(round, "reporter"@) == Some(reporter)
            &&& crate::json::text_field(round, "prompt"@) == Some(
                crate::text::trimmed(input.prompt@),
            )
            &&& crate::json::text_field(round, "assignee"@) == Some(
                match input.assignee {
                    Some(a) => if crate::text::trimmed(a.text@).len() == 0 {
                        reporter
                    } else {
                        crate::text::trimmed(a.text@)
                    },
                    None => reporter,
                },
            )
        }),
{
    a_new_round_holds_its_parts(base, checked_round(input)->Ok_0);
}

/// A metadata edit touches the name, the priority, the reporter and the time of
/// the change alone, and each of them only where the edit brings it.
pub proof fn metadata_edits_keep_the_rest(
    service: FileWorkItemService,
    access: GoalAccess,
    edit: MetadataEdit,
    now: Seq<char>,
    key: Seq<char>,
)
    requires
        metadata_edited(service, access, edit, now) is Ok,
        key != "updated"@,
        key == "name"@ ==> edit.name is None,
        key == "priority"@ ==> edit.priority is None,
        key == "reporter"@ ==> edit.reporter is None,
    ensures
        crate::json::field(metadata_edited(service, access, edit, now)->Ok_0, key)
            == crate::json::field(crate::work_items::owned_record(service, access)->Ok_0, key),
{
}

/// Giving the latest round an assignee keeps every other round, and every field
/// of the goal but its rounds and the time of the change.
pub proof fn an_assignee_touches_only_the_latest_round(
    record: crate::json::JsonView,
    goal_id: Seq<char>,
    name: Seq<char>,
    now: Seq<char>,
    key: Seq<char>,
    i: int,
)
    requires
        crate::work_items::records::with_assignee(record, goal_id, name, now) is Ok,
        key != "updated"@,
        key != "rounds"@,
    ensures
        ({
            let after = crate::work_items::records::with_assignee(
                record,
                goal_id,
                name,
                now,
            )->Ok_0;
            let (at, round) = crate::work_items::records::latest_round(record, goal_id)->Ok_0;
            let before = crate::work_items::records::rounds_of(record);
            let rounds = crate::work_items::records::rounds_of(after);
            &&& crate::json::field(after, key) == crate::json::field(record, key)
            &&& rounds is Some && before is Some && rounds->0.len() == before->0.len()
            &&& 0 <= i < rounds->0.len() && i != at ==> rounds->0[i] == before->0[i]
        }),
{
    reveal_strlit("rounds");
    reveal_strlit("updated");
    assert("rounds"@.len() != "updated"@.len());
    let rounds = crate::work_items::records::rounds_of(record)->0;
    crate::lists::last_position_is_sound(rounds, crate::work_items::records::is_object());
}

/// Replacing notes stores as many as were given.
pub proof fn every_clean_note_is_kept(
    notes: Seq<crate::json::JsonView>,
    fresh: Seq<Seq<char>>,
    now: Seq<char>,
)
    requires
        cleaned_notes(notes, fresh, now) is Ok,
    ensures
        cleaned_notes(notes, fresh, now)->Ok_0.len() == notes.len(),
        forall|i: int|
            0 <= i < notes.len() ==> cleaned_note(#[trigger] notes[i], fresh[i], now) == Ok::<
                _,
                crate::errors::ErrorView,
            >(cleaned_notes(notes, fresh, now)->Ok_0[i]),
    decreases notes.len(),
{
    if notes.len() > 0 {
        let short = notes.drop_last();
        every_clean_note_is_kept(short, fresh, now);
        assert forall|i: int| 0 <= i < notes.len() implies cleaned_note(
            #[trigger] notes[i],
            fresh[i],
            now,
        ) == Ok::<_, crate::errors::ErrorView>(cleaned_notes(notes, fresh, now)->Ok_0[i]) by {
            if i < short.len() {
                assert(short[i] == notes[i]);
            }
        }
    }
}

/// An evaluation changes nothing of a round but the fields that it may set.
pub proof fn evaluations_touch_only_their_fields(
    round: crate::json::JsonView,
    evaluation: crate::json::JsonView,
    keys: Seq<Seq<char>>,
    key: Seq<char>,
)
    requires
        !keys.contains(key),
    ensures
        crate::json::field(with_evaluation(round, evaluation, keys), key) == crate::json::field(
            round,
            key,
        ),
    decreases keys.len(),
{
    if keys.len() > 0 {
        let short = keys.drop_last();
        assert(keys[keys.len() - 1] == keys.last());
        if short.contains(key) {
            let i = short.index_of(key);
            assert(keys[i] == key);
        }
        evaluations_touch_only_their_fields(round, evaluation, short, key);
    }
}

} // verus!

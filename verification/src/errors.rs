//! Errors of the tracker's operations.
use vstd::prelude::*;

use crate::text::cat2;

verus! {

/// Why an operation was refused or failed.
#[derive(Debug)]
pub enum RefineError {
    InvalidInput(String),
    NotFound(String),
    Unauthorized(String),
    Conflict(String),
    StaleCandidate {
        candidate_commit: String,
        recorded_base: String,
        target_branch: String,
        target_commit: String,
    },
    Degraded(String),
    Io(String),
    Serialization(String),
    NotImplemented(String),
}

/// The result of an operation of the tracker.
pub type RefineResult<T> = Result<T, RefineError>;

/// What an error says.
pub ghost enum ErrorView {
    InvalidInput(Seq<char>),
    NotFound(Seq<char>),
    Unauthorized(Seq<char>),
    Conflict(Seq<char>),
    StaleCandidate {
        candidate_commit: Seq<char>,
        recorded_base: Seq<char>,
        target_branch: Seq<char>,
        target_commit: Seq<char>,
    },
    Degraded(Seq<char>),
    Io(Seq<char>),
    Serialization(Seq<char>),
    NotImplemented(Seq<char>),
}

impl View for RefineError {
    type V = ErrorView;

    open spec fn view(&self) -> ErrorView {
        match self {
            RefineError::InvalidInput(m) => ErrorView::InvalidInput(m@),
            RefineError::NotFound(m) => ErrorView::NotFound(m@),
            RefineError::Unauthorized(m) => ErrorView::Unauthorized(m@),
            RefineError::Conflict(m) => ErrorView::Conflict(m@),
            RefineError::StaleCandidate {
                candidate_commit,
                recorded_base,
                target_branch,
                target_commit,
            } => ErrorView::StaleCandidate {
                candidate_commit: candidate_commit@,
                recorded_base: recorded_base@,
                target_branch: target_branch@,
                target_commit: target_commit@,
            },
            RefineError::Degraded(m) => ErrorView::Degraded(m@),
            RefineError::Io(m) => ErrorView::Io(m@),
            RefineError::Serialization(m) => ErrorView::Serialization(m@),
            RefineError::NotImplemented(m) => ErrorView::NotImplemented(m@),
        }
    }
}

impl Clone for RefineError {
    fn clone(&self) -> (r: Self)
        ensures
            r == *self,
    {
        match self {
            RefineError::InvalidInput(m) => RefineError::InvalidInput(m.clone()),
            RefineError::NotFound(m) => RefineError::NotFound(m.clone()),
            RefineError::Unauthorized(m) => RefineError::Unauthorized(m.clone()),
            RefineError::Conflict(m) => RefineError::Conflict(m.clone()),
            RefineError::StaleCandidate {
                candidate_commit,
                recorded_base,
                target_branch,
                target_commit,
            } => RefineError::StaleCandidate {
                candidate_commit: candidate_commit.clone(),
                recorded_base: recorded_base.clone(),
                target_branch: target_branch.clone(),
                target_commit: target_commit.clone(),
            },
            RefineError::Degraded(m) => RefineError::Degraded(m.clone()),
            RefineError::Io(m) => RefineError::Io(m.clone()),
            RefineError::Serialization(m) => RefineError::Serialization(m.clone()),
            RefineError::NotImplemented(m) => RefineError::NotImplemented(m.clone()),
        }
    }
}

/// The text of an error.
pub open spec fn described(error: ErrorView) -> Seq<char> {
    match error {
        ErrorView::InvalidInput(m) => m,
        ErrorView::NotFound(m) => m,
        ErrorView::Unauthorized(m) => m,
        ErrorView::Conflict(m) => m,
        ErrorView::StaleCandidate { candidate_commit, recorded_base, .. } => "Candidate "@
            + candidate_commit + " is stale: recorded base "@ + recorded_base
            + " is not its ancestor"@,
        ErrorView::Degraded(m) => m,
        ErrorView::Io(m) => m,
        ErrorView::Serialization(m) => m,
        ErrorView::NotImplemented(m) => m,
    }
}

impl RefineError {
    /// The text of the error.
    pub fn describe(&self) -> (r: String)
        ensures
            r@ == described(self@),
    {
        match self {
            RefineError::InvalidInput(m) => m.clone(),
            RefineError::NotFound(m) => m.clone(),
            RefineError::Unauthorized(m) => m.clone(),
            RefineError::Conflict(m) => m.clone(),
            RefineError::StaleCandidate { candidate_commit, recorded_base, .. } => {
                let mut m = cat2("Candidate ", candidate_commit.as_str());
                m.append(" is stale: recorded base ");
                m.append(recorded_base.as_str());
                m.append(" is not its ancestor");
                m
            },
            RefineError::Degraded(m) => m.clone(),
            RefineError::Io(m) => m.clone(),
            RefineError::Serialization(m) => m.clone(),
            RefineError::NotImplemented(m) => m.clone(),
        }
    }
}

/// The error of the same kind that carries another message; a stale candidate
/// becomes a conflict.
pub open spec fn with_message(error: ErrorView, message: Seq<char>) -> ErrorView {
    match error {
        ErrorView::InvalidInput(_) => ErrorView::InvalidInput(message),
        ErrorView::NotFound(_) => ErrorView::NotFound(message),
        ErrorView::Unauthorized(_) => ErrorView::Unauthorized(message),
        ErrorView::Conflict(_) => ErrorView::Conflict(message),
        ErrorView::StaleCandidate { .. } => ErrorView::Conflict(message),
        ErrorView::Degraded(_) => ErrorView::Degraded(message),
        ErrorView::Io(_) => ErrorView::Io(message),
        ErrorView::Serialization(_) => ErrorView::Serialization(message),
        ErrorView::NotImplemented(_) => ErrorView::NotImplemented(message),
    }
}

/// Gives an error another message and keeps its kind.
pub fn error_with_message(error: RefineError, message: String) -> (r: RefineError)
    ensures
        r@ == with_message(error@, message@),
{
    match error {
        RefineError::InvalidInput(_) => RefineError::InvalidInput(message),
        RefineError::NotFound(_) => RefineError::NotFound(message),
        RefineError::Unauthorized(_) => RefineError::Unauthorized(message),
        RefineError::Conflict(_) => RefineError::Conflict(message),
        RefineError::StaleCandidate { .. } => RefineError::Conflict(message),
        RefineError::Degraded(_) => RefineError::Degraded(message),
        RefineError::Io(_) => RefineError::Io(message),
        RefineError::Serialization(_) => RefineError::Serialization(message),
        RefineError::NotImplemented(_) => RefineError::NotImplemented(message),
    }
}

/// Replacing the message twice leaves the second message.
pub proof fn last_message_wins(error: ErrorView, first: Seq<char>, second: Seq<char>)
    ensures
        with_message(with_message(error, first), second) == with_message(error, second),
{
}

/// The view of a result whose success needs no view.
pub open spec fn outcome<T>(r: RefineResult<T>) -> Result<T, ErrorView> {
    match r {
        Ok(v) => Ok(v),
        Err(e) => Err(e@),
    }
}

/// The view of a result by the view of its success.
pub open spec fn viewed<T: View>(r: RefineResult<T>) -> Result<T::V, ErrorView> {
    match r {
        Ok(v) => Ok(v@),
        Err(e) => Err(e@),
    }
}

/// The view of an optional error.
pub open spec fn error_view(e: Option<RefineError>) -> Option<ErrorView> {
    match e {
        Some(e) => Some(e@),
        None => None,
    }
}

/// The refusal for a goal that the projection does not hold.
pub open spec fn goal_not_found(goal_id: Seq<char>) -> ErrorView {
    ErrorView::NotFound("Goal "@ + goal_id + " was not found in refine state"@)
}

/// Builds the refusal for an unknown goal.
pub fn goal_not_found_error(goal_id: &str) -> (r: RefineError)
    ensures
        r@ == goal_not_found(goal_id@),
{
    let mut message = cat2("Goal ", goal_id);
    message.append(" was not found in refine state");
    RefineError::NotFound(message)
}

} // verus!

//! What can stop a task.

use crate::outside::{sqlstate, sqlstate_of, DbError};
use vstd::prelude::*;

verus! {

/// Why a call on a task context did not give its result.
#[derive(Debug)]
pub enum TaskError {
    /// The database driver failed, or the server reported an error.
    Database(DbError),
    /// A JSON value could not be read or written.
    Serialization(serde_json::Error),
    /// The task was cancelled.
    Cancelled,
    /// The task gives up its run for now, and is run again later.
    Suspended,
    /// The named event did not arrive within so many seconds.
    EventTimeout(String, u64),
    /// Anything else, in words.
    Other(String),
}

/// A [`TaskError`] with its texts as sequences of characters.
pub enum ErrorView {
    Database(DbError),
    Serialization(serde_json::Error),
    Cancelled,
    Suspended,
    EventTimeout(Seq<char>, u64),
    Other(Seq<char>),
}

impl View for TaskError {
    type V = ErrorView;

    open spec fn view(&self) -> ErrorView {
        match *self {
            TaskError::Database(e) => ErrorView::Database(e),
            TaskError::Serialization(e) => ErrorView::Serialization(e),
            TaskError::Cancelled => ErrorView::Cancelled,
            TaskError::Suspended => ErrorView::Suspended,
            TaskError::EventTimeout(event_name, secs) => ErrorView::EventTimeout(event_name@, secs),
            TaskError::Other(text) => ErrorView::Other(text@),
        }
    }
}

/// A result with its error as an [`ErrorView`].
pub open spec fn outcome<T>(r: Result<T, TaskError>) -> Result<T, ErrorView> {
    match r {
        Ok(value) => Ok(value),
        Err(e) => Err(e@),
    }
}

/// What an error of the database means, by the SQLSTATE code it came with: the server says
/// by `AB001` that the task was cancelled.
pub open spec fn db_failure_by_code(code: Option<Seq<char>>, e: DbError) -> ErrorView {
    if code == Some("AB001"@) {
        ErrorView::Cancelled
    } else {
        ErrorView::Database(e)
    }
}

/// What an error of the database means.
pub open spec fn db_failure(e: DbError) -> ErrorView {
    db_failure_by_code(sqlstate_of(e), e)
}

/// What an error of the database means, by the SQLSTATE code it came with.
pub fn classify_db_error(code: Option<String>, e: DbError) -> (r: TaskError)
    ensures
        r@ == db_failure_by_code(
            match code {
                Some(text) => Some(text@),
                None => None,
            },
            e,
        ),
{
    match code {
        Some(text) => {
            if text == String::from("AB001") {
                TaskError::Cancelled
            } else {
                TaskError::Database(e)
            }
        },
        None => TaskError::Database(e),
    }
}

/// What an error of the database means.
pub fn map_db_error(e: DbError) -> (r: TaskError)
    ensures
        r@ == db_failure(e),
{
    let code = sqlstate(&e);
    classify_db_error(code, e)
}

/// What came of a statement that gives back no rows of interest.
pub fn statement_result(reply: Result<u64, DbError>) -> (r: Result<(), TaskError>)
    ensures
        outcome(r) == match reply {
            Ok(_) => Ok::<(), ErrorView>(()),
            Err(e) => Err(db_failure(e)),
        },
{
    match reply {
        Ok(_) => Ok(()),
        Err(e) => Err(map_db_error(e)),
    }
}

} // verus!

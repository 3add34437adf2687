//! What holds of errors: a task is cancelled exactly if the server says so, and every other
//! error is handed on as it is.

use crate::error::{classify_db_error, map_db_error, statement_result, TaskError};
use crate::outside::{sqlstate_of, DbError};
use vstd::prelude::*;

verus! {

/// Whether an error tells what an error of the database means.
pub open spec fn tells_failure(told: TaskError, e: DbError) -> bool {
    if sqlstate_of(e) is Some && sqlstate_of(e)->0 == "AB001"@ {
        told is Cancelled
    } else {
        told == TaskError::Database(e)
    }
}

/// Whether two errors tell the same.
pub open spec fn tell_the_same(a: TaskError, b: TaskError) -> bool {
    match a {
        TaskError::Database(e) => b == TaskError::Database(e),
        TaskError::Serialization(e) => b == TaskError::Serialization(e),
        TaskError::Cancelled => b is Cancelled,
        TaskError::Suspended => b is Suspended,
        TaskError::EventTimeout(event_name, secs) => b matches TaskError::EventTimeout(n, s) && n@
            == event_name@ && s == secs,
        TaskError::Other(text) => b matches TaskError::Other(t) && t@ == text@,
    }
}

/// The code `AB001`, and no other, is a cancellation.
pub proof fn law_one_code_cancels(code: Option<String>, e: DbError, r: TaskError)
    requires
        call_ensures(classify_db_error, (code, e), r),
    ensures
        r is Cancelled <==> code is Some && code->0@ == "AB001"@,
        r !is Cancelled ==> r == TaskError::Database(e),
{
}

/// An error of the database is a cancellation by the code that the server sent with it.
pub proof fn law_database_error_is_told(e: DbError, r: TaskError)
    requires
        call_ensures(map_db_error, (e,), r),
    ensures
        r is Cancelled <==> sqlstate_of(e) is Some && sqlstate_of(e)->0 == "AB001"@,
        r !is Cancelled ==> r == TaskError::Database(e),
        tells_failure(r, e),
{
}

/// A statement that the database carried out has a result, however many rows it touched; any
/// other has the error.
pub proof fn law_statement_result_is_told(reply: Result<u64, DbError>, r: Result<(), TaskError>)
    requires
        call_ensures(statement_result, (reply,), r),
    ensures
        r is Ok <==> reply is Ok,
        reply is Err ==> tells_failure(r->Err_0, reply->Err_0),
{
}

} // verus!

//! The outside types that a task context carries, and the outside calls that it makes.

use crate::time::Timestamp;
use chrono::{DateTime, TimeDelta, Timelike, Utc};
use tokio_postgres::Row;
use vstd::prelude::*;

verus! {

/// Any JSON value.
pub type Json = serde_json::Value;

/// An error of the database driver.
pub type DbError = tokio_postgres::Error;

/// A JSON value, carried as it is.
#[verifier::external_type_specification]
#[verifier::external_body]
pub struct ExJson(serde_json::Value);

/// What `serde_json` reports when a value cannot be read as another type.
#[verifier::external_type_specification]
#[verifier::external_body]
pub struct ExJsonError(serde_json::Error);

/// An error of the database driver, carried as it is.
#[verifier::external_type_specification]
#[verifier::external_body]
pub struct ExDbError(tokio_postgres::Error);

/// A row that the database answered with.
#[verifier::external_type_specification]
#[verifier::external_body]
pub struct ExRow(tokio_postgres::Row);

/// A task or run identifier, carried as it is.
#[verifier::external_type_specification]
#[verifier::external_body]
pub struct ExUuid(uuid::Uuid);

/// `serde_json::Value::clone` copies the value: the copy is equal to it.
pub assume_specification[ <serde_json::Value as Clone>::clone ](v: &serde_json::Value) -> (r:
    serde_json::Value)
    ensures
        r == *v,
;

/// `String::from` copies the characters of a `&str`.
pub assume_specification<'a>[ <std::string::String as std::convert::From<&'a str>>::from ](
    s: &str,
) -> (r: std::string::String)
    ensures
        r@ == s@,
;

/// Whether a JSON value is null, as `serde_json::Value::is_null` tells.
pub uninterp spec fn json_is_null(v: serde_json::Value) -> bool;

/// The JSON null.
pub open spec fn null() -> Json {
    choose|v: Json| json_is_null(v)
}

/// Makes `serde_json::Value::Null`: the one JSON value that is null.
#[verifier::external_body]
pub(crate) fn json_null() -> (r: Json)
    ensures
        forall|v: Json| json_is_null(v) <==> v == r,
{
    serde_json::Value::Null
}

/// The time that a JSON value holds, as `serde_json::from_value` reads it into a
/// `chrono::DateTime<Utc>`; or the error with which it refuses the value.
pub uninterp spec fn time_in_json(v: serde_json::Value) -> Result<Timestamp, serde_json::Error>;

/// The JSON value that `serde_json::to_value` makes of the `chrono::DateTime<Utc>` at a time.
pub uninterp spec fn json_of_time(t: Timestamp) -> serde_json::Value;

/// Calls `serde_json::from_value` for a `chrono::DateTime<Utc>`. What it gives depends on the
/// value alone. A time that it gives is one that chrono can hold, with a fraction past the
/// second only in the last second of a minute.
#[verifier::external_body]
pub(crate) fn json_to_time(v: Json) -> (r: Result<Timestamp, serde_json::Error>)
    ensures
        r == time_in_json(v),
        r is Ok ==> r->Ok_0.well_formed() && r->Ok_0.settled() == r->Ok_0,
{
    let read = serde_json::from_value::<DateTime<Utc>>(v)?;
    Ok(Timestamp { secs: read.timestamp(), nanos: read.timestamp_subsec_nanos() })
}

/// Calls `serde_json::to_value` on the `chrono::DateTime<Utc>` at `t`. It writes an RFC 3339
/// string and never fails; reading that string gives the time back, settled.
#[verifier::external_body]
pub(crate) fn time_to_json(t: Timestamp) -> (r: Result<Json, serde_json::Error>)
    requires
        t.well_formed(),
    ensures
        r is Ok,
        r->Ok_0 == json_of_time(t),
        time_in_json(r->Ok_0) is Ok,
        time_in_json(r->Ok_0)->Ok_0 == t.settled(),
{
    let second = DateTime::<Utc>::from_timestamp(t.secs, 0).unwrap().naive_utc();
    serde_json::to_value(second.with_nanosecond(t.nanos).unwrap().and_utc())
}

/// Calls `chrono::Utc::now`: a time from 1970 on, within chrono's range and never inside a
/// leap second. Nothing else is known of what the clock says. Where the machine's clock is set
/// outside that, `Utc::now` panics.
#[verifier::external_body]
pub(crate) fn utc_now() -> (r: Timestamp)
    ensures
        r.clock_reading(),
{
    let now = Utc::now();
    Timestamp { secs: now.timestamp(), nanos: now.timestamp_subsec_nanos() }
}

/// Whether a time is one that the clock says: one that [`utc_now`] gives.
pub closed spec fn clock_says(t: Timestamp) -> bool {
    call_ensures(utc_now, (), t)
}

/// Reads the clock.
pub(crate) fn read_clock() -> (r: Timestamp)
    ensures
        clock_says(r),
        r.clock_reading(),
{
    let now = utc_now();
    now
}

/// What the clock says is a time that a clock can say.
pub proof fn law_clock_says_what_it_can(t: Timestamp)
    requires
        clock_says(t),
    ensures
        t.clock_reading(),
{
}

/// Calls `chrono::DateTime::checked_add_signed` with `seconds` whole seconds: outside a leap
/// second, the seconds are added and the fraction stays; `None` if and only if the sum is out
/// of chrono's range.
#[verifier::external_body]
pub(crate) fn checked_add_seconds(t: Timestamp, seconds: i64) -> (r: Option<Timestamp>)
    requires
        t.well_formed(),
        t.nanos < 1_000_000_000,
    ensures
        match r {
            Some(sum) => sum.secs == t.secs + seconds && sum.nanos == t.nanos && sum.well_formed(),
            None => !crate::time::in_range(t.secs + seconds),
        },
{
    let sum = DateTime::<Utc>::from_timestamp(t.secs, t.nanos)?
        .checked_add_signed(TimeDelta::try_seconds(seconds)?)?;
    Some(Timestamp { secs: sum.timestamp(), nanos: sum.timestamp_subsec_nanos() })
}

/// The SQLSTATE code that the server sent with an error; `None` if the error did not come
/// from the server.
pub uninterp spec fn sqlstate_of(e: tokio_postgres::Error) -> Option<Seq<char>>;

/// Calls `tokio_postgres::Error::as_db_error` and reads the code of what it gives: the code
/// depends on the error alone.
#[verifier::external_body]
pub(crate) fn sqlstate(e: &DbError) -> (r: Option<String>)
    ensures
        match r {
            Some(code) => sqlstate_of(*e) == Some(code@),
            None => sqlstate_of(*e) is None,
        },
{
    e.as_db_error().map(|server_error| server_error.code().code().to_string())
}

/// The names of a row's columns, in order.
pub uninterp spec fn row_columns(row: tokio_postgres::Row) -> Seq<Seq<char>>;

/// Calls `tokio_postgres::Row::columns` and reads off the names.
#[verifier::external_body]
pub(crate) fn column_names(row: &Row) -> (r: Vec<String>)
    ensures
        crate::events::texts(r@) == row_columns(*row),
{
    row.columns().iter().map(|column| column.name().to_string()).collect()
}

/// What `tokio_postgres::Row::try_get` reads as a `bool` from the column of a name.
pub uninterp spec fn row_flag(row: tokio_postgres::Row, column: Seq<char>) -> Result<
    bool,
    tokio_postgres::Error,
>;

/// Calls `tokio_postgres::Row::try_get` for a `bool`, by the column's name. What it gives
/// depends on the row and the name alone.
#[verifier::external_body]
pub(crate) fn try_get_flag(row: &Row, column: &str) -> (r: Result<bool, DbError>)
    ensures
        r == row_flag(*row, column@),
{
    row.try_get(column)
}

/// What `tokio_postgres::Row::try_get` reads as a JSON value that may be missing from the
/// column of a name.
pub uninterp spec fn row_json(row: tokio_postgres::Row, column: Seq<char>) -> Result<
    Option<serde_json::Value>,
    tokio_postgres::Error,
>;

/// Calls `tokio_postgres::Row::try_get` for a JSON value that may be missing, by the column's
/// name. What it gives depends on the row and the name alone.
#[verifier::external_body]
pub(crate) fn try_get_json(row: &Row, column: &str) -> (r: Result<Option<Json>, DbError>)
    ensures
        r == row_json(*row, column@),
{
    row.try_get(column)
}

/// What `tokio_postgres::Row::try_get` reads as a text from the column at an index.
pub uninterp spec fn row_text_at(row: tokio_postgres::Row, index: int) -> Result<
    Seq<char>,
    tokio_postgres::Error,
>;

/// Calls `tokio_postgres::Row::try_get` for a `String`, by the column's index. What it gives
/// depends on the row and the index alone.
#[verifier::external_body]
pub(crate) fn try_get_text_at(row: &Row, index: usize) -> (r: Result<String, DbError>)
    ensures
        match r {
            Ok(text) => row_text_at(*row, index as int) matches Ok(seen) && seen == text@,
            Err(e) => row_text_at(*row, index as int) matches Err(seen) && seen == e,
        },
{
    row.try_get(index)
}

/// What `tokio_postgres::Row::try_get` reads as a JSON value from the column at an index.
pub uninterp spec fn row_json_at(row: tokio_postgres::Row, index: int) -> Result<
    serde_json::Value,
    tokio_postgres::Error,
>;

/// Calls `tokio_postgres::Row::try_get` for a JSON value, by the column's index. What it gives
/// depends on the row and the index alone.
#[verifier::external_body]
pub(crate) fn try_get_json_at(row: &Row, index: usize) -> (r: Result<Json, DbError>)
    ensures
        r == row_json_at(*row, index as int),
{
    row.try_get(index)
}

} // verus!

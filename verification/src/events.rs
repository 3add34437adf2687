//! What the database answers to a task that awaits an event.

use crate::outside::{
    column_names, json_is_null, json_null, null, row_columns, row_flag, row_json, try_get_flag,
    try_get_json, DbError, Json,
};
use tokio_postgres::Row;
use vstd::prelude::*;

verus! {

/// A row that the database answers with: the names of its columns, and what reading each
/// column of interest gives.
#[derive(Debug)]
pub struct AwaitEventRow {
    pub columns: Vec<String>,
    pub should_suspend: Result<bool, DbError>,
    pub payload: Result<Option<Json>, DbError>,
    pub timed_out: Result<bool, DbError>,
}

/// An [`AwaitEventRow`] with its texts as sequences of characters.
pub struct AwaitEventRowView {
    pub columns: Seq<Seq<char>>,
    pub should_suspend: Result<bool, DbError>,
    pub payload: Result<Option<Json>, DbError>,
    pub timed_out: Result<bool, DbError>,
}

/// Texts as sequences of characters.
pub open spec fn texts(strings: Seq<String>) -> Seq<Seq<char>> {
    Seq::new(strings.len(), |i: int| strings[i]@)
}

impl View for AwaitEventRow {
    type V = AwaitEventRowView;

    open spec fn view(&self) -> AwaitEventRowView {
        AwaitEventRowView {
            columns: texts(self.columns@),
            should_suspend: self.should_suspend,
            payload: self.payload,
            timed_out: self.timed_out,
        }
    }
}

/// What a row of the database holds.
pub open spec fn row_content(row: Row) -> AwaitEventRowView {
    AwaitEventRowView {
        columns: row_columns(row),
        should_suspend: row_flag(row, "should_suspend"@),
        payload: row_json(row, "payload"@),
        timed_out: row_flag(row, "timed_out"@),
    }
}

/// What such a row says.
#[derive(Debug)]
pub enum AwaitVerdict {
    /// It has a number of columns, or a third column, that no database version sends.
    Malformed(usize),
    /// A column could not be read.
    Unreadable(DbError),
    /// The event did not arrive in time.
    TimedOut,
    /// The event arrived, with this payload.
    Delivered(Json),
    /// The event is still to come.
    Pending,
}

/// What a row says that reports no timeout: the event is still to come, or has arrived; a
/// payload that is missing is null.
pub open spec fn arrival(should_suspend: bool, payload: Option<Json>) -> AwaitVerdict {
    if should_suspend {
        AwaitVerdict::Pending
    } else {
        AwaitVerdict::Delivered(
            match payload {
                Some(value) => value,
                None => null(),
            },
        )
    }
}

impl AwaitEventRowView {
    /// Whether one of the columns is `timed_out`.
    pub open spec fn has_timed_out_column(self) -> bool {
        exists|i: int| 0 <= i < self.columns.len() && #[trigger] self.columns[i] == "timed_out"@
    }

    /// A row of three columns, one of them `timed_out`, tells of a timeout itself.
    pub open spec fn tells_timeout(self) -> bool {
        self.columns.len() == 3 && self.has_timed_out_column()
    }

    /// What the row says. A row of two columns cannot tell of a timeout: there, an event
    /// without a payload is one if the run was woken without one, `woken_without_payload`.
    pub open spec fn verdict(self, woken_without_payload: bool) -> AwaitVerdict {
        if self.columns.len() != 2 && !self.tells_timeout() {
            AwaitVerdict::Malformed(self.columns.len() as usize)
        } else {
            match (self.should_suspend, self.payload) {
                (Err(e), _) => AwaitVerdict::Unreadable(e),
                (_, Err(e)) => AwaitVerdict::Unreadable(e),
                (Ok(should_suspend), Ok(payload)) => {
                    if self.tells_timeout() {
                        match self.timed_out {
                            Err(e) => AwaitVerdict::Unreadable(e),
                            Ok(true) => AwaitVerdict::TimedOut,
                            Ok(false) => arrival(should_suspend, payload),
                        }
                    } else if !should_suspend && payload is None && woken_without_payload {
                        AwaitVerdict::TimedOut
                    } else {
                        arrival(should_suspend, payload)
                    }
                },
            }
        }
    }
}

impl AwaitEventRow {
    /// Reads a row of the database.
    pub fn read(row: &Row) -> (r: AwaitEventRow)
        ensures
            r@ == row_content(*row),
    {
        AwaitEventRow {
            columns: column_names(row),
            should_suspend: try_get_flag(row, "should_suspend"),
            payload: try_get_json(row, "payload"),
            timed_out: try_get_flag(row, "timed_out"),
        }
    }

    /// Whether one of the columns is `timed_out`.
    fn find_timed_out_column(&self) -> (r: bool)
        ensures
            r == self@.has_timed_out_column(),
    {
        let wanted = String::from("timed_out");
        for i in 0..self.columns.len()
            invariant
                wanted@ == "timed_out"@,
                forall|j: int| 0 <= j < i ==> (#[trigger] self.columns@[j])@ != "timed_out"@,
        {
            if self.columns[i] == wanted {
                assert(self@.columns[i as int] == "timed_out"@);
                return true;
            }
        }
        false
    }

    /// What the row says.
    pub fn judge(self, woken_without_payload: bool) -> (r: AwaitVerdict)
        ensures
            r == self@.verdict(woken_without_payload),
            r is Delivered && self.payload->Ok_0 is None ==> json_is_null(r->Delivered_0),
    {
        let count: usize = self.columns.len();
        let tells_timeout = count == 3 && self.find_timed_out_column();
        if count != 2 && !tells_timeout {
            return AwaitVerdict::Malformed(count);
        }
        let should_suspend = match self.should_suspend {
            Ok(should_suspend) => should_suspend,
            Err(e) => return AwaitVerdict::Unreadable(e),
        };
        let payload = match self.payload {
            Ok(payload) => payload,
            Err(e) => return AwaitVerdict::Unreadable(e),
        };
        let timed_out = if tells_timeout {
            match self.timed_out {
                Ok(timed_out) => timed_out,
                Err(e) => return AwaitVerdict::Unreadable(e),
            }
        } else {
            !should_suspend && payload.is_none() && woken_without_payload
        };
        if timed_out {
            AwaitVerdict::TimedOut
        } else if should_suspend {
            AwaitVerdict::Pending
        } else {
            AwaitVerdict::Delivered(payload_or_null(payload))
        }
    }
}

/// The payload of an event; null if it has none.
pub fn payload_or_null(payload: Option<Json>) -> (r: Json)
    ensures
        r == match payload {
            Some(value) => value,
            None => null(),
        },
        payload is None ==> json_is_null(r),
{
    match payload {
        Some(value) => value,
        None => {
            let value = json_null();
            assert(json_is_null(value));
            value
        },
    }
}

} // verus!

//! What holds of waits for events, on the columns of the row that the database answers with.

use crate::context::{AwaitStep, TaskContext};
use crate::error::TaskError;
use crate::events::{payload_or_null, AwaitEventRow, AwaitVerdict};
use crate::laws::contexts::{recorded_once, used_once_more, uses};
use crate::laws::errors::{tell_the_same, tells_failure};
use crate::laws::names::{
    is_number, law_numbers_are_read_back, law_use_has_one_name, names_use, number_of,
};
use crate::laws::same_run;
use crate::model::ContextView;
use crate::options::AwaitEventOptions;
use crate::outside::{json_is_null, row_columns, row_flag, row_json, DbError, Json};
use crate::request::Request;
use tokio_postgres::Row;
use vstd::prelude::*;
use vstd::string::*;

verus! {

/// Whether a row has a column for the timeout: it has three columns, and one of them is named
/// so.
pub open spec fn has_timeout_column(row: AwaitEventRow) -> bool {
    &&& row.columns@.len() == 3
    &&& exists|i: int| 0 <= i < 3 && (#[trigger] row.columns@[i])@ == "timed_out"@
}

/// Whether a row is as some database version sends it.
pub open spec fn has_known_columns(row: AwaitEventRow) -> bool {
    row.columns@.len() == 2 || has_timeout_column(row)
}

/// Whether every column that counts could be read.
pub open spec fn is_readable(row: AwaitEventRow) -> bool {
    &&& row.should_suspend is Ok
    &&& row.payload is Ok
    &&& has_timeout_column(row) ==> row.timed_out is Ok
}

/// Whether a row without a column for the timeout is taken for one: the event is said to have
/// arrived, without a payload, to a run that was waiting for it and was woken without one.
pub open spec fn is_untold_timeout(
    ctx: ContextView,
    event_name: Seq<char>,
    row: AwaitEventRow,
) -> bool {
    &&& !has_timeout_column(row)
    &&& !row.should_suspend->Ok_0
    &&& row.payload->Ok_0 is None
    &&& ctx.wake_event is Some
    &&& ctx.wake_event->0 == event_name
    &&& ctx.event_payload is None
}

/// Whether a row reports a timeout.
pub open spec fn reports_timeout(
    ctx: ContextView,
    event_name: Seq<char>,
    row: AwaitEventRow,
) -> bool {
    if has_timeout_column(row) {
        row.timed_out->Ok_0
    } else {
        is_untold_timeout(ctx, event_name, row)
    }
}

/// An event that has arrived is received as it was sent. For every context, and every readable
/// row that reports no timeout and says that the run need not wait: the result is the row's
/// payload, null only if it has none, and that same value is recorded under the checkpoint
/// name. What else woke the run is used up; nothing else changes.
pub proof fn law_arrived_event_is_received_as_sent(
    ctx: &mut TaskContext,
    event_name: &str,
    options: &AwaitEventOptions,
    checkpoint_name: String,
    row: AwaitEventRow,
    r: Result<Json, TaskError>,
)
    requires
        has_known_columns(row),
        is_readable(row),
        !reports_timeout(old(ctx)@, event_name@, row),
        !row.should_suspend->Ok_0,
        call_ensures(
            TaskContext::conclude_await,
            (
                ctx,
                event_name,
                options,
                checkpoint_name,
                Ok::<Option<AwaitEventRow>, DbError>(Some(row)),
            ),
            r,
        ),
    ensures
        r is Ok,
        row.payload->Ok_0 is Some ==> r->Ok_0 == row.payload->Ok_0->0,
        row.payload->Ok_0 is None ==> json_is_null(r->Ok_0),
        recorded_once(old(ctx)@, final(ctx)@, checkpoint_name@, r->Ok_0),
        final(ctx)@.event_payload is None,
        final(ctx)@.wake_event == old(ctx)@.wake_event,
{
    lemma_columns_are_seen(row);
}

/// A timeout that is reported is told, with the event's name and the seconds waited for, 0 if
/// no limit was given. Nothing is recorded, and what woke the run is used up.
pub proof fn law_timeout_is_told(
    ctx: &mut TaskContext,
    event_name: &str,
    options: &AwaitEventOptions,
    checkpoint_name: String,
    row: AwaitEventRow,
    r: Result<Json, TaskError>,
)
    requires
        has_known_columns(row),
        is_readable(row),
        reports_timeout(old(ctx)@, event_name@, row),
        call_ensures(
            TaskContext::conclude_await,
            (
                ctx,
                event_name,
                options,
                checkpoint_name,
                Ok::<Option<AwaitEventRow>, DbError>(Some(row)),
            ),
            r,
        ),
    ensures
        r is Err,
        r->Err_0 is EventTimeout,
        r->Err_0->EventTimeout_0@ == event_name@,
        options.timeout_secs is Some ==> r->Err_0->EventTimeout_1 == options.timeout_secs->0,
        options.timeout_secs is None ==> r->Err_0->EventTimeout_1 == 0,
        final(ctx)@.wake_event is None,
        final(ctx)@.event_payload is None,
        final(ctx)@.checkpoints == old(ctx)@.checkpoints,
        final(ctx)@.counters == old(ctx)@.counters,
        same_run(old(ctx)@, final(ctx)@),
{
    lemma_columns_are_seen(row);
}

/// An event that is still to come suspends the task, and nothing changes.
pub proof fn law_pending_event_suspends(
    ctx: &mut TaskContext,
    event_name: &str,
    options: &AwaitEventOptions,
    checkpoint_name: String,
    row: AwaitEventRow,
    r: Result<Json, TaskError>,
)
    requires
        has_known_columns(row),
        is_readable(row),
        !reports_timeout(old(ctx)@, event_name@, row),
        row.should_suspend->Ok_0,
        call_ensures(
            TaskContext::conclude_await,
            (
                ctx,
                event_name,
                options,
                checkpoint_name,
                Ok::<Option<AwaitEventRow>, DbError>(Some(row)),
            ),
            r,
        ),
    ensures
        r is Err,
        r->Err_0 is Suspended,
        final(ctx)@ == old(ctx)@,
{
    lemma_columns_are_seen(row);
}

/// A row with other columns is an error that tells how many there are, and nothing changes.
pub proof fn law_unknown_columns_are_counted(
    ctx: &mut TaskContext,
    event_name: &str,
    options: &AwaitEventOptions,
    checkpoint_name: String,
    row: AwaitEventRow,
    r: Result<Json, TaskError>,
)
    requires
        !has_known_columns(row),
        call_ensures(
            TaskContext::conclude_await,
            (
                ctx,
                event_name,
                options,
                checkpoint_name,
                Ok::<Option<AwaitEventRow>, DbError>(Some(row)),
            ),
            r,
        ),
    ensures
        r is Err,
        r->Err_0 is Other,
        ({
            let text = r->Err_0->Other_0@;
            let words = "await_event returned unexpected column count: "@;
            &&& text.len() > words.len()
            &&& text.take(words.len() as int) == words
            &&& is_number(text.skip(words.len() as int))
            &&& number_of(text.skip(words.len() as int)) == row.columns@.len()
        }),
        final(ctx)@ == old(ctx)@,
{
    lemma_columns_are_seen(row);
    law_numbers_are_read_back(row.columns@.len());
    let text = r->Err_0->Other_0@;
    let words = "await_event returned unexpected column count: "@;
    assert(text.take(words.len() as int) == words);
    assert(text.skip(words.len() as int) == crate::names::decimal(row.columns@.len()));
}

/// A column that cannot be read is told by its own error: whether to wait comes first, then
/// the payload, then the timeout if there is a column for it. Nothing changes, and no code
/// makes it a cancellation.
pub proof fn law_unreadable_column_is_told(
    ctx: &mut TaskContext,
    event_name: &str,
    options: &AwaitEventOptions,
    checkpoint_name: String,
    row: AwaitEventRow,
    r: Result<Json, TaskError>,
)
    requires
        has_known_columns(row),
        !is_readable(row),
        call_ensures(
            TaskContext::conclude_await,
            (
                ctx,
                event_name,
                options,
                checkpoint_name,
                Ok::<Option<AwaitEventRow>, DbError>(Some(row)),
            ),
            r,
        ),
    ensures
        r is Err,
        row.should_suspend is Err ==> r->Err_0 == TaskError::Database(row.should_suspend->Err_0),
        row.should_suspend is Ok && row.payload is Err ==> r->Err_0 == TaskError::Database(
            row.payload->Err_0,
        ),
        row.should_suspend is Ok && row.payload is Ok ==> r->Err_0 == TaskError::Database(
            row.timed_out->Err_0,
        ),
        final(ctx)@ == old(ctx)@,
{
    lemma_columns_are_seen(row);
}

/// No answer is an answer of an event: without a row there is an error in words, and an error
/// of the database is told. Nothing changes.
pub proof fn law_missing_answer_is_told(
    ctx: &mut TaskContext,
    event_name: &str,
    options: &AwaitEventOptions,
    checkpoint_name: String,
    answer: Result<Option<AwaitEventRow>, DbError>,
    r: Result<Json, TaskError>,
)
    requires
        answer is Err || answer->Ok_0 is None,
        call_ensures(
            TaskContext::conclude_await,
            (ctx, event_name, options, checkpoint_name, answer),
            r,
        ),
    ensures
        r is Err,
        answer is Ok ==> r->Err_0 is Other && r->Err_0->Other_0@
            == "await_event returned no rows"@,
        answer is Err ==> tells_failure(r->Err_0, answer->Err_0),
        final(ctx)@ == old(ctx)@,
{
}

/// A row of the database is read column by column: all of its column names, and what each
/// column of interest holds.
pub proof fn law_row_is_read_by_its_columns(row: Row, r: AwaitEventRow)
    requires
        call_ensures(AwaitEventRow::read, (&row,), r),
    ensures
        r.columns@.len() == row_columns(row).len(),
        forall|i: int| 0 <= i < r.columns@.len() ==> (#[trigger] r.columns@[i])@ == row_columns(
            row,
        )[i],
        r.should_suspend == row_flag(row, "should_suspend"@),
        r.payload == row_json(row, "payload"@),
        r.timed_out == row_flag(row, "timed_out"@),
{
    let names = crate::events::texts(r.columns@);
    assert(names == row_columns(row));
    assert forall|i: int| 0 <= i < r.columns@.len() implies (#[trigger] r.columns@[i])@
        == row_columns(row)[i] by {
        assert(names[i] == r.columns@[i]@);
    }
}

/// Of the rows that the database answers with, the first alone counts: the wait goes on as it
/// does for what is read of that row.
pub proof fn law_first_row_counts(
    ctx: &mut TaskContext,
    event_name: &str,
    options: &AwaitEventOptions,
    checkpoint_name: String,
    rows: Vec<Row>,
    r: Result<Json, TaskError>,
    first: AwaitEventRow,
    given: &mut TaskContext,
    r_given: Result<Json, TaskError>,
)
    requires
        rows@.len() > 0,
        old(given)@ == old(ctx)@,
        call_ensures(
            TaskContext::await_event_reply,
            (ctx, event_name, options, checkpoint_name, Ok::<Vec<Row>, DbError>(rows)),
            r,
        ),
        call_ensures(AwaitEventRow::read, (&rows@[0],), first),
        call_ensures(
            TaskContext::conclude_await,
            (
                given,
                event_name,
                options,
                checkpoint_name,
                Ok::<Option<AwaitEventRow>, DbError>(Some(first)),
            ),
            r_given,
        ),
    ensures
        final(ctx)@ == final(given)@,
        r is Ok <==> r_given is Ok,
        r is Ok ==> r->Ok_0 == r_given->Ok_0,
        r is Err ==> tell_the_same(r->Err_0, r_given->Err_0),
{
}

/// Without a row there is an error in words, and an error of the database is told. Nothing
/// changes.
pub proof fn law_missing_row_is_told(
    ctx: &mut TaskContext,
    event_name: &str,
    options: &AwaitEventOptions,
    checkpoint_name: String,
    reply: Result<Vec<Row>, DbError>,
    r: Result<Json, TaskError>,
)
    requires
        reply is Err || reply->Ok_0@.len() == 0,
        call_ensures(
            TaskContext::await_event_reply,
            (ctx, event_name, options, checkpoint_name, reply),
            r,
        ),
    ensures
        r is Err,
        reply is Ok ==> r->Err_0 is Other && r->Err_0->Other_0@ == "await_event returned no rows"@,
        reply is Err ==> tells_failure(r->Err_0, reply->Err_0),
        final(ctx)@ == old(ctx)@,
{
}

/// What a row comes to, by its columns alone and whether the run was woken without a payload.
pub proof fn law_row_is_judged_by_its_columns(
    row: AwaitEventRow,
    woken_without_payload: bool,
    r: AwaitVerdict,
)
    requires
        call_ensures(AwaitEventRow::judge, (row, woken_without_payload), r),
    ensures
        !has_known_columns(row) ==> r is Malformed && r->Malformed_0 == row.columns@.len(),
        r is Malformed ==> !has_known_columns(row),
        r is Unreadable <==> has_known_columns(row) && !is_readable(row),
        r is Unreadable && row.should_suspend is Err ==> r->Unreadable_0
            == row.should_suspend->Err_0,
        r is Unreadable && row.should_suspend is Ok && row.payload is Err ==> r->Unreadable_0
            == row.payload->Err_0,
        r is Unreadable && row.should_suspend is Ok && row.payload is Ok ==> r->Unreadable_0
            == row.timed_out->Err_0,
        has_known_columns(row) && is_readable(row) ==> {
            let timed_out = if has_timeout_column(row) {
                row.timed_out->Ok_0
            } else {
                !row.should_suspend->Ok_0 && row.payload->Ok_0 is None && woken_without_payload
            };
            &&& r is TimedOut <==> timed_out
            &&& r is Pending <==> !timed_out && row.should_suspend->Ok_0
            &&& r is Delivered <==> !timed_out && !row.should_suspend->Ok_0
            &&& r is Delivered && row.payload->Ok_0 is Some ==> r->Delivered_0
                == row.payload->Ok_0->0
            &&& r is Delivered && row.payload->Ok_0 is None ==> json_is_null(r->Delivered_0)
        },
{
    lemma_columns_are_seen(row);
}

/// A payload is kept as it is; one that is missing is null.
pub proof fn law_payload_is_kept(payload: Option<Json>, r: Json)
    requires
        call_ensures(payload_or_null, (payload,), r),
    ensures
        payload is Some ==> r == payload->0,
        payload is None ==> json_is_null(r),
{
}

/// A wait is recorded as the step that the options name, or else as one named after the event:
/// different events then have different steps.
pub proof fn law_wait_is_named_after_its_event(
    event_name: &str,
    options: &AwaitEventOptions,
    r: String,
)
    requires
        call_ensures(TaskContext::await_step_name, (event_name, options), r),
    ensures
        options.step_name is Some ==> r@ == options.step_name->0@,
        options.step_name is None ==> {
            &&& r@.len() == 12 + event_name@.len()
            &&& r@.take(12) == "$awaitEvent:"@
            &&& r@.skip(12) == event_name@
        },
{
    reveal_strlit("$awaitEvent:");
    if options.step_name is None {
        assert(r@ == "$awaitEvent:"@ + event_name@);
        assert(r@.take(12) == "$awaitEvent:"@);
        assert(r@.skip(12) == event_name@);
    }
}

/// How a wait begins. A wait whose checkpoint is there is given its value. Any other asks the
/// database, with the context's own queue, task and run, for the event under that checkpoint
/// name, and with the timeout asked for, or with the longest that can be sent if that is
/// shorter. Its step has been used once more, and nothing else changes.
pub proof fn law_wait_asks_for_its_event(
    ctx: &mut TaskContext,
    event_name: &str,
    options: &AwaitEventOptions,
    step: String,
    own: Seq<char>,
    r: AwaitStep,
)
    requires
        call_ensures(TaskContext::await_step_name, (event_name, options), step),
        uses(old(ctx)@, step@) < usize::MAX,
        names_use(own, step@, uses(old(ctx)@, step@) + 1),
        call_ensures(TaskContext::await_event, (ctx, event_name, options), r),
    ensures
        used_once_more(old(ctx)@, final(ctx)@, step@),
        old(ctx)@.checkpoints.contains_key(own) ==> r == AwaitStep::Received(
            old(ctx)@.checkpoints[own],
        ),
        !old(ctx)@.checkpoints.contains_key(own) ==> {
            &&& r is Ask
            &&& r->checkpoint_name@ == own
            &&& r->request matches Request::AwaitEvent {
                queue_name,
                task_id,
                run_id,
                checkpoint_name,
                event_name: event_asked,
                timeout_secs,
            }
            &&& queue_name@ == old(ctx)@.queue_name
            &&& task_id == old(ctx)@.task_id
            &&& run_id == old(ctx)@.run_id
            &&& checkpoint_name@ == own
            &&& event_asked@ == event_name@
            &&& timeout_secs is Some <==> options.timeout_secs is Some
            &&& options.timeout_secs is Some && options.timeout_secs->0 <= i32::MAX
                ==> timeout_secs->0 == options.timeout_secs->0
            &&& options.timeout_secs is Some && options.timeout_secs->0 > i32::MAX
                ==> timeout_secs->0 == i32::MAX
        },
{
    law_use_has_one_name(own, step@, uses(old(ctx)@, step@) + 1);
}

/// An event is received once and for all: a run that finds what this one recorded is given
/// the payload that the row held, without asking.
pub proof fn law_received_event_is_given_again(
    asking: &mut TaskContext,
    event_name: &str,
    options: &AwaitEventOptions,
    asked: AwaitStep,
    ctx: &mut TaskContext,
    row: AwaitEventRow,
    payload: Json,
    r: Result<Json, TaskError>,
    resumed: &mut TaskContext,
    step: String,
    r_again: AwaitStep,
)
    requires
        call_ensures(TaskContext::await_step_name, (event_name, options), step),
        uses(old(asking)@, step@) < usize::MAX,
        call_ensures(TaskContext::await_event, (asking, event_name, options), asked),
        asked is Ask,
        old(ctx)@ == final(asking)@,
        has_known_columns(row),
        is_readable(row),
        !reports_timeout(old(ctx)@, event_name@, row),
        !row.should_suspend->Ok_0,
        row.payload->Ok_0 == Some(payload),
        call_ensures(
            TaskContext::conclude_await,
            (
                ctx,
                event_name,
                options,
                asked->checkpoint_name,
                Ok::<Option<AwaitEventRow>, DbError>(Some(row)),
            ),
            r,
        ),
        old(resumed)@.checkpoints == final(ctx)@.checkpoints,
        uses(old(resumed)@, step@) == uses(old(asking)@, step@),
        call_ensures(TaskContext::await_event, (resumed, event_name, options), r_again),
    ensures
        r is Ok,
        r->Ok_0 == payload,
        r_again == AwaitStep::Received(payload),
{
    lemma_columns_are_seen(row);
}

/// The columns of a row are those of its view.
proof fn lemma_columns_are_seen(row: AwaitEventRow)
    ensures
        row@.columns.len() == row.columns@.len(),
        row.columns@.len() <= usize::MAX,
        row@.tells_timeout() <==> has_timeout_column(row),
{
    assert(row.columns.len() == row.columns@.len());
    if has_timeout_column(row) {
        let i: int = choose|i: int| 0 <= i < 3 && (#[trigger] row.columns@[i])@ == "timed_out"@;
        assert(row@.columns[i] == "timed_out"@);
    }
    if row@.tells_timeout() {
        let i: int = choose|i: int|
            0 <= i < row@.columns.len() && #[trigger] row@.columns[i] == "timed_out"@;
        assert(row.columns@[i]@ == "timed_out"@);
    }
}

} // verus!

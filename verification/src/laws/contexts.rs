//! What holds of task contexts, call by call: where they get their state from, which
//! checkpoint a step finds, and what is sent for them.

use crate::context::{checkpoints_of, Checkpoint, ClaimedTask, TaskContext};
use crate::error::TaskError;
use crate::laws::errors::tells_failure;
use crate::laws::names::{law_checkpoint_names_number_uses, law_use_has_one_name, names_use};
use crate::laws::same_run;
use crate::model::ContextView;
use crate::outside::{json_is_null, row_json_at, row_text_at, DbError, Json};
use crate::request::{Param, Request};
use crate::time::Timestamp;
use std::collections::HashMap;
use tokio_postgres::Row;
use vstd::prelude::*;

verus! {

/// How often a step name has been used.
pub open spec fn uses(ctx: ContextView, step: Seq<char>) -> int {
    if ctx.counters.contains_key(step) {
        ctx.counters[step] as int
    } else {
        0
    }
}

/// Whether two maps differ at one key at most.
pub open spec fn agree_elsewhere<V>(
    a: Map<Seq<char>, V>,
    b: Map<Seq<char>, V>,
    key: Seq<char>,
) -> bool {
    forall|other: Seq<char>|
        other != key ==> {
            &&& #[trigger] a.contains_key(other) <==> b.contains_key(other)
            &&& a.contains_key(other) ==> a[other] == b[other]
        }
}

/// Whether one state follows from another by one more use of a step, and by nothing else.
pub open spec fn used_once_more(before: ContextView, after: ContextView, step: Seq<char>) -> bool {
    &&& uses(after, step) == uses(before, step) + 1
    &&& agree_elsewhere(before.counters, after.counters, step)
    &&& after.checkpoints == before.checkpoints
    &&& after.wake_event == before.wake_event
    &&& after.event_payload == before.event_payload
    &&& same_run(before, after)
}

/// Whether one state follows from another by recording a checkpoint, as far as the checkpoints
/// and the counters go.
pub open spec fn recorded_once(
    before: ContextView,
    after: ContextView,
    name: Seq<char>,
    value: Json,
) -> bool {
    &&& after.checkpoints.contains_key(name)
    &&& after.checkpoints[name] == value
    &&& agree_elsewhere(before.checkpoints, after.checkpoints, name)
    &&& after.counters == before.counters
    &&& same_run(before, after)
}

/// Whether a row of the database holds a checkpoint.
pub open spec fn holds_checkpoint(row: Row) -> bool {
    row_text_at(row, 0) is Ok && row_json_at(row, 1) is Ok
}

/// The checkpoints of a task are asked for by the queue and by the task's own identifiers.
pub proof fn law_checkpoints_are_asked_for(queue_name: &str, task: ClaimedTask, r: Request)
    requires
        call_ensures(TaskContext::checkpoint_states_request, (queue_name, &task), r),
    ensures
        r is GetTaskCheckpointStates,
        r->GetTaskCheckpointStates_queue_name@ == queue_name@,
        r->GetTaskCheckpointStates_task_id == task.task_id,
        r->GetTaskCheckpointStates_run_id == task.run_id,
{
}

/// Rows are read one by one and in order, the name from the first column and the state from
/// the second; they can be read exactly if each of them can.
pub proof fn law_rows_are_read_in_order(
    rows: Vec<Row>,
    r: Result<Vec<(String, Json)>, DbError>,
)
    requires
        call_ensures(TaskContext::read_checkpoints, (&rows,), r),
    ensures
        r is Ok <==> forall|i: int| 0 <= i < rows@.len() ==> holds_checkpoint(#[trigger] rows@[i]),
        r is Ok ==> r->Ok_0@.len() == rows@.len(),
        r is Ok ==> forall|i: int|
            0 <= i < rows@.len() ==> {
                &&& (#[trigger] r->Ok_0@[i]).0@ == row_text_at(rows@[i], 0)->Ok_0
                &&& r->Ok_0@[i].1 == row_json_at(rows@[i], 1)->Ok_0
            },
{
    if r is Ok {
        assert forall|i: int| 0 <= i < rows@.len() implies holds_checkpoint(
            #[trigger] rows@[i],
        ) by {
            let read = r->Ok_0@[i];
        }
    }
}

/// Rows that cannot be read give the error of the first that cannot: of its name, or else of
/// its state.
pub proof fn law_first_unreadable_row_is_told(
    rows: Vec<Row>,
    k: int,
    r: Result<Vec<(String, Json)>, DbError>,
)
    requires
        call_ensures(TaskContext::read_checkpoints, (&rows,), r),
        0 <= k < rows@.len(),
        !holds_checkpoint(rows@[k]),
        forall|i: int| 0 <= i < k ==> holds_checkpoint(#[trigger] rows@[i]),
    ensures
        r is Err,
        row_text_at(rows@[k], 0) is Err ==> r->Err_0 == row_text_at(rows@[k], 0)->Err_0,
        row_text_at(rows@[k], 0) is Ok ==> r->Err_0 == row_json_at(rows@[k], 1)->Err_0,
{
    if r is Ok {
        let read = r->Ok_0@[k];
        assert(false);
    }
}

/// A new context holds what it was given: the task's identifiers, its headers, what woke it,
/// the queue and the claim timeout. No step name has been used.
pub proof fn law_new_context_holds_what_it_is_given(
    queue_name: String,
    task: ClaimedTask,
    checkpoints: Vec<(String, Json)>,
    claim_timeout: i32,
    r: TaskContext,
)
    requires
        call_ensures(TaskContext::new, (queue_name, task, checkpoints, claim_timeout), r),
    ensures
        r@.shown_id == task.task_id,
        r@.queue_name == queue_name@,
        r@.task_id == task.task_id,
        r@.run_id == task.run_id,
        r@.claim_timeout == claim_timeout,
        task.headers is Some ==> r@.headers == task.headers->0@,
        task.headers is None ==> forall|key: String| !#[trigger] r@.headers.contains_key(key),
        r@.wake_event is Some <==> task.wake_event is Some,
        task.wake_event is Some ==> r@.wake_event->0 == task.wake_event->0@,
        r@.event_payload == task.event_payload,
        forall|step: Seq<char>| #[trigger] uses(r@, step) == 0,
{
}

/// The checkpoints of a new context are those of the rows, all of them: a name is a checkpoint
/// exactly if some row has it, and its value is the state of the last row that has it.
pub proof fn law_new_context_has_every_row(
    queue_name: String,
    task: ClaimedTask,
    checkpoints: Vec<(String, Json)>,
    claim_timeout: i32,
    r: TaskContext,
)
    requires
        call_ensures(TaskContext::new, (queue_name, task, checkpoints, claim_timeout), r),
    ensures
        forall|name: Seq<char>| #[trigger]
            r@.checkpoints.contains_key(name) <==> exists|i: int|
                0 <= i < checkpoints@.len() && (#[trigger] checkpoints@[i]).0@ == name,
        forall|i: int|
            0 <= i < checkpoints@.len() && (forall|j: int|
                i < j < checkpoints@.len() ==> (#[trigger] checkpoints@[j]).0@
                    != checkpoints@[i].0@) ==> r@.checkpoints[(#[trigger] checkpoints@[i]).0@]
                == checkpoints@[i].1,
{
    lemma_every_row_counts(checkpoints@);
}

/// Rows make up checkpoints: each row's name, with the state of the last row of that name.
proof fn lemma_every_row_counts(rows: Seq<(String, Json)>)
    ensures
        forall|name: Seq<char>| #[trigger]
            checkpoints_of(rows).contains_key(name) <==> exists|i: int|
                0 <= i < rows.len() && (#[trigger] rows[i]).0@ == name,
        forall|i: int|
            0 <= i < rows.len() && (forall|j: int|
                i < j < rows.len() ==> (#[trigger] rows[j]).0@ != rows[i].0@)
                ==> checkpoints_of(rows)[(#[trigger] rows[i]).0@] == rows[i].1,
    decreases rows.len(),
{
    if rows.len() > 0 {
        let front = rows.drop_last();
        lemma_every_row_counts(front);
        assert(checkpoints_of(rows) == checkpoints_of(front).insert(
            rows.last().0@,
            rows.last().1,
        ));
        assert forall|name: Seq<char>| #[trigger]
            checkpoints_of(rows).contains_key(name) <==> exists|i: int|
                0 <= i < rows.len() && (#[trigger] rows[i]).0@ == name by {
            if checkpoints_of(rows).contains_key(name) {
                if rows.last().0@ == name {
                    assert(rows[rows.len() - 1].0@ == name);
                } else {
                    assert(checkpoints_of(front).contains_key(name));
                    let i: int = choose|i: int|
                        0 <= i < front.len() && (#[trigger] front[i]).0@ == name;
                    assert(front[i] == rows[i]);
                    assert(rows[i].0@ == name);
                }
            }
            if exists|i: int| 0 <= i < rows.len() && (#[trigger] rows[i]).0@ == name {
                let i: int = choose|i: int| 0 <= i < rows.len() && (#[trigger] rows[i]).0@ == name;
                if i < rows.len() - 1 {
                    assert(front[i].0@ == name);
                    assert(checkpoints_of(front).contains_key(name));
                }
            }
        }
        assert forall|i: int|
            0 <= i < rows.len() && (forall|j: int|
                i < j < rows.len() ==> (#[trigger] rows[j]).0@
                    != rows[i].0@) implies checkpoints_of(rows)[(#[trigger] rows[i]).0@]
            == rows[i].1 by {
            if i < rows.len() - 1 {
                assert(rows[rows.len() - 1].0@ != rows[i].0@);
                assert(front[i] == rows[i]);
                assert forall|j: int| i < j < front.len() implies (#[trigger] front[j]).0@
                    != front[i].0@ by {
                    assert(front[j] == rows[j]);
                }
            }
        }
    }
}

/// A handler reads the headers that the context holds.
pub proof fn law_headers_are_shown(ctx: &TaskContext, r: &HashMap<String, Json>)
    requires
        call_ensures(TaskContext::headers, (ctx,), r),
    ensures
        r@ == ctx@.headers,
{
}

/// The count of a step name is how often it has been used, and the name that would be used
/// next numbers the use to come.
pub proof fn law_next_name_numbers_the_next_use(
    ctx: &TaskContext,
    name: &str,
    count: usize,
    next: String,
)
    requires
        uses(ctx@, name@) < usize::MAX,
        call_ensures(TaskContext::step_count, (ctx, name), count),
        call_ensures(TaskContext::peek_checkpoint_name, (ctx, name), next),
    ensures
        count == uses(ctx@, name@),
        names_use(next@, name@, count + 1),
{
    law_checkpoint_names_number_uses(name@, (count + 1) as nat);
}

/// Advancing takes the name that was next, and uses the step name once, and no other.
pub proof fn law_advancing_uses_the_name_once(ctx: &mut TaskContext, name: &str, r: String)
    requires
        uses(old(ctx)@, name@) < usize::MAX,
        call_ensures(TaskContext::advance_checkpoint_name, (ctx, name), r),
    ensures
        names_use(r@, name@, uses(old(ctx)@, name@) + 1),
        used_once_more(old(ctx)@, final(ctx)@, name@),
{
    law_checkpoint_names_number_uses(name@, (uses(old(ctx)@, name@) + 1) as nat);
}

/// What a step finds. Its checkpoint name `own` numbers this use of its name. If there is a
/// checkpoint of that name it is given its value, else the name; either way the step name has
/// been used once more, and nothing else changes.
pub proof fn law_step_finds_its_own_checkpoint(
    ctx: &mut TaskContext,
    name: &str,
    own: Seq<char>,
    r: Checkpoint,
)
    requires
        uses(old(ctx)@, name@) < usize::MAX,
        names_use(own, name@, uses(old(ctx)@, name@) + 1),
        call_ensures(TaskContext::step, (ctx, name), r),
    ensures
        old(ctx)@.checkpoints.contains_key(own) ==> r == Checkpoint::Cached(
            old(ctx)@.checkpoints[own],
        ),
        !old(ctx)@.checkpoints.contains_key(own) ==> r is Fresh && r->Fresh_0@ == own,
        used_once_more(old(ctx)@, final(ctx)@, name@),
{
    law_use_has_one_name(own, name@, uses(old(ctx)@, name@) + 1);
}

/// The request that records a checkpoint carries the name and the value that are given, and
/// the context's own queue, task, run and claim timeout, whatever else the state holds.
pub proof fn law_checkpoint_is_sent_as_given(
    ctx: &TaskContext,
    name: &str,
    value: Json,
    r: Request,
)
    requires
        call_ensures(TaskContext::persist_checkpoint, (ctx, name, &value), r),
    ensures
        r is SetTaskCheckpointState,
        r->SetTaskCheckpointState_queue_name@ == ctx@.queue_name,
        r->SetTaskCheckpointState_task_id == ctx@.task_id,
        r->SetTaskCheckpointState_name@ == name@,
        r->SetTaskCheckpointState_value == value,
        r->SetTaskCheckpointState_run_id == ctx@.run_id,
        r->SetTaskCheckpointState_claim_timeout == ctx@.claim_timeout,
{
}

/// What reaches the database of a checkpoint: the fourth parameter of the statement is the
/// value and the third its name.
pub proof fn law_checkpoint_reaches_the_database(
    ctx: &TaskContext,
    name: &str,
    value: Json,
    sent: Request,
    params: Vec<Param>,
)
    requires
        call_ensures(TaskContext::persist_checkpoint, (ctx, name, &value), sent),
        call_ensures(Request::params, (&sent,), params),
    ensures
        params@.len() == 6,
        params@[0] matches Param::Text(text) && text@ == ctx@.queue_name,
        params@[1] == Param::Id(ctx@.task_id),
        params@[2] matches Param::Text(text) && text@ == name@,
        params@[3] == Param::Value(value),
        params@[4] == Param::Id(ctx@.run_id),
        params@[5] == Param::Int(ctx@.claim_timeout),
{
    crate::laws::requests::lemma_params_by_index(sent, params);
}

/// A checkpoint that the database took is in the state, as the one thing that changed; one
/// that it refused changes nothing.
pub proof fn law_taken_checkpoint_is_recorded(
    ctx: &mut TaskContext,
    name: &str,
    value: Json,
    reply: Result<u64, DbError>,
    r: Result<(), TaskError>,
)
    requires
        call_ensures(TaskContext::checkpoint_persisted, (ctx, name, &value, reply), r),
    ensures
        r is Ok <==> reply is Ok,
        reply is Ok ==> {
            &&& recorded_once(old(ctx)@, final(ctx)@, name@, value)
            &&& final(ctx)@.wake_event == old(ctx)@.wake_event
            &&& final(ctx)@.event_payload == old(ctx)@.event_payload
        },
        reply is Err ==> final(ctx)@ == old(ctx)@ && tells_failure(r->Err_0, reply->Err_0),
{
}

/// What is sent is found again. A step is executed and its value sent; the next run, made of
/// rows of which the last of that name is what was sent, gives that value to the same use of
/// the same step.
pub proof fn law_sent_checkpoint_is_found_again(
    ctx: &mut TaskContext,
    step: &str,
    found: Checkpoint,
    sending: &TaskContext,
    name: &str,
    value: Json,
    sent: Request,
    queue_name: String,
    task: ClaimedTask,
    rows: Vec<(String, Json)>,
    claim_timeout: i32,
    next_run: TaskContext,
    resumed: &mut TaskContext,
    found_again: Checkpoint,
    k: int,
)
    requires
        uses(old(ctx)@, step@) < usize::MAX,
        call_ensures(TaskContext::step, (ctx, step), found),
        found is Fresh,
        name@ == found->Fresh_0@,
        call_ensures(TaskContext::persist_checkpoint, (sending, name, &value), sent),
        0 <= k < rows@.len(),
        rows@[k].0@ == sent->SetTaskCheckpointState_name@,
        rows@[k].1 == sent->SetTaskCheckpointState_value,
        forall|i: int| k < i < rows@.len() ==> (#[trigger] rows@[i]).0@ != rows@[k].0@,
        call_ensures(TaskContext::new, (queue_name, task, rows, claim_timeout), next_run),
        old(resumed)@.checkpoints == next_run@.checkpoints,
        uses(old(resumed)@, step@) == uses(old(ctx)@, step@),
        call_ensures(TaskContext::step, (resumed, step), found_again),
    ensures
        found_again == Checkpoint::Cached(value),
{
    law_new_context_has_every_row(queue_name, task, rows, claim_timeout, next_run);
    assert(rows@[k].0@ == name@);
    assert(next_run@.checkpoints.contains_key(name@));
}

/// A run is scheduled with the context's own queue and run, for exactly the time asked for.
pub proof fn law_run_is_scheduled_as_asked(ctx: &TaskContext, wake_at: Timestamp, r: Request)
    requires
        call_ensures(TaskContext::schedule_run, (ctx, wake_at), r),
    ensures
        r is ScheduleRun,
        r->ScheduleRun_queue_name@ == ctx@.queue_name,
        r->ScheduleRun_run_id == ctx@.run_id,
        r->ScheduleRun_wake_at.secs == wake_at.secs,
        r->ScheduleRun_wake_at.nanos == wake_at.nanos,
{
}

/// An event is emitted to the context's own queue under the name given, with the payload given
/// or else null.
pub proof fn law_event_is_emitted_as_given(
    ctx: &TaskContext,
    event_name: &str,
    payload: Option<Json>,
    r: Request,
)
    requires
        call_ensures(TaskContext::emit_event, (ctx, event_name, payload), r),
    ensures
        r is EmitEvent,
        r->EmitEvent_queue_name@ == ctx@.queue_name,
        r->EmitEvent_event_name@ == event_name@,
        payload is Some ==> r->EmitEvent_payload == payload->0,
        payload is None ==> json_is_null(r->EmitEvent_payload),
{
}

/// A claim is extended for the context's own run, by the seconds given or else by the claim
/// timeout.
pub proof fn law_claim_is_extended_as_asked(
    ctx: &TaskContext,
    extend_by_secs: Option<i32>,
    r: Request,
)
    requires
        call_ensures(TaskContext::heartbeat, (ctx, extend_by_secs), r),
    ensures
        r is ExtendClaim,
        r->ExtendClaim_queue_name@ == ctx@.queue_name,
        r->ExtendClaim_run_id == ctx@.run_id,
        extend_by_secs is Some ==> r->ExtendClaim_extend_by == extend_by_secs->0,
        extend_by_secs is None ==> r->ExtendClaim_extend_by == ctx@.claim_timeout,
{
}

} // verus!

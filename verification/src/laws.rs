//! What holds of task contexts across calls and across runs.

pub mod contexts;
pub mod errors;
pub mod events;
pub mod names;
pub mod options;
pub mod requests;
pub mod sleeps;
pub mod times;

use crate::context::{sleep_begun, SleepStep};
use crate::error::TaskError;
use crate::events::AwaitEventRowView;
use crate::model::{CheckpointView, ContextView, SleepView};
use crate::names::law_checkpoint_names_distinct;
use crate::outside::{json_of_time, DbError, Json};
use crate::request::RequestView;
use crate::time::{in_range, Timestamp};
use vstd::prelude::*;

verus! {

/// The state after a step. A step that finds no checkpoint is executed, and records the value
/// that it gives; one that fails, `None`, records nothing. Sleeps and waits for events look up
/// and record in the same way: a sleep gives its end, a wait the payload of the event, and a
/// wait that times out gives nothing.
pub open spec fn after_step(ctx: ContextView, name: Seq<char>, value: Option<Json>) -> ContextView {
    match (ctx.lookup(name), value) {
        (CheckpointView::Fresh(checkpoint), Some(given)) => ctx.advanced(name).recorded(
            checkpoint,
            given,
        ),
        _ => ctx.advanced(name),
    }
}

/// The result of a step that gives `value` if it is executed.
pub open spec fn step_result(ctx: ContextView, name: Seq<char>, value: Option<Json>) -> Option<
    Json,
> {
    match ctx.lookup(name) {
        CheckpointView::Cached(cached) => Some(cached),
        CheckpointView::Fresh(_) => value,
    }
}

/// The state after a sequence of steps: each has a name, and what it gives if it is executed.
pub open spec fn after_steps(
    ctx: ContextView,
    steps: Seq<(Seq<char>, Option<Json>)>,
) -> ContextView
    decreases steps.len(),
{
    if steps.len() == 0 {
        ctx
    } else {
        let (name, value) = steps.last();
        after_step(after_steps(ctx, steps.drop_last()), name, value)
    }
}

/// The result of the step at `k` in a sequence of steps.
pub open spec fn result_at(
    ctx: ContextView,
    steps: Seq<(Seq<char>, Option<Json>)>,
    k: int,
) -> Option<Json> {
    step_result(after_steps(ctx, steps.take(k)), steps[k].0, steps[k].1)
}

/// The names alone decide the counters, and so the checkpoint names: two runs through steps
/// of the same names, whatever they find and whatever they give, stay in step.
pub proof fn law_names_alone_decide_counters(
    ctx: ContextView,
    other: ContextView,
    steps: Seq<(Seq<char>, Option<Json>)>,
    other_steps: Seq<(Seq<char>, Option<Json>)>,
)
    requires
        ctx.counters == other.counters,
        steps.len() == other_steps.len(),
        forall|i: int| 0 <= i < steps.len() ==> steps[i].0 == (#[trigger] other_steps[i]).0,
    ensures
        after_steps(ctx, steps).counters == after_steps(other, other_steps).counters,
        forall|name: Seq<char>|
            after_steps(ctx, steps).next_name(name) == #[trigger] after_steps(
                other,
                other_steps,
            ).next_name(name),
    decreases steps.len(),
{
    if steps.len() > 0 {
        assert forall|i: int| 0 <= i < steps.len() - 1 implies steps.drop_last()[i].0 == (
        #[trigger] other_steps.drop_last()[i]).0 by {
            assert(other_steps[i] == other_steps.drop_last()[i]);
        }
        law_names_alone_decide_counters(
            ctx,
            other,
            steps.drop_last(),
            other_steps.drop_last(),
        );
        assert(other_steps[steps.len() - 1] == other_steps.last());
    }
}

/// Step names are told apart automatically: one more use of a step name gives it another
/// checkpoint name, and leaves the next name of every other step as it was.
pub proof fn law_next_use_has_another_name(ctx: ContextView, name: Seq<char>, other: Seq<char>)
    requires
        ctx.count(name) < usize::MAX,
    ensures
        ctx.advanced(name).next_name(name) != ctx.next_name(name),
        other != name ==> ctx.advanced(name).next_name(other) == ctx.next_name(other),
{
    let nth = ctx.count(name) + 1;
    assert(ctx.advanced(name).count(name) == nth);
    if ctx.advanced(name).next_name(name) == ctx.next_name(name) {
        if nth >= 2 {
            law_checkpoint_names_distinct(name, nth, name, nth + 1);
        } else {
            assert(ctx.advanced(name).next_name(name).len() > name.len());
        }
    }
}

/// Steps only add checkpoints: none that is there is lost or changed.
pub proof fn law_steps_keep_checkpoints(
    ctx: ContextView,
    steps: Seq<(Seq<char>, Option<Json>)>,
    k: int,
)
    requires
        0 <= k <= steps.len(),
    ensures
        after_steps(ctx, steps.take(k)).checkpoints.submap_of(after_steps(ctx, steps).checkpoints),
    decreases steps.len(),
{
    if k == steps.len() {
        assert(steps.take(k) == steps);
    } else {
        law_steps_keep_checkpoints(ctx, steps.drop_last(), k);
        assert(steps.drop_last().take(k) == steps.take(k));
        let before = after_steps(ctx, steps.drop_last());
        let after = after_steps(ctx, steps);
        assert(after == after_step(before, steps.last().0, steps.last().1));
        assert forall|name: Seq<char>| #[trigger] before.checkpoints.contains_key(name) implies {
            &&& after.checkpoints.contains_key(name)
            &&& after.checkpoints[name] == before.checkpoints[name]
        } by {
            if name == before.next_name(steps.last().0) {
                assert(before.lookup(steps.last().0) is Cached);
            }
        }
        let earlier = after_steps(ctx, steps.take(k));
        assert forall|name: Seq<char>| #[trigger] earlier.checkpoints.contains_key(name) implies {
            &&& after.checkpoints.contains_key(name)
            &&& after.checkpoints[name] == earlier.checkpoints[name]
        } by {
            assert(before.checkpoints.contains_key(name));
        }
    }
}

/// Once a step has run, its result, if it has one, is a checkpoint.
proof fn lemma_result_is_checkpoint(ctx: ContextView, steps: Seq<(Seq<char>, Option<Json>)>, k: int)
    requires
        0 <= k < steps.len(),
        result_at(ctx, steps, k) is Some,
    ensures
        ({
            let name = after_steps(ctx, steps.take(k)).next_name(steps[k].0);
            let checkpoints = after_steps(ctx, steps).checkpoints;
            checkpoints.contains_key(name) && Some(checkpoints[name]) == result_at(ctx, steps, k)
        }),
{
    let upto = steps.take(k + 1);
    assert(upto.drop_last() == steps.take(k));
    assert(upto.last() == steps[k]);
    law_steps_keep_checkpoints(ctx, steps, k + 1);
    let name = after_steps(ctx, steps.take(k)).next_name(steps[k].0);
    assert(after_steps(ctx, upto).checkpoints.contains_key(name));
}

/// Steps are idempotent: a run that starts over with the checkpoints of an earlier run, and
/// takes the same steps, executes none again that had a result in the earlier run. Each of
/// those finds that result, whatever the steps would give if they were executed.
pub proof fn law_steps_are_replayed(
    ctx: ContextView,
    steps: Seq<(Seq<char>, Option<Json>)>,
    resumed: ContextView,
    steps_again: Seq<(Seq<char>, Option<Json>)>,
    k: int,
)
    requires
        resumed.counters == ctx.counters,
        after_steps(ctx, steps).checkpoints.submap_of(resumed.checkpoints),
        steps_again.len() == steps.len(),
        forall|i: int| 0 <= i < steps.len() ==> steps[i].0 == (#[trigger] steps_again[i]).0,
        0 <= k < steps.len(),
        result_at(ctx, steps, k) is Some,
    ensures
        after_steps(resumed, steps_again.take(k)).lookup(steps[k].0) == CheckpointView::Cached(
            result_at(ctx, steps, k)->0,
        ),
        result_at(resumed, steps_again, k) == result_at(ctx, steps, k),
{
    assert forall|i: int| 0 <= i < k implies steps.take(k)[i].0 == (#[trigger] steps_again.take(
        k,
    )[i]).0 by {
        assert(steps_again[i] == steps_again.take(k)[i]);
    }
    law_names_alone_decide_counters(ctx, resumed, steps.take(k), steps_again.take(k));
    lemma_result_is_checkpoint(ctx, steps, k);
    law_steps_keep_checkpoints(resumed, steps_again.take(k), 0);
    assert(after_steps(resumed, steps_again.take(k).take(0)) == resumed);
    assert(steps[k].0 == steps_again[k].0);
    let name = after_steps(ctx, steps.take(k)).next_name(steps[k].0);
    assert(after_steps(ctx, steps).checkpoints.contains_key(name));
    assert(resumed.checkpoints.contains_key(name));
}

/// What a step sends to the database: one that is executed and gives a value sends it under
/// the step's checkpoint name.
pub open spec fn step_request(
    ctx: ContextView,
    name: Seq<char>,
    value: Option<Json>,
) -> Option<RequestView> {
    match (ctx.lookup(name), value) {
        (CheckpointView::Fresh(checkpoint), Some(given)) => Some(
            ctx.advanced(name).set_checkpoint(checkpoint, given),
        ),
        _ => None,
    }
}

/// The checkpoints that the database holds once it has carried out a request.
pub open spec fn stored_by(
    stored: Map<Seq<char>, Json>,
    request: Option<RequestView>,
) -> Map<Seq<char>, Json> {
    match request {
        Some(RequestView::SetTaskCheckpointState { name, value, .. }) => stored.insert(name, value),
        _ => stored,
    }
}

/// The checkpoints that the database holds once it has carried out what a sequence of steps
/// sent, one after the other.
pub open spec fn stored_by_steps(
    ctx: ContextView,
    steps: Seq<(Seq<char>, Option<Json>)>,
) -> Map<Seq<char>, Json>
    decreases steps.len(),
{
    if steps.len() == 0 {
        ctx.checkpoints
    } else {
        let (name, value) = steps.last();
        stored_by(
            stored_by_steps(ctx, steps.drop_last()),
            step_request(after_steps(ctx, steps.drop_last()), name, value),
        )
    }
}

/// The database holds what the context holds: what the steps sent comes to the checkpoints that
/// they recorded, no more and no less.
pub proof fn law_sent_checkpoints_are_those_recorded(
    ctx: ContextView,
    steps: Seq<(Seq<char>, Option<Json>)>,
)
    ensures
        stored_by_steps(ctx, steps) == after_steps(ctx, steps).checkpoints,
    decreases steps.len(),
{
    if steps.len() > 0 {
        law_sent_checkpoints_are_those_recorded(ctx, steps.drop_last());
    }
}

/// Steps are replayed from what was sent: a run that starts over with the checkpoints that the
/// database holds of an earlier run, and takes the same steps, gives each step the value that
/// it gave when it was executed, whatever it would give now.
pub proof fn law_sent_steps_are_replayed(
    ctx: ContextView,
    steps: Seq<(Seq<char>, Option<Json>)>,
    resumed: ContextView,
    steps_again: Seq<(Seq<char>, Option<Json>)>,
    k: int,
    value: Json,
)
    requires
        resumed.counters == ctx.counters,
        stored_by_steps(ctx, steps).submap_of(resumed.checkpoints),
        steps_again.len() == steps.len(),
        forall|i: int| 0 <= i < steps.len() ==> steps[i].0 == (#[trigger] steps_again[i]).0,
        0 <= k < steps.len(),
        after_steps(ctx, steps.take(k)).lookup(steps[k].0) is Fresh,
        steps[k].1 == Some(value),
    ensures
        after_steps(resumed, steps_again.take(k)).lookup(steps[k].0) == CheckpointView::Cached(
            value,
        ),
{
    law_sent_checkpoints_are_those_recorded(ctx, steps);
    law_steps_are_replayed(ctx, steps, resumed, steps_again, k);
}

/// What is recorded is read back: a step that found no checkpoint and recorded a value is
/// given that value in the next run.
pub proof fn law_recorded_value_is_read_back(
    ctx: ContextView,
    name: Seq<char>,
    value: Json,
    resumed: ContextView,
)
    requires
        ctx.lookup(name) is Fresh,
        resumed.counters == ctx.counters,
        resumed.checkpoints == ctx.advanced(name).recorded(
            ctx.lookup(name)->Fresh_0,
            value,
        ).checkpoints,
    ensures
        resumed.lookup(name) == CheckpointView::Cached(value),
{
}

/// A sleep is recorded with its end: a run that starts over after the sleep was recorded
/// finds the time that the sleep was to last until, and goes by it.
pub proof fn law_recorded_sleep_is_resumed(
    ctx: ContextView,
    name: Seq<char>,
    wake_at: Timestamp,
    begun: Result<SleepStep, TaskError>,
    resumed: ContextView,
    asked: Timestamp,
    begun_again: Result<SleepStep, TaskError>,
)
    requires
        ctx.lookup(name) is Fresh,
        sleep_begun(ctx, name, wake_at, begun),
        resumed.counters == ctx.counters,
        resumed.checkpoints == ctx.advanced(name).recorded(
            ctx.lookup(name)->Fresh_0,
            json_of_time(wake_at),
        ).checkpoints,
        sleep_begun(resumed, name, asked, begun_again),
    ensures
        begun_again is Ok,
        exists|now: Timestamp, later: Timestamp|
            {
                &&& #[trigger] now.clock_reading()
                &&& #[trigger] later.clock_reading()
                &&& begun_again->Ok_0@ == resumed.resumed_sleep_at(
                    wake_at.settled(),
                    asked,
                    now,
                    later,
                )
            },
{
}

/// A sleep ends when its time has come, and not before. A run that starts over is done with
/// a sleep once the clock says the time that was recorded, or the time that it asks for now;
/// before both, it is scheduled for the time that it asks for.
pub proof fn law_sleep_ends_in_time(
    ctx: ContextView,
    wake_at: Timestamp,
    asked: Timestamp,
    now: Timestamp,
    later: Timestamp,
)
    ensures
        ctx.sleep_at(wake_at, now) is Done <==> !now.before(wake_at),
        ctx.resumed_sleep_at(wake_at, asked, now, later) is Done <==> !now.before(wake_at)
            || !later.before(asked),
        now.before(wake_at) && later.before(asked) ==> ctx.resumed_sleep_at(
            wake_at,
            asked,
            now,
            later,
        ) == SleepView::Schedule(ctx.run_at(asked)),
{
}

/// A sleep for a duration lasts that long: begun at `now`, it is scheduled for the end of the
/// duration whenever the clock says less, and is done from then on.
pub proof fn law_sleep_lasts_its_duration(
    ctx: ContextView,
    name: Seq<char>,
    duration_secs: u64,
    now: Timestamp,
    later: Timestamp,
    begun: Result<SleepStep, TaskError>,
)
    requires
        in_range(now.secs + duration_secs),
        ctx.lookup(name) is Fresh,
        sleep_begun(
            ctx,
            name,
            (Timestamp { secs: (now.secs + duration_secs) as i64, nanos: now.nanos }),
            begun,
        ),
    ensures
        ({
            let wake_at = begun->Ok_0@->wake_at;
            &&& begun is Ok
            &&& begun->Ok_0@ is Save
            &&& wake_at.secs - now.secs == duration_secs
            &&& wake_at.nanos == now.nanos
            &&& later.before(wake_at) ==> ctx.sleep_at(wake_at, later) == SleepView::Schedule(
                ctx.run_at(wake_at),
            )
            &&& !later.before(wake_at) ==> ctx.sleep_at(wake_at, later) is Done
        }),
{
}

/// A wait that times out keeps all progress: checkpoints and counters stay, nothing is
/// recorded under the wait's own checkpoint name, and what woke the run is used up.
pub proof fn law_timeout_keeps_progress(
    ctx: ContextView,
    checkpoint_name: Seq<char>,
    event_name: Seq<char>,
    timeout_secs: Option<u64>,
    row: AwaitEventRowView,
)
    requires
        ctx.after_await(checkpoint_name, event_name, timeout_secs, Ok(Some(row))).1 matches Err(e)
            && e is EventTimeout,
    ensures
        ({
            let after = ctx.after_await(checkpoint_name, event_name, timeout_secs, Ok(Some(row))).0;
            &&& after.checkpoints == ctx.checkpoints
            &&& after.counters == ctx.counters
            &&& forall|event: Seq<char>| !#[trigger] after.woken_without_payload(event)
        }),
{
}

/// A database that cannot tell of a timeout itself is taken to report one at most once: after
/// a timeout, no such answer is taken for a timeout again.
pub proof fn law_untold_timeout_is_reported_once(
    ctx: ContextView,
    checkpoint_name: Seq<char>,
    event_name: Seq<char>,
    timeout_secs: Option<u64>,
    row: AwaitEventRowView,
    next_name: Seq<char>,
    next_event: Seq<char>,
    next_timeout_secs: Option<u64>,
    next_row: AwaitEventRowView,
)
    requires
        ctx.after_await(checkpoint_name, event_name, timeout_secs, Ok(Some(row))).1 matches Err(e)
            && e is EventTimeout,
        next_row.columns.len() == 2,
    ensures
        !(ctx.after_await(checkpoint_name, event_name, timeout_secs, Ok(Some(row))).0.after_await(
            next_name,
            next_event,
            next_timeout_secs,
            Ok(Some(next_row)),
        ).1 matches Err(e) && e is EventTimeout),
{
}

/// An event that was received is received in every later run: a run that starts over with the
/// checkpoints of this one is given the payload at once.
pub proof fn law_received_event_is_read_back(
    ctx: ContextView,
    step: Seq<char>,
    event_name: Seq<char>,
    timeout_secs: Option<u64>,
    row: AwaitEventRowView,
    resumed: ContextView,
)
    requires
        ctx.lookup(step) is Fresh,
        ctx.advanced(step).after_await(
            ctx.lookup(step)->Fresh_0,
            event_name,
            timeout_secs,
            Ok(Some(row)),
        ).1 is Ok,
        resumed.counters == ctx.counters,
        resumed.checkpoints == ctx.advanced(step).after_await(
            ctx.lookup(step)->Fresh_0,
            event_name,
            timeout_secs,
            Ok(Some(row)),
        ).0.checkpoints,
    ensures
        resumed.lookup(step) == CheckpointView::Cached(
            ctx.advanced(step).after_await(
                ctx.lookup(step)->Fresh_0,
                event_name,
                timeout_secs,
                Ok(Some(row)),
            ).1->Ok_0,
        ),
{
}

/// A statement that the database refused changes nothing, and a task is cancelled exactly if
/// the server says so.
pub proof fn law_refused_statement_changes_nothing(
    ctx: ContextView,
    checkpoint_name: Seq<char>,
    value: Json,
    event_name: Seq<char>,
    timeout_secs: Option<u64>,
    e: DbError,
)
    ensures
        ctx.after_set_checkpoint(checkpoint_name, value, Err(e)).0 == ctx,
        ctx.after_await(checkpoint_name, event_name, timeout_secs, Err(e)).0 == ctx,
        ctx.after_set_checkpoint(checkpoint_name, value, Err(e)).1->Err_0 is Cancelled
            <==> crate::outside::sqlstate_of(e) == Some("AB001"@),
        ctx.after_await(checkpoint_name, event_name, timeout_secs, Err(e)).1->Err_0 is Cancelled
            <==> crate::outside::sqlstate_of(e) == Some("AB001"@),
{
}

/// Whether two states belong to the same run of the same task.
pub open spec fn same_run(ctx: ContextView, other: ContextView) -> bool {
    &&& ctx.shown_id == other.shown_id
    &&& ctx.queue_name == other.queue_name
    &&& ctx.task_id == other.task_id
    &&& ctx.run_id == other.run_id
    &&& ctx.headers == other.headers
    &&& ctx.claim_timeout == other.claim_timeout
}

/// No call makes a context speak for another run, or changes the headers or the claim
/// timeout.
pub proof fn law_run_stays_the_same(
    ctx: ContextView,
    step: Seq<char>,
    checkpoint_name: Seq<char>,
    value: Json,
    reply: Result<u64, DbError>,
    event_name: Seq<char>,
    timeout_secs: Option<u64>,
    answer: Result<Option<AwaitEventRowView>, DbError>,
)
    ensures
        same_run(ctx, ctx.advanced(step)),
        same_run(ctx, ctx.after_set_checkpoint(checkpoint_name, value, reply).0),
        same_run(ctx, ctx.after_await(checkpoint_name, event_name, timeout_secs, answer).0),
{
}

} // verus!

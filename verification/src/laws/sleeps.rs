//! What holds of sleeps, on the seconds and nanoseconds of the times they are given.

use crate::context::{SleepStep, TaskContext};
use crate::error::TaskError;
use crate::laws::contexts::{recorded_once, used_once_more, uses};
use crate::laws::errors::tells_failure;
use crate::laws::names::{law_use_has_one_name, names_use};
use crate::laws::times::instant;
use crate::model::ContextView;
use crate::outside::{
    clock_says, json_of_time, law_clock_says_what_it_can, time_in_json, DbError, Json,
};
use crate::request::Request;
use crate::time::{Timestamp, MAX_SECS, MIN_SECS};
use vstd::prelude::*;

verus! {

/// Whether a clock that says `now` has reached a time.
pub open spec fn reached(time: Timestamp, now: Timestamp) -> bool {
    if now.secs == time.secs {
        now.nanos >= time.nanos
    } else {
        now.secs > time.secs
    }
}

/// Whether a clock can say a time: from 1970 on, and outside any leap second.
pub open spec fn can_be_said(now: Timestamp) -> bool {
    0 <= now.secs <= MAX_SECS && now.nanos < 1_000_000_000
}

/// Whether what is left of a sleep is to run the task again at a time.
pub open spec fn scheduled_for(ctx: ContextView, left: SleepStep, time: Timestamp) -> bool {
    &&& left matches SleepStep::Schedule(Request::ScheduleRun { queue_name, run_id, wake_at })
    &&& queue_name@ == ctx.queue_name
    &&& run_id == ctx.run_id
    &&& wake_at.secs == time.secs
    &&& wake_at.nanos == time.nanos
}

/// Whether a sleep until `time` whose checkpoint name is `own` begins like this when the clock
/// says `now` and then `later`.
pub open spec fn sleep_begins(
    ctx: ContextView,
    own: Seq<char>,
    time: Timestamp,
    now: Timestamp,
    later: Timestamp,
    r: Result<SleepStep, TaskError>,
) -> bool {
    if !ctx.checkpoints.contains_key(own) {
        &&& r matches Ok(SleepStep::Save { checkpoint_name, value, wake_at })
        &&& checkpoint_name@ == own
        &&& value == json_of_time(time)
        &&& time_in_json(value) matches Ok(read) && instant(read) == instant(time)
        &&& wake_at.secs == time.secs
        &&& wake_at.nanos == time.nanos
    } else {
        match time_in_json(ctx.checkpoints[own]) {
            Err(e) => r matches Err(TaskError::Serialization(told)) && told == e,
            Ok(stored) => if reached(stored, now) || reached(time, later) {
                r matches Ok(SleepStep::Done)
            } else {
                r matches Ok(left) && scheduled_for(ctx, left, time)
            },
        }
    }
}

/// A sleep is over exactly if its time is reached; as long as it is not, the run is scheduled
/// for that time, however far away it is.
pub proof fn law_sleep_is_over_when_reached(
    ctx: &TaskContext,
    wake_at: Timestamp,
    now: Timestamp,
    r: SleepStep,
)
    requires
        call_ensures(TaskContext::check_sleep, (ctx, wake_at, now), r),
    ensures
        now.secs < wake_at.secs ==> scheduled_for(ctx@, r, wake_at),
        now.secs == wake_at.secs && now.nanos < wake_at.nanos ==> scheduled_for(ctx@, r, wake_at),
        now.secs == wake_at.secs && now.nanos >= wake_at.nanos ==> r is Done,
        now.secs > wake_at.secs ==> r is Done,
{
}

/// A sleep that was recorded is over once the time recorded, or the time asked for now, is
/// reached; before both, the run is scheduled for the time asked for.
pub proof fn law_resumed_sleep_goes_by_both_times(
    ctx: &TaskContext,
    stored: Timestamp,
    wake_at: Timestamp,
    now: Timestamp,
    later: Timestamp,
    r: SleepStep,
)
    requires
        call_ensures(TaskContext::resume_sleep, (ctx, stored, wake_at, now, later), r),
    ensures
        reached(stored, now) ==> r is Done,
        reached(wake_at, later) ==> r is Done,
        !reached(stored, now) && !reached(wake_at, later) ==> scheduled_for(ctx@, r, wake_at),
{
}

/// How a sleep until a time begins. A new one is to be recorded, with a value that is read back
/// as the same instant; one that was recorded goes by the clock. Its step name has been used
/// once more, and nothing else changes.
pub proof fn law_sleep_until_a_time(
    ctx: &mut TaskContext,
    name: &str,
    wake_at: Timestamp,
    now: Timestamp,
    later: Timestamp,
    own: Seq<char>,
    r: Result<SleepStep, TaskError>,
)
    requires
        MIN_SECS <= wake_at.secs <= MAX_SECS,
        wake_at.nanos < 2_000_000_000,
        uses(old(ctx)@, name@) < usize::MAX,
        names_use(own, name@, uses(old(ctx)@, name@) + 1),
        call_ensures(TaskContext::sleep_until_at, (ctx, name, wake_at, now, later), r),
    ensures
        sleep_begins(old(ctx)@, own, wake_at, now, later, r),
        used_once_more(old(ctx)@, final(ctx)@, name@),
{
    law_use_has_one_name(own, name@, uses(old(ctx)@, name@) + 1);
}

/// A sleep until a time goes by what the clock says.
pub proof fn law_sleep_until_goes_by_the_clock(
    ctx: &mut TaskContext,
    name: &str,
    wake_at: Timestamp,
    own: Seq<char>,
    r: Result<SleepStep, TaskError>,
)
    requires
        MIN_SECS <= wake_at.secs <= MAX_SECS,
        wake_at.nanos < 2_000_000_000,
        uses(old(ctx)@, name@) < usize::MAX,
        names_use(own, name@, uses(old(ctx)@, name@) + 1),
        call_ensures(TaskContext::sleep_until, (ctx, name, wake_at), r),
    ensures
        exists|now: Timestamp, later: Timestamp|
            clock_says(now) && clock_says(later) && #[trigger] sleep_begins(
                old(ctx)@,
                own,
                wake_at,
                now,
                later,
                r,
            ),
        used_once_more(old(ctx)@, final(ctx)@, name@),
{
    law_use_has_one_name(own, name@, uses(old(ctx)@, name@) + 1);
    let (now, later) = choose|now: Timestamp, later: Timestamp|
        {
            &&& clock_says(now)
            &&& clock_says(later)
            &&& #[trigger] crate::context::sleep_begun_at(old(ctx)@, name@, wake_at, now, later, r)
        };
    assert(sleep_begins(old(ctx)@, own, wake_at, now, later, r));
}

/// A sleep for a duration is a sleep until the time that is the duration away from now, to the
/// nanosecond; it is refused, and nothing changes, exactly if no time is that far away.
pub proof fn law_sleep_for_a_duration(
    ctx: &mut TaskContext,
    name: &str,
    duration_secs: u64,
    now: Timestamp,
    next: Timestamp,
    later: Timestamp,
    own: Seq<char>,
    wake_at: Timestamp,
    r: Option<Result<SleepStep, TaskError>>,
)
    requires
        can_be_said(now),
        uses(old(ctx)@, name@) < usize::MAX,
        names_use(own, name@, uses(old(ctx)@, name@) + 1),
        call_ensures(TaskContext::sleep_for_at, (ctx, name, duration_secs, now, next, later), r),
    ensures
        r is Some <==> duration_secs <= MAX_SECS - now.secs,
        r is None ==> final(ctx)@ == old(ctx)@,
        r is Some ==> used_once_more(old(ctx)@, final(ctx)@, name@),
        r is Some && wake_at.secs == now.secs + duration_secs && wake_at.nanos == now.nanos
            ==> sleep_begins(old(ctx)@, own, wake_at, next, later, r->0),
{
    law_use_has_one_name(own, name@, uses(old(ctx)@, name@) + 1);
}

/// A sleep for a duration goes by what the clock says: it is to last until the duration away
/// from what the clock says now, to the nanosecond; it is refused, and nothing changes, exactly
/// if no time is that far away.
pub proof fn law_sleep_for_goes_by_the_clock(
    ctx: &mut TaskContext,
    name: &str,
    duration_secs: u64,
    own: Seq<char>,
    r: Option<Result<SleepStep, TaskError>>,
)
    requires
        uses(old(ctx)@, name@) < usize::MAX,
        names_use(own, name@, uses(old(ctx)@, name@) + 1),
        call_ensures(TaskContext::sleep_for, (ctx, name, duration_secs), r),
    ensures
        duration_secs > MAX_SECS ==> r is None,
        duration_secs == 0 ==> r is Some,
        r is None ==> final(ctx)@ == old(ctx)@,
        r is Some ==> used_once_more(old(ctx)@, final(ctx)@, name@),
        r is None ==> exists|now: Timestamp| #[trigger]
            clock_says(now) && duration_secs > MAX_SECS - now.secs,
        r is Some ==> exists|
            now: Timestamp,
            wake_at: Timestamp,
            next: Timestamp,
            later: Timestamp,
        |
            {
                &&& #[trigger] clock_says(now)
                &&& wake_at.secs == now.secs + duration_secs
                &&& wake_at.nanos == now.nanos
                &&& clock_says(next)
                &&& clock_says(later)
                &&& #[trigger] sleep_begins(old(ctx)@, own, wake_at, next, later, r->0)
            },
{
    law_use_has_one_name(own, name@, uses(old(ctx)@, name@) + 1);
    let (now, next, later) = choose|now: Timestamp, next: Timestamp, later: Timestamp|
        {
            let secs = now.secs + duration_secs;
            let wake_at = Timestamp { secs: secs as i64, nanos: now.nanos };
            &&& #[trigger] clock_says(now)
            &&& #[trigger] clock_says(next)
            &&& #[trigger] clock_says(later)
            &&& r is Some <==> crate::time::in_range(secs)
            &&& r is Some ==> crate::context::sleep_begun_at(
                old(ctx)@,
                name@,
                wake_at,
                next,
                later,
                r->0,
            )
        };
    law_clock_says_what_it_can(now);
    if r is Some {
        let wake_at = Timestamp { secs: (now.secs + duration_secs) as i64, nanos: now.nanos };
        assert(sleep_begins(old(ctx)@, own, wake_at, next, later, r->0));
    }
}

/// Once a sleep is recorded, it goes by the clock. One that could not be recorded gives the
/// error, and nothing changes.
pub proof fn law_recorded_sleep_goes_by_the_clock(
    ctx: &mut TaskContext,
    name: &str,
    value: Json,
    wake_at: Timestamp,
    reply: Result<u64, DbError>,
    now: Timestamp,
    r: Result<SleepStep, TaskError>,
)
    requires
        call_ensures(TaskContext::sleep_saved_at, (ctx, name, &value, wake_at, reply, now), r),
    ensures
        r is Ok <==> reply is Ok,
        reply is Ok && reached(wake_at, now) ==> r->Ok_0 is Done,
        reply is Ok && !reached(wake_at, now) ==> scheduled_for(old(ctx)@, r->Ok_0, wake_at),
        reply is Ok ==> {
            &&& recorded_once(old(ctx)@, final(ctx)@, name@, value)
            &&& final(ctx)@.wake_event == old(ctx)@.wake_event
            &&& final(ctx)@.event_payload == old(ctx)@.event_payload
        },
        reply is Err ==> final(ctx)@ == old(ctx)@ && tells_failure(r->Err_0, reply->Err_0),
{
}

/// Recording a sleep reads the clock itself: the sleep is over exactly if what the clock says
/// has reached its end, and else the run is scheduled for that end.
pub proof fn law_recorded_sleep_reads_the_clock(
    ctx: &mut TaskContext,
    name: &str,
    value: Json,
    wake_at: Timestamp,
    reply: Result<u64, DbError>,
    r: Result<SleepStep, TaskError>,
)
    requires
        call_ensures(TaskContext::sleep_saved, (ctx, name, &value, wake_at, reply), r),
    ensures
        r is Ok <==> reply is Ok,
        reply is Ok ==> r->Ok_0 is Done || scheduled_for(old(ctx)@, r->Ok_0, wake_at),
        reply is Ok ==> exists|now: Timestamp| #[trigger]
            clock_says(now) && (r->Ok_0 is Done <==> reached(wake_at, now)),
        reply is Ok && wake_at.secs < 0 ==> r->Ok_0 is Done,
        reply is Ok && wake_at.secs > MAX_SECS ==> scheduled_for(old(ctx)@, r->Ok_0, wake_at),
        reply is Ok ==> {
            &&& recorded_once(old(ctx)@, final(ctx)@, name@, value)
            &&& final(ctx)@.wake_event == old(ctx)@.wake_event
            &&& final(ctx)@.event_payload == old(ctx)@.event_payload
        },
        reply is Err ==> final(ctx)@ == old(ctx)@ && tells_failure(r->Err_0, reply->Err_0),
{
}

/// A sleeping task is suspended once its run is scheduled; else it has the error.
pub proof fn law_scheduled_sleep_suspends(reply: Result<u64, DbError>, r: TaskError)
    requires
        call_ensures(TaskContext::sleep_scheduled, (reply,), r),
    ensures
        r is Suspended <==> reply is Ok,
        reply is Err ==> tells_failure(r, reply->Err_0),
{
}

/// A sleep outlasts its run: begun in one run and recorded, it is found in the next, and is
/// over there exactly if its own time is reached; until then that run is scheduled for it too.
/// Inside a leap second, where a time may be read back as another spelling of the same
/// instant, the next run goes by that spelling as well, and is left out.
pub proof fn law_sleep_outlasts_its_run(
    ctx: &mut TaskContext,
    name: &str,
    wake_at: Timestamp,
    now: Timestamp,
    later: Timestamp,
    begun: Result<SleepStep, TaskError>,
    resumed: &mut TaskContext,
    now_again: Timestamp,
    later_again: Timestamp,
    begun_again: Result<SleepStep, TaskError>,
)
    requires
        MIN_SECS <= wake_at.secs <= MAX_SECS,
        wake_at.nanos < 1_000_000_000,
        uses(old(ctx)@, name@) < usize::MAX,
        call_ensures(TaskContext::sleep_until_at, (ctx, name, wake_at, now, later), begun),
        begun is Ok,
        begun->Ok_0 is Save,
        uses(old(resumed)@, name@) == uses(old(ctx)@, name@),
        old(resumed)@.checkpoints.contains_key(begun->Ok_0->checkpoint_name@),
        old(resumed)@.checkpoints[begun->Ok_0->checkpoint_name@] == begun->Ok_0->value,
        call_ensures(
            TaskContext::sleep_until_at,
            (resumed, name, wake_at, now_again, later_again),
            begun_again,
        ),
    ensures
        begun_again is Ok,
        begun_again->Ok_0 is Done <==> reached(wake_at, now_again) || reached(wake_at, later_again),
        begun_again->Ok_0 !is Done ==> scheduled_for(old(resumed)@, begun_again->Ok_0, wake_at),
{
}

} // verus!

//! The context that a task handler runs in: its checkpoints, and what each call on it asks
//! of the database.

use crate::error::{map_db_error, TaskError};
use crate::events::{payload_or_null, AwaitEventRow, AwaitVerdict};
use crate::model::{CheckpointView, ContextView, SleepView};
use crate::names::{make_checkpoint_name, push_decimal};
use crate::options::AwaitEventOptions;
use crate::outside::{
    clock_says, json_to_time, read_clock, time_to_json, try_get_json_at, try_get_text_at, DbError,
    Json,
};
use crate::request::Request;
use crate::time::{as_timeout_param, wake_time, Timestamp};
use std::collections::HashMap;
use tokio_postgres::Row;
use uuid::Uuid;
use vstd::hash_map::StringHashMap;
use vstd::prelude::*;
use vstd::string::*;

verus! {

/// A task that a worker has claimed, as far as its context reads it.
#[derive(Debug)]
pub struct ClaimedTask {
    /// Unique task identifier
    pub task_id: Uuid,
    /// The run of the task that was claimed
    pub run_id: Uuid,
    /// Headers attached to the task
    pub headers: Option<HashMap<String, Json>>,
    /// The event that the run was waiting for
    pub wake_event: Option<String>,
    /// The payload that the run was woken with
    pub event_payload: Option<Json>,
}

/// Context provided to task handlers for checkpointing and event handling
pub struct TaskContext {
    /// Unique task identifier
    pub task_id: Uuid,
    /// Queue name
    queue_name: String,
    /// Identifier that goes to the database
    claimed_id: Uuid,
    /// The run of the task that was claimed
    run_id: Uuid,
    /// Headers attached to the task; empty if it has none
    headers: HashMap<String, Json>,
    /// The event that the run was waiting for
    wake_event: Option<String>,
    /// The payload that the run was woken with
    event_payload: Option<Json>,
    /// Checkpoint cache
    checkpoint_cache: StringHashMap<Json>,
    /// How often each step name has been used
    step_counter: StringHashMap<usize>,
    /// Claim timeout in seconds
    claim_timeout: i32,
}

/// What a step finds when it begins.
#[derive(Debug)]
pub enum Checkpoint {
    /// It has been executed before, with this result.
    Cached(Json),
    /// It has not, and its result is to be recorded under this checkpoint name.
    Fresh(String),
}

impl View for Checkpoint {
    type V = CheckpointView;

    open spec fn view(&self) -> CheckpointView {
        match *self {
            Checkpoint::Cached(value) => CheckpointView::Cached(value),
            Checkpoint::Fresh(name) => CheckpointView::Fresh(name@),
        }
    }
}

/// What is left to do of a sleep.
#[derive(Debug)]
pub enum SleepStep {
    /// Record the checkpoint by [`TaskContext::persist_checkpoint`], then call
    /// [`TaskContext::sleep_saved`].
    Save { checkpoint_name: String, value: Json, wake_at: Timestamp },
    /// Send the request, then call [`TaskContext::sleep_scheduled`].
    Schedule(Request),
    /// Nothing: the sleep is over.
    Done,
}

impl View for SleepStep {
    type V = SleepView;

    open spec fn view(&self) -> SleepView {
        match *self {
            SleepStep::Save { checkpoint_name, value, wake_at } => SleepView::Save {
                checkpoint_name: checkpoint_name@,
                value,
                wake_at,
            },
            SleepStep::Schedule(request) => SleepView::Schedule(request@),
            SleepStep::Done => SleepView::Done,
        }
    }
}

/// How a wait for an event begins.
#[derive(Debug)]
pub enum AwaitStep {
    /// The event was received in an earlier run, with this payload.
    Received(Json),
    /// Send the request, then call [`TaskContext::await_event_reply`].
    Ask { checkpoint_name: String, request: Request },
}

impl View for TaskContext {
    type V = ContextView;

    closed spec fn view(&self) -> ContextView {
        ContextView {
            shown_id: self.task_id,
            queue_name: self.queue_name@,
            task_id: self.claimed_id,
            run_id: self.run_id,
            wake_event: text_view(self.wake_event),
            event_payload: self.event_payload,
            headers: self.headers@,
            checkpoints: self.checkpoint_cache@,
            counters: self.step_counter@,
            claim_timeout: self.claim_timeout,
        }
    }
}

/// The identifier that handlers read off a context is the one that its state shows.
proof fn law_shown_id_is_read_off(ctx: &TaskContext)
    ensures
        ctx@.shown_id == ctx.task_id,
{
}

/// A text that may be missing, as a sequence of characters.
pub open spec fn text_view(text: Option<String>) -> Option<Seq<char>> {
    match text {
        Some(t) => Some(t@),
        None => None,
    }
}

/// The checkpoints that rows of a name and a state make up: of two rows with one name, the
/// later counts.
pub open spec fn checkpoints_of(rows: Seq<(String, Json)>) -> Map<Seq<char>, Json>
    decreases rows.len(),
{
    if rows.len() == 0 {
        Map::empty()
    } else {
        checkpoints_of(rows.drop_last()).insert(rows.last().0@, rows.last().1)
    }
}

/// The checkpoint that a row of the database holds: its name, then its state.
pub open spec fn checkpoint_in(row: Row) -> Result<(Seq<char>, Json), DbError> {
    match (crate::outside::row_text_at(row, 0), crate::outside::row_json_at(row, 1)) {
        (Err(e), _) => Err(e),
        (_, Err(e)) => Err(e),
        (Ok(name), Ok(state)) => Ok((name, state)),
    }
}

impl TaskContext {
    /// Asks for the checkpoints of a task, for [`TaskContext::new`].
    pub fn checkpoint_states_request(queue_name: &str, task: &ClaimedTask) -> (r: Request)
        ensures
            r@ == (crate::request::RequestView::GetTaskCheckpointStates {
                queue_name: queue_name@,
                task_id: task.task_id,
                run_id: task.run_id,
            }),
    {
        Request::GetTaskCheckpointStates {
            queue_name: String::from(queue_name),
            task_id: task.task_id,
            run_id: task.run_id,
        }
    }

    /// Reads the rows of the answer; or gives the error of the first row that cannot be read.
    pub fn read_checkpoints(rows: &Vec<Row>) -> (r: Result<Vec<(String, Json)>, DbError>)
        ensures
            match r {
                Ok(checkpoints) => {
                    &&& checkpoints@.len() == rows@.len()
                    &&& forall|i: int|
                        0 <= i < rows@.len() ==> checkpoint_in(rows@[i]) == Ok::<_, DbError>(
                            ((#[trigger] checkpoints@[i]).0@, checkpoints@[i].1),
                        )
                },
                Err(e) => exists|k: int|
                    {
                        &&& 0 <= k < rows@.len()
                        &&& checkpoint_in(#[trigger] rows@[k]) == Err::<(Seq<char>, Json), _>(e)
                        &&& forall|i: int| 0 <= i < k ==> checkpoint_in(#[trigger] rows@[i]) is Ok
                    },
            },
    {
        let mut checkpoints: Vec<(String, Json)> = Vec::new();
        for k in 0..rows.len()
            invariant
                checkpoints@.len() == k,
                forall|i: int|
                    0 <= i < k ==> checkpoint_in(rows@[i]) == Ok::<_, DbError>(
                        ((#[trigger] checkpoints@[i]).0@, checkpoints@[i].1),
                    ),
                forall|i: int| 0 <= i < k ==> checkpoint_in(#[trigger] rows@[i]) is Ok,
        {
            match (try_get_text_at(&rows[k], 0), try_get_json_at(&rows[k], 1)) {
                (Ok(name), Ok(state)) => checkpoints.push((name, state)),
                (Err(e), _) => return Err(e),
                (_, Err(e)) => return Err(e),
            }
        }
        Ok(checkpoints)
    }

    /// Create a new task context, with the checkpoints that the database holds.
    pub fn new(
        queue_name: String,
        task: ClaimedTask,
        checkpoints: Vec<(String, Json)>,
        claim_timeout: i32,
    ) -> (r: Self)
        ensures
            r@ == (ContextView {
                shown_id: task.task_id,
                queue_name: queue_name@,
                task_id: task.task_id,
                run_id: task.run_id,
                wake_event: text_view(task.wake_event),
                event_payload: task.event_payload,
                headers: match task.headers {
                    Some(headers) => headers@,
                    None => Map::empty(),
                },
                checkpoints: checkpoints_of(checkpoints@),
                counters: Map::empty(),
                claim_timeout,
            }),
    {
        let headers = match task.headers {
            Some(headers) => headers,
            None => HashMap::new(),
        };
        let mut checkpoint_cache: StringHashMap<Json> = StringHashMap::new();
        for i in 0..checkpoints.len()
            invariant
                checkpoint_cache@ == checkpoints_of(checkpoints@.take(i as int)),
        {
            checkpoint_cache.insert(checkpoints[i].0.clone(), checkpoints[i].1.clone());
            assert(checkpoints@.take(i + 1).drop_last() == checkpoints@.take(i as int));
        }
        assert(checkpoints@.take(checkpoints@.len() as int) == checkpoints@);
        TaskContext {
            task_id: task.task_id,
            queue_name,
            claimed_id: task.task_id,
            run_id: task.run_id,
            headers,
            wake_event: task.wake_event,
            event_payload: task.event_payload,
            checkpoint_cache,
            step_counter: StringHashMap::new(),
            claim_timeout,
        }
    }

    /// Headers attached to the task; empty if it has none
    pub fn headers(&self) -> (r: &HashMap<String, Json>)
        ensures
            r@ == self@.headers,
    {
        &self.headers
    }

    /// How often a step name has been used.
    pub fn step_count(&self, name: &str) -> (r: usize)
        ensures
            r == self@.count(name@),
    {
        match self.step_counter.get(name) {
            Some(count) => *count,
            None => 0,
        }
    }

    /// Returns the name that *would* be used next for `name` without advancing
    /// the counter. Use this for cache lookups.
    pub fn peek_checkpoint_name(&self, name: &str) -> (r: String)
        requires
            self@.count(name@) < usize::MAX,
        ensures
            r@ == self@.next_name(name@),
    {
        let count: usize = self.step_count(name);
        make_checkpoint_name(name, count + 1)
    }

    /// Advances the counter for `name` and returns the checkpoint name to use
    /// for the current invocation. Use this when you are about to write.
    pub fn advance_checkpoint_name(&mut self, name: &str) -> (r: String)
        requires
            old(self)@.count(name@) < usize::MAX,
        ensures
            r@ == old(self)@.next_name(name@),
            final(self)@ == old(self)@.advanced(name@),
    {
        let nth: usize = self.step_count(name) + 1;
        self.step_counter.insert(String::from(name), nth);
        make_checkpoint_name(name, nth)
    }

    /// Execute an idempotent step with checkpointing.
    ///
    /// If this step has been executed before, gives the cached result. Otherwise the step is
    /// to be executed and its result recorded, by [`TaskContext::persist_checkpoint`] and
    /// [`TaskContext::checkpoint_persisted`], under the name given.
    pub fn step(&mut self, name: &str) -> (r: Checkpoint)
        requires
            old(self)@.count(name@) < usize::MAX,
        ensures
            r@ == old(self)@.lookup(name@),
            final(self)@ == old(self)@.advanced(name@),
    {
        // Peek without advancing so cache hits don't shift subsequent step names
        let checkpoint_name = self.peek_checkpoint_name(name);
        let found = match self.checkpoint_cache.get(checkpoint_name.as_str()) {
            Some(cached) => Some(cached.clone()),
            None => None,
        };
        // Advance counter to stay in sync even on a cache hit
        let checkpoint_name = self.advance_checkpoint_name(name);
        match found {
            Some(cached) => Checkpoint::Cached(cached),
            None => Checkpoint::Fresh(checkpoint_name),
        }
    }

    /// The request that records a checkpoint.
    pub fn persist_checkpoint(&self, name: &str, value: &Json) -> (r: Request)
        ensures
            r@ == self@.set_checkpoint(name@, *value),
    {
        Request::SetTaskCheckpointState {
            queue_name: self.queue_name.clone(),
            task_id: self.claimed_id,
            name: String::from(name),
            value: value.clone(),
            run_id: self.run_id,
            claim_timeout: self.claim_timeout,
        }
    }

    /// Takes the database's answer to [`TaskContext::persist_checkpoint`].
    pub fn checkpoint_persisted(
        &mut self,
        name: &str,
        value: &Json,
        reply: Result<u64, DbError>,
    ) -> (r: Result<(), TaskError>)
        ensures
            (final(self)@, crate::error::outcome(r)) == old(self)@.after_set_checkpoint(
                name@,
                *value,
                reply,
            ),
    {
        match reply {
            Ok(_) => {
                self.checkpoint_cache.insert(String::from(name), value.clone());
                Ok(())
            },
            Err(e) => Err(map_db_error(e)),
        }
    }

    /// The request that runs the task again at a time.
    pub fn schedule_run(&self, wake_at: Timestamp) -> (r: Request)
        ensures
            r@ == self@.run_at(wake_at),
    {
        Request::ScheduleRun {
            queue_name: self.queue_name.clone(),
            run_id: self.run_id,
            wake_at,
        }
    }

    /// Sleep for a duration in seconds. `None`, and nothing is done, if no UTC time is that
    /// far away.
    pub fn sleep_for(&mut self, name: &str, duration_secs: u64) -> (r: Option<
        Result<SleepStep, TaskError>,
    >)
        requires
            old(self)@.count(name@) < usize::MAX,
        ensures
            exists|now: Timestamp|
                {
                    let secs = now.secs + duration_secs;
                    let wake_at = Timestamp { secs: secs as i64, nanos: now.nanos };
                    &&& #[trigger] now.clock_reading()
                    &&& r is Some <==> crate::time::in_range(secs)
                    &&& r is Some ==> sleep_begun(old(self)@, name@, wake_at, r->0)
                },
            exists|now: Timestamp, next: Timestamp, later: Timestamp|
                {
                    let secs = now.secs + duration_secs;
                    let wake_at = Timestamp { secs: secs as i64, nanos: now.nanos };
                    &&& #[trigger] clock_says(now)
                    &&& #[trigger] clock_says(next)
                    &&& #[trigger] clock_says(later)
                    &&& r is Some <==> crate::time::in_range(secs)
                    &&& r is Some ==> sleep_begun_at(
                        old(self)@,
                        name@,
                        wake_at,
                        next,
                        later,
                        r->0,
                    )
                },
            final(self)@ == if r is Some {
                old(self)@.advanced(name@)
            } else {
                old(self)@
            },
    {
        let now = read_clock();
        let next = read_clock();
        let later = read_clock();
        let begun = self.sleep_for_at(name, duration_secs, now, next, later);
        assert(now.clock_reading());
        begun
    }

    /// Sleep for a duration in seconds, from `now` on, when the clock then says `next` and
    /// `later`. `None`, and nothing is done, if no UTC time is that far away.
    pub fn sleep_for_at(
        &mut self,
        name: &str,
        duration_secs: u64,
        now: Timestamp,
        next: Timestamp,
        later: Timestamp,
    ) -> (r: Option<Result<SleepStep, TaskError>>)
        requires
            now.clock_reading(),
            old(self)@.count(name@) < usize::MAX,
        ensures
            r is Some <==> crate::time::in_range(now.secs + duration_secs),
            r is Some ==> sleep_begun_at(
                old(self)@,
                name@,
                (Timestamp { secs: (now.secs + duration_secs) as i64, nanos: now.nanos }),
                next,
                later,
                r->0,
            ),
            final(self)@ == if r is Some {
                old(self)@.advanced(name@)
            } else {
                old(self)@
            },
    {
        match wake_time(now, duration_secs) {
            Some(wake_at) => Some(self.sleep_until_at(name, wake_at, next, later)),
            None => None,
        }
    }

    /// Sleep until a specific time
    pub fn sleep_until(&mut self, name: &str, wake_at: Timestamp) -> (r: Result<
        SleepStep,
        TaskError,
    >)
        requires
            wake_at.well_formed(),
            old(self)@.count(name@) < usize::MAX,
        ensures
            sleep_begun(old(self)@, name@, wake_at, r),
            exists|now: Timestamp, later: Timestamp|
                {
                    &&& clock_says(now)
                    &&& clock_says(later)
                    &&& #[trigger] sleep_begun_at(old(self)@, name@, wake_at, now, later, r)
                },
            final(self)@ == old(self)@.advanced(name@),
    {
        let now = read_clock();
        let later = read_clock();
        self.sleep_until_at(name, wake_at, now, later)
    }

    /// Sleep until a specific time, when the clock says `now` and then `later`.
    pub fn sleep_until_at(
        &mut self,
        name: &str,
        wake_at: Timestamp,
        now: Timestamp,
        later: Timestamp,
    ) -> (r: Result<SleepStep, TaskError>)
        requires
            wake_at.well_formed(),
            old(self)@.count(name@) < usize::MAX,
        ensures
            sleep_begun_at(old(self)@, name@, wake_at, now, later, r),
            final(self)@ == old(self)@.advanced(name@),
    {
        match self.step(name) {
            Checkpoint::Cached(cached) => match json_to_time(cached) {
                Ok(stored) => Ok(self.resume_sleep(stored, wake_at, now, later)),
                Err(e) => Err(TaskError::Serialization(e)),
            },
            Checkpoint::Fresh(checkpoint_name) => match time_to_json(wake_at) {
                Ok(value) => Ok(SleepStep::Save { checkpoint_name, value, wake_at }),
                Err(e) => Err(TaskError::Serialization(e)),
            },
        }
    }

    /// What is left of a sleep until `wake_at` when the clock says `now`.
    pub fn check_sleep(&self, wake_at: Timestamp, now: Timestamp) -> (r: SleepStep)
        ensures
            r@ == self@.sleep_at(wake_at, now),
    {
        if now.is_before(&wake_at) {
            SleepStep::Schedule(self.schedule_run(wake_at))
        } else {
            SleepStep::Done
        }
    }

    /// What is left of a sleep that was recorded to last until `stored`, when the clock says
    /// `now` and then `later`.
    pub fn resume_sleep(
        &self,
        stored: Timestamp,
        wake_at: Timestamp,
        now: Timestamp,
        later: Timestamp,
    ) -> (r: SleepStep)
        ensures
            r@ == self@.resumed_sleep_at(stored, wake_at, now, later),
    {
        if now.is_before(&stored) {
            self.check_sleep(wake_at, later)
        } else {
            SleepStep::Done
        }
    }

    /// Takes the database's answer to the checkpoint of a sleep.
    pub fn sleep_saved(
        &mut self,
        checkpoint_name: &str,
        value: &Json,
        wake_at: Timestamp,
        reply: Result<u64, DbError>,
    ) -> (r: Result<SleepStep, TaskError>)
        ensures
            final(self)@ == old(self)@.after_set_checkpoint(checkpoint_name@, *value, reply).0,
            match reply {
                Ok(_) => r is Ok && exists|now: Timestamp|
                    #[trigger] now.clock_reading() && r->Ok_0@ == old(self)@.sleep_at(wake_at, now),
                Err(e) => r is Err && r->Err_0@ == crate::error::db_failure(e),
            },
            reply is Ok ==> exists|now: Timestamp| #[trigger]
                clock_says(now) && r->Ok_0@ == old(self)@.sleep_at(wake_at, now),
    {
        let now = read_clock();
        let r = self.sleep_saved_at(checkpoint_name, value, wake_at, reply, now);
        assert(now.clock_reading());
        r
    }

    /// Takes the database's answer to the checkpoint of a sleep, when the clock says `now`.
    pub fn sleep_saved_at(
        &mut self,
        checkpoint_name: &str,
        value: &Json,
        wake_at: Timestamp,
        reply: Result<u64, DbError>,
        now: Timestamp,
    ) -> (r: Result<SleepStep, TaskError>)
        ensures
            final(self)@ == old(self)@.after_set_checkpoint(checkpoint_name@, *value, reply).0,
            match reply {
                Ok(_) => r is Ok && r->Ok_0@ == old(self)@.sleep_at(wake_at, now),
                Err(e) => r is Err && r->Err_0@ == crate::error::db_failure(e),
            },
    {
        match self.checkpoint_persisted(checkpoint_name, value, reply) {
            Ok(_) => Ok(self.check_sleep(wake_at, now)),
            Err(e) => Err(e),
        }
    }

    /// Takes the database's answer to the scheduling of a sleeping task: the task is
    /// suspended, unless the database failed.
    pub fn sleep_scheduled(reply: Result<u64, DbError>) -> (r: TaskError)
        ensures
            r@ == match reply {
                Ok(_) => crate::error::ErrorView::Suspended,
                Err(e) => crate::error::db_failure(e),
            },
    {
        match reply {
            Ok(_) => TaskError::Suspended,
            Err(e) => map_db_error(e),
        }
    }

    /// The step that a wait for an event is recorded as.
    pub fn await_step_name(event_name: &str, options: &AwaitEventOptions) -> (r: String)
        ensures
            r@ == crate::model::await_step(event_name@, text_view(options.step_name)),
    {
        match &options.step_name {
            Some(name) => name.clone(),
            None => {
                let mut name = String::from("$awaitEvent:");
                name.append(event_name);
                name
            },
        }
    }

    /// Wait for an event to be emitted.
    ///
    /// Gives the event payload when it was received before. Otherwise the database is to be
    /// asked for it.
    pub fn await_event(&mut self, event_name: &str, options: &AwaitEventOptions) -> (r: AwaitStep)
        requires
            old(self)@.count(
                crate::model::await_step(event_name@, text_view(options.step_name)),
            ) < usize::MAX,
        ensures
            ({
                let step = crate::model::await_step(event_name@, text_view(options.step_name));
                &&& final(self)@ == old(self)@.advanced(step)
                &&& match old(self)@.lookup(step) {
                    CheckpointView::Cached(payload) => r == AwaitStep::Received(payload),
                    CheckpointView::Fresh(name) => {
                        &&& r is Ask
                        &&& r->checkpoint_name@ == name
                        &&& r->request@ == old(self)@.await_request(
                            name,
                            event_name@,
                            options.timeout_secs,
                        )
                    },
                }
            }),
    {
        let step_name = Self::await_step_name(event_name, options);
        match self.step(step_name.as_str()) {
            Checkpoint::Cached(payload) => AwaitStep::Received(payload),
            Checkpoint::Fresh(checkpoint_name) => {
                let timeout_secs = match options.timeout_secs {
                    Some(secs) => Some(as_timeout_param(secs)),
                    None => None,
                };
                let request = Request::AwaitEvent {
                    queue_name: self.queue_name.clone(),
                    task_id: self.claimed_id,
                    run_id: self.run_id,
                    checkpoint_name: checkpoint_name.clone(),
                    event_name: String::from(event_name),
                    timeout_secs,
                };
                AwaitStep::Ask { checkpoint_name, request }
            },
        }
    }

    /// Takes the database's answer to a wait for an event; only the first row counts.
    ///
    /// Returns the event payload when received. If timeout is specified and
    /// exceeded, returns an error.
    pub fn await_event_reply(
        &mut self,
        event_name: &str,
        options: &AwaitEventOptions,
        checkpoint_name: String,
        reply: Result<Vec<Row>, DbError>,
    ) -> (r: Result<Json, TaskError>)
        ensures
            (final(self)@, crate::error::outcome(r)) == old(self)@.after_await(
                checkpoint_name@,
                event_name@,
                options.timeout_secs,
                match reply {
                    Ok(rows) => Ok(
                        if rows@.len() == 0 {
                            None
                        } else {
                            Some(crate::events::row_content(rows@[0]))
                        },
                    ),
                    Err(e) => Err(e),
                },
            ),
            r is Ok ==> {
                &&& reply is Ok
                &&& crate::events::row_content(reply->Ok_0@[0]).payload->Ok_0 is None
                    ==> crate::outside::json_is_null(r->Ok_0)
            },
    {
        let answer = match reply {
            Ok(rows) => {
                if rows.len() == 0 {
                    Ok(None)
                } else {
                    Ok(Some(AwaitEventRow::read(&rows[0])))
                }
            },
            Err(e) => Err(e),
        };
        self.conclude_await(event_name, options, checkpoint_name, answer)
    }

    /// What the database's answer to a wait for an event comes to, given the first row of it.
    pub fn conclude_await(
        &mut self,
        event_name: &str,
        options: &AwaitEventOptions,
        checkpoint_name: String,
        answer: Result<Option<AwaitEventRow>, DbError>,
    ) -> (r: Result<Json, TaskError>)
        ensures
            (final(self)@, crate::error::outcome(r)) == old(self)@.after_await(
                checkpoint_name@,
                event_name@,
                options.timeout_secs,
                match answer {
                    Ok(Some(row)) => Ok(Some(row@)),
                    Ok(None) => Ok(None),
                    Err(e) => Err(e),
                },
            ),
            r is Ok ==> {
                &&& answer matches Ok(Some(row))
                &&& row.payload->Ok_0 is None ==> crate::outside::json_is_null(r->Ok_0)
            },
    {
        let row = match answer {
            Ok(Some(row)) => row,
            Ok(None) => return Err(
                TaskError::Other(String::from("await_event returned no rows")),
            ),
            Err(e) => return Err(map_db_error(e)),
        };
        let woken_without_payload = match &self.wake_event {
            Some(wake_event) => *wake_event == String::from(event_name)
                && self.event_payload.is_none(),
            None => false,
        };
        match row.judge(woken_without_payload) {
            AwaitVerdict::Malformed(count) => {
                let mut text = String::from("await_event returned unexpected column count: ");
                push_decimal(&mut text, count);
                Err(TaskError::Other(text))
            },
            AwaitVerdict::Unreadable(e) => Err(TaskError::Database(e)),
            AwaitVerdict::TimedOut => {
                self.wake_event = None;
                self.event_payload = None;
                let secs: u64 = match options.timeout_secs {
                    Some(secs) => secs,
                    None => 0,
                };
                Err(TaskError::EventTimeout(String::from(event_name), secs))
            },
            AwaitVerdict::Delivered(payload) => {
                self.checkpoint_cache.insert(checkpoint_name, payload.clone());
                self.event_payload = None;
                Ok(payload)
            },
            AwaitVerdict::Pending => Err(TaskError::Suspended),
        }
    }

    /// Emit an event to the queue
    pub fn emit_event(&self, event_name: &str, payload: Option<Json>) -> (r: Request)
        ensures
            r@ == (crate::request::RequestView::EmitEvent {
                queue_name: self@.queue_name,
                event_name: event_name@,
                payload: match payload {
                    Some(value) => value,
                    None => crate::outside::null(),
                },
            }),
            payload is None ==> crate::outside::json_is_null(r@->EmitEvent_payload),
    {
        Request::EmitEvent {
            queue_name: self.queue_name.clone(),
            event_name: String::from(event_name),
            payload: payload_or_null(payload),
        }
    }

    /// Extend the claim timeout to prevent task from being reclaimed
    pub fn heartbeat(&self, extend_by_secs: Option<i32>) -> (r: Request)
        ensures
            r@ == (crate::request::RequestView::ExtendClaim {
                queue_name: self@.queue_name,
                run_id: self@.run_id,
                extend_by: match extend_by_secs {
                    Some(secs) => secs,
                    None => self@.claim_timeout,
                },
            }),
    {
        let extend_by: i32 = match extend_by_secs {
            Some(secs) => secs,
            None => self.claim_timeout,
        };
        Request::ExtendClaim {
            queue_name: self.queue_name.clone(),
            run_id: self.run_id,
            extend_by,
        }
    }
}

/// How a sleep until `wake_at` begins, in a given state, when the clock says `now` and then
/// `later`. A sleep that is new is to be recorded. One that was recorded in an earlier run
/// goes by the clock; a record that is no time is an error.
pub open spec fn sleep_begun_at(
    ctx: ContextView,
    name: Seq<char>,
    wake_at: Timestamp,
    now: Timestamp,
    later: Timestamp,
    r: Result<SleepStep, TaskError>,
) -> bool {
    match ctx.lookup(name) {
        CheckpointView::Fresh(checkpoint_name) => {
            let value = crate::outside::json_of_time(wake_at);
            &&& r is Ok
            &&& r->Ok_0@ == (SleepView::Save { checkpoint_name, value, wake_at })
            &&& crate::outside::time_in_json(value) matches Ok(read) && read == wake_at.settled()
        },
        CheckpointView::Cached(cached) => match crate::outside::time_in_json(cached) {
            Ok(stored) => {
                &&& r is Ok
                &&& r->Ok_0@ == ctx.resumed_sleep_at(stored, wake_at, now, later)
            },
            Err(e) => r is Err && r->Err_0@ == crate::error::ErrorView::Serialization(e),
        },
    }
}

/// How a sleep until `wake_at` begins, in a given state, whatever the clock says.
pub open spec fn sleep_begun(
    ctx: ContextView,
    name: Seq<char>,
    wake_at: Timestamp,
    r: Result<SleepStep, TaskError>,
) -> bool {
    exists|now: Timestamp, later: Timestamp|
        {
            &&& now.clock_reading()
            &&& later.clock_reading()
            &&& #[trigger] sleep_begun_at(ctx, name, wake_at, now, later, r)
        }
}

} // verus!

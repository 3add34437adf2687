//! The state of a task context as a mathematical value, and how each call changes it.

use crate::error::{db_failure, ErrorView};
use crate::events::{AwaitEventRowView, AwaitVerdict};
use crate::names::{checkpoint_name, decimal};
use crate::outside::{DbError, Json};
use crate::request::RequestView;
use crate::time::{timeout_param, Timestamp};
use uuid::Uuid;
use vstd::prelude::*;

verus! {

/// The state of a task context. `shown_id` is the identifier that handlers read off the
/// context, `task_id` the one that goes to the database.
#[verifier::ext_equal]
pub struct ContextView {
    pub shown_id: Uuid,
    pub queue_name: Seq<char>,
    pub task_id: Uuid,
    pub run_id: Uuid,
    pub wake_event: Option<Seq<char>>,
    pub event_payload: Option<Json>,
    pub headers: Map<String, Json>,
    pub checkpoints: Map<Seq<char>, Json>,
    pub counters: Map<Seq<char>, usize>,
    pub claim_timeout: i32,
}

/// What a step finds when it begins: its recorded result, or the checkpoint name to record
/// it under.
pub enum CheckpointView {
    Cached(Json),
    Fresh(Seq<char>),
}

/// What is left to do of a sleep.
pub enum SleepView {
    Save { checkpoint_name: Seq<char>, value: Json, wake_at: Timestamp },
    Schedule(RequestView),
    Done,
}

impl ContextView {
    /// How often a step name has been used.
    pub open spec fn count(self, step: Seq<char>) -> nat {
        if self.counters.contains_key(step) {
            self.counters[step] as nat
        } else {
            0
        }
    }

    /// The checkpoint name of the next use of a step name.
    pub open spec fn next_name(self, step: Seq<char>) -> Seq<char> {
        checkpoint_name(step, self.count(step) + 1)
    }

    /// The state after one more use of a step name.
    pub open spec fn advanced(self, step: Seq<char>) -> ContextView {
        ContextView {
            counters: self.counters.insert(step, (self.count(step) + 1) as usize),
            ..self
        }
    }

    /// What the next use of a step name finds.
    pub open spec fn lookup(self, step: Seq<char>) -> CheckpointView {
        let name = self.next_name(step);
        if self.checkpoints.contains_key(name) {
            CheckpointView::Cached(self.checkpoints[name])
        } else {
            CheckpointView::Fresh(name)
        }
    }

    /// The state with a checkpoint recorded.
    pub open spec fn recorded(self, name: Seq<char>, value: Json) -> ContextView {
        ContextView { checkpoints: self.checkpoints.insert(name, value), ..self }
    }

    /// The request that records a checkpoint.
    pub open spec fn set_checkpoint(self, name: Seq<char>, value: Json) -> RequestView {
        RequestView::SetTaskCheckpointState {
            queue_name: self.queue_name,
            task_id: self.task_id,
            name,
            value,
            run_id: self.run_id,
            claim_timeout: self.claim_timeout,
        }
    }

    /// The state and the result after the database has answered that request: only a
    /// checkpoint that the database holds is in the state.
    pub open spec fn after_set_checkpoint(
        self,
        name: Seq<char>,
        value: Json,
        reply: Result<u64, DbError>,
    ) -> (ContextView, Result<(), ErrorView>) {
        match reply {
            Ok(_) => (self.recorded(name, value), Ok(())),
            Err(e) => (self, Err(db_failure(e))),
        }
    }

    /// The request that runs the task again at a time.
    pub open spec fn run_at(self, wake_at: Timestamp) -> RequestView {
        RequestView::ScheduleRun { queue_name: self.queue_name, run_id: self.run_id, wake_at }
    }

    /// What is left of a sleep until `wake_at` when the clock says `now`.
    pub open spec fn sleep_at(self, wake_at: Timestamp, now: Timestamp) -> SleepView {
        if now.before(wake_at) {
            SleepView::Schedule(self.run_at(wake_at))
        } else {
            SleepView::Done
        }
    }

    /// What is left of a sleep that was recorded, in an earlier run, to last until `stored`:
    /// nothing if the clock says at first that `stored` is reached; else it counts what the
    /// clock says next, `later`, of the time asked for now.
    pub open spec fn resumed_sleep_at(
        self,
        stored: Timestamp,
        wake_at: Timestamp,
        now: Timestamp,
        later: Timestamp,
    ) -> SleepView {
        if now.before(stored) {
            self.sleep_at(wake_at, later)
        } else {
            SleepView::Done
        }
    }

    /// The request that takes an event or waits for it.
    pub open spec fn await_request(
        self,
        checkpoint_name: Seq<char>,
        event_name: Seq<char>,
        timeout_secs: Option<u64>,
    ) -> RequestView {
        RequestView::AwaitEvent {
            queue_name: self.queue_name,
            task_id: self.task_id,
            run_id: self.run_id,
            checkpoint_name,
            event_name,
            timeout_secs: match timeout_secs {
                Some(secs) => Some(timeout_param(secs)),
                None => None,
            },
        }
    }

    /// Whether this run was waiting for the event and was woken without a payload.
    pub open spec fn woken_without_payload(self, event_name: Seq<char>) -> bool {
        self.wake_event == Some(event_name) && self.event_payload is None
    }

    /// The state and the result that follow from what the database's row says.
    pub open spec fn after_verdict(
        self,
        checkpoint_name: Seq<char>,
        event_name: Seq<char>,
        timeout_secs: Option<u64>,
        verdict: AwaitVerdict,
    ) -> (ContextView, Result<Json, ErrorView>) {
        match verdict {
            AwaitVerdict::Malformed(count) => (
                self,
                Err(
                    ErrorView::Other(
                        "await_event returned unexpected column count: "@ + decimal(count as nat),
                    ),
                ),
            ),
            AwaitVerdict::Unreadable(e) => (self, Err(ErrorView::Database(e))),
            AwaitVerdict::TimedOut => (
                ContextView { wake_event: None, event_payload: None, ..self },
                Err(
                    ErrorView::EventTimeout(
                        event_name,
                        match timeout_secs {
                            Some(secs) => secs,
                            None => 0,
                        },
                    ),
                ),
            ),
            AwaitVerdict::Delivered(payload) => (
                ContextView { event_payload: None, ..self.recorded(checkpoint_name, payload) },
                Ok(payload),
            ),
            AwaitVerdict::Pending => (self, Err(ErrorView::Suspended)),
        }
    }

    /// The state and the result after the database has answered a wait for an event, given
    /// the first row of its answer.
    pub open spec fn after_await(
        self,
        checkpoint_name: Seq<char>,
        event_name: Seq<char>,
        timeout_secs: Option<u64>,
        answer: Result<Option<AwaitEventRowView>, DbError>,
    ) -> (ContextView, Result<Json, ErrorView>) {
        match answer {
            Err(e) => (self, Err(db_failure(e))),
            Ok(None) => (self, Err(ErrorView::Other("await_event returned no rows"@))),
            Ok(Some(row)) => self.after_verdict(
                checkpoint_name,
                event_name,
                timeout_secs,
                row.verdict(self.woken_without_payload(event_name)),
            ),
        }
    }
}

/// The step that a wait for an event is recorded as: the one asked for, or one named after
/// the event.
pub open spec fn await_step(event_name: Seq<char>, step_name: Option<Seq<char>>) -> Seq<char> {
    match step_name {
        Some(name) => name,
        None => "$awaitEvent:"@ + event_name,
    }
}

} // verus!

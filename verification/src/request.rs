//! What a task context asks of the database.

use crate::outside::Json;
use crate::time::Timestamp;
use uuid::Uuid;
use vstd::prelude::*;

verus! {

/// A call of one of the database's functions: its [`statement`](Request::statement) is sent
/// with its [`params`](Request::params).
#[derive(Debug)]
pub enum Request {
    /// Read the checkpoints of a task.
    GetTaskCheckpointStates { queue_name: String, task_id: Uuid, run_id: Uuid },
    /// Record a checkpoint, and extend the claim on the run.
    SetTaskCheckpointState {
        queue_name: String,
        task_id: Uuid,
        name: String,
        value: Json,
        run_id: Uuid,
        claim_timeout: i32,
    },
    /// Run the task again at a later time.
    ScheduleRun { queue_name: String, run_id: Uuid, wake_at: Timestamp },
    /// Take an event, or wait for it.
    AwaitEvent {
        queue_name: String,
        task_id: Uuid,
        run_id: Uuid,
        checkpoint_name: String,
        event_name: String,
        timeout_secs: Option<i32>,
    },
    /// Emit an event.
    EmitEvent { queue_name: String, event_name: String, payload: Json },
    /// Extend the claim on a run.
    ExtendClaim { queue_name: String, run_id: Uuid, extend_by: i32 },
}

/// A [`Request`] with its texts as sequences of characters.
pub enum RequestView {
    GetTaskCheckpointStates { queue_name: Seq<char>, task_id: Uuid, run_id: Uuid },
    SetTaskCheckpointState {
        queue_name: Seq<char>,
        task_id: Uuid,
        name: Seq<char>,
        value: Json,
        run_id: Uuid,
        claim_timeout: i32,
    },
    ScheduleRun { queue_name: Seq<char>, run_id: Uuid, wake_at: Timestamp },
    AwaitEvent {
        queue_name: Seq<char>,
        task_id: Uuid,
        run_id: Uuid,
        checkpoint_name: Seq<char>,
        event_name: Seq<char>,
        timeout_secs: Option<i32>,
    },
    EmitEvent { queue_name: Seq<char>, event_name: Seq<char>, payload: Json },
    ExtendClaim { queue_name: Seq<char>, run_id: Uuid, extend_by: i32 },
}

/// A parameter of a statement.
#[derive(Debug)]
pub enum Param {
    Text(String),
    Id(Uuid),
    Value(Json),
    Int(i32),
    OptionalInt(Option<i32>),
    Time(Timestamp),
}

/// A [`Param`] with its text as a sequence of characters.
pub enum ParamView {
    Text(Seq<char>),
    Id(Uuid),
    Value(Json),
    Int(i32),
    OptionalInt(Option<i32>),
    Time(Timestamp),
}

impl View for Param {
    type V = ParamView;

    open spec fn view(&self) -> ParamView {
        match *self {
            Param::Text(text) => ParamView::Text(text@),
            Param::Id(id) => ParamView::Id(id),
            Param::Value(value) => ParamView::Value(value),
            Param::Int(number) => ParamView::Int(number),
            Param::OptionalInt(number) => ParamView::OptionalInt(number),
            Param::Time(time) => ParamView::Time(time),
        }
    }
}

/// Parameters with their texts as sequences of characters.
pub open spec fn param_views(params: Seq<Param>) -> Seq<ParamView> {
    Seq::new(params.len(), |i: int| params[i]@)
}

impl RequestView {
    /// What the statement is sent with: the first parameter is bound to `$1`, the second to
    /// `$2`, and so on.
    pub open spec fn params(self) -> Seq<ParamView> {
        match self {
            RequestView::GetTaskCheckpointStates { queue_name, task_id, run_id } => seq![
                ParamView::Text(queue_name),
                ParamView::Id(task_id),
                ParamView::Id(run_id),
            ],
            RequestView::SetTaskCheckpointState {
                queue_name,
                task_id,
                name,
                value,
                run_id,
                claim_timeout,
            } => seq![
                ParamView::Text(queue_name),
                ParamView::Id(task_id),
                ParamView::Text(name),
                ParamView::Value(value),
                ParamView::Id(run_id),
                ParamView::Int(claim_timeout),
            ],
            RequestView::ScheduleRun { queue_name, run_id, wake_at } => seq![
                ParamView::Text(queue_name),
                ParamView::Id(run_id),
                ParamView::Time(wake_at),
            ],
            RequestView::AwaitEvent {
                queue_name,
                task_id,
                run_id,
                checkpoint_name,
                event_name,
                timeout_secs,
            } => seq![
                ParamView::Text(queue_name),
                ParamView::Id(task_id),
                ParamView::Id(run_id),
                ParamView::Text(checkpoint_name),
                ParamView::Text(event_name),
                ParamView::OptionalInt(timeout_secs),
            ],
            RequestView::EmitEvent { queue_name, event_name, payload } => seq![
                ParamView::Text(queue_name),
                ParamView::Text(event_name),
                ParamView::Value(payload),
            ],
            RequestView::ExtendClaim { queue_name, run_id, extend_by } => seq![
                ParamView::Text(queue_name),
                ParamView::Id(run_id),
                ParamView::Int(extend_by),
            ],
        }
    }
}

impl View for Request {
    type V = RequestView;

    open spec fn view(&self) -> RequestView {
        match *self {
            Request::GetTaskCheckpointStates { queue_name, task_id, run_id } => {
                RequestView::GetTaskCheckpointStates { queue_name: queue_name@, task_id, run_id }
            },
            Request::SetTaskCheckpointState {
                queue_name,
                task_id,
                name,
                value,
                run_id,
                claim_timeout,
            } => RequestView::SetTaskCheckpointState {
                queue_name: queue_name@,
                task_id,
                name: name@,
                value,
                run_id,
                claim_timeout,
            },
            Request::ScheduleRun { queue_name, run_id, wake_at } => RequestView::ScheduleRun {
                queue_name: queue_name@,
                run_id,
                wake_at,
            },
            Request::AwaitEvent {
                queue_name,
                task_id,
                run_id,
                checkpoint_name,
                event_name,
                timeout_secs,
            } => RequestView::AwaitEvent {
                queue_name: queue_name@,
                task_id,
                run_id,
                checkpoint_name: checkpoint_name@,
                event_name: event_name@,
                timeout_secs,
            },
            Request::EmitEvent { queue_name, event_name, payload } => RequestView::EmitEvent {
                queue_name: queue_name@,
                event_name: event_name@,
                payload,
            },
            Request::ExtendClaim { queue_name, run_id, extend_by } => RequestView::ExtendClaim {
                queue_name: queue_name@,
                run_id,
                extend_by,
            },
        }
    }
}

impl Request {
    /// The SQL text of the call.
    pub fn statement(&self) -> (r: &'static str)
        ensures
            r@ == match *self {
                Request::GetTaskCheckpointStates { .. } =>
                    "SELECT checkpoint_name, state\n                 FROM absurd.get_task_checkpoint_states($1, $2, $3)"@,
                Request::SetTaskCheckpointState { .. } =>
                    "SELECT absurd.set_task_checkpoint_state($1, $2, $3, $4, $5, $6)"@,
                Request::ScheduleRun { .. } => "SELECT absurd.schedule_run($1, $2, $3)"@,
                Request::AwaitEvent { .. } =>
                    "SELECT *\n                 FROM absurd.await_event($1, $2, $3, $4, $5, $6)"@,
                Request::EmitEvent { .. } => "SELECT absurd.emit_event($1, $2, $3)"@,
                Request::ExtendClaim { .. } => "SELECT absurd.extend_claim($1, $2, $3)"@,
            },
    {
        match self {
            Request::GetTaskCheckpointStates { .. } =>
                "SELECT checkpoint_name, state\n                 FROM absurd.get_task_checkpoint_states($1, $2, $3)",
            Request::SetTaskCheckpointState { .. } =>
                "SELECT absurd.set_task_checkpoint_state($1, $2, $3, $4, $5, $6)",
            Request::ScheduleRun { .. } => "SELECT absurd.schedule_run($1, $2, $3)",
            Request::AwaitEvent { .. } =>
                "SELECT *\n                 FROM absurd.await_event($1, $2, $3, $4, $5, $6)",
            Request::EmitEvent { .. } => "SELECT absurd.emit_event($1, $2, $3)",
            Request::ExtendClaim { .. } => "SELECT absurd.extend_claim($1, $2, $3)",
        }
    }

    /// What the statement is sent with, in the order of `$1`, `$2` and so on.
    pub fn params(&self) -> (r: Vec<Param>)
        ensures
            param_views(r@) == self@.params(),
    {
        let r: Vec<Param> = match self {
            Request::GetTaskCheckpointStates { queue_name, task_id, run_id } => vec![
                Param::Text(queue_name.clone()),
                Param::Id(*task_id),
                Param::Id(*run_id),
            ],
            Request::SetTaskCheckpointState {
                queue_name,
                task_id,
                name,
                value,
                run_id,
                claim_timeout,
            } => vec![
                Param::Text(queue_name.clone()),
                Param::Id(*task_id),
                Param::Text(name.clone()),
                Param::Value(value.clone()),
                Param::Id(*run_id),
                Param::Int(*claim_timeout),
            ],
            Request::ScheduleRun { queue_name, run_id, wake_at } => vec![
                Param::Text(queue_name.clone()),
                Param::Id(*run_id),
                Param::Time(*wake_at),
            ],
            Request::AwaitEvent {
                queue_name,
                task_id,
                run_id,
                checkpoint_name,
                event_name,
                timeout_secs,
            } => vec![
                Param::Text(queue_name.clone()),
                Param::Id(*task_id),
                Param::Id(*run_id),
                Param::Text(checkpoint_name.clone()),
                Param::Text(event_name.clone()),
                Param::OptionalInt(*timeout_secs),
            ],
            Request::EmitEvent { queue_name, event_name, payload } => vec![
                Param::Text(queue_name.clone()),
                Param::Text(event_name.clone()),
                Param::Value(payload.clone()),
            ],
            Request::ExtendClaim { queue_name, run_id, extend_by } => vec![
                Param::Text(queue_name.clone()),
                Param::Id(*run_id),
                Param::Int(*extend_by),
            ],
        };
        assert(param_views(r@) =~= self@.params());
        r
    }
}

} // verus!

//! What holds of requests: each statement is sent with the request's own fields, in order.

use crate::request::{param_views, Param, Request};
use vstd::prelude::*;

verus! {

/// The text that a parameter holds is the text asked for.
pub open spec fn holds_text(p: Param, text: String) -> bool {
    p matches Param::Text(held) && held@ == text@
}

/// Reading checkpoints is sent with the queue, the task and the run.
pub proof fn law_get_checkpoints_params(request: Request, r: Vec<Param>, sql: &'static str)
    requires
        request is GetTaskCheckpointStates,
        call_ensures(Request::params, (&request,), r),
        call_ensures(Request::statement, (&request,), sql),
    ensures
        sql@
            == "SELECT checkpoint_name, state\n                 FROM absurd.get_task_checkpoint_states($1, $2, $3)"@,
        r@.len() == 3,
        holds_text(r@[0], request->GetTaskCheckpointStates_queue_name),
        r@[1] == Param::Id(request->GetTaskCheckpointStates_task_id),
        r@[2] == Param::Id(request->GetTaskCheckpointStates_run_id),
{
    lemma_params_by_index(request, r);
}

/// Recording a checkpoint is sent with the queue, the task, the checkpoint's name and value,
/// the run and the claim timeout.
pub proof fn law_set_checkpoint_params(request: Request, r: Vec<Param>, sql: &'static str)
    requires
        request is SetTaskCheckpointState,
        call_ensures(Request::params, (&request,), r),
        call_ensures(Request::statement, (&request,), sql),
    ensures
        sql@ == "SELECT absurd.set_task_checkpoint_state($1, $2, $3, $4, $5, $6)"@,
        r@.len() == 6,
        holds_text(r@[0], request->SetTaskCheckpointState_queue_name),
        r@[1] == Param::Id(request->SetTaskCheckpointState_task_id),
        holds_text(r@[2], request->SetTaskCheckpointState_name),
        r@[3] == Param::Value(request->SetTaskCheckpointState_value),
        r@[4] == Param::Id(request->SetTaskCheckpointState_run_id),
        r@[5] == Param::Int(request->SetTaskCheckpointState_claim_timeout),
{
    lemma_params_by_index(request, r);
}

/// Scheduling a run is sent with the queue, the run and the time.
pub proof fn law_schedule_run_params(request: Request, r: Vec<Param>, sql: &'static str)
    requires
        request is ScheduleRun,
        call_ensures(Request::params, (&request,), r),
        call_ensures(Request::statement, (&request,), sql),
    ensures
        sql@ == "SELECT absurd.schedule_run($1, $2, $3)"@,
        r@.len() == 3,
        holds_text(r@[0], request->ScheduleRun_queue_name),
        r@[1] == Param::Id(request->ScheduleRun_run_id),
        r@[2] == Param::Time(request->ScheduleRun_wake_at),
{
    lemma_params_by_index(request, r);
}

/// Waiting for an event is sent with the queue, the task, the run, the checkpoint's name, the
/// event's name and the timeout.
pub proof fn law_await_event_params(request: Request, r: Vec<Param>, sql: &'static str)
    requires
        request is AwaitEvent,
        call_ensures(Request::params, (&request,), r),
        call_ensures(Request::statement, (&request,), sql),
    ensures
        sql@
            == "SELECT *\n                 FROM absurd.await_event($1, $2, $3, $4, $5, $6)"@,
        r@.len() == 6,
        holds_text(r@[0], request->AwaitEvent_queue_name),
        r@[1] == Param::Id(request->AwaitEvent_task_id),
        r@[2] == Param::Id(request->AwaitEvent_run_id),
        holds_text(r@[3], request->AwaitEvent_checkpoint_name),
        holds_text(r@[4], request->AwaitEvent_event_name),
        r@[5] == Param::OptionalInt(request->AwaitEvent_timeout_secs),
{
    lemma_params_by_index(request, r);
}

/// Emitting an event is sent with the queue, the event's name and the event's own payload.
pub proof fn law_emit_event_params(request: Request, r: Vec<Param>, sql: &'static str)
    requires
        request is EmitEvent,
        call_ensures(Request::params, (&request,), r),
        call_ensures(Request::statement, (&request,), sql),
    ensures
        sql@ == "SELECT absurd.emit_event($1, $2, $3)"@,
        r@.len() == 3,
        holds_text(r@[0], request->EmitEvent_queue_name),
        holds_text(r@[1], request->EmitEvent_event_name),
        r@[2] == Param::Value(request->EmitEvent_payload),
{
    lemma_params_by_index(request, r);
}

/// Extending a claim is sent with the queue, the run and the seconds.
pub proof fn law_extend_claim_params(request: Request, r: Vec<Param>, sql: &'static str)
    requires
        request is ExtendClaim,
        call_ensures(Request::params, (&request,), r),
        call_ensures(Request::statement, (&request,), sql),
    ensures
        sql@ == "SELECT absurd.extend_claim($1, $2, $3)"@,
        r@.len() == 3,
        holds_text(r@[0], request->ExtendClaim_queue_name),
        r@[1] == Param::Id(request->ExtendClaim_run_id),
        r@[2] == Param::Int(request->ExtendClaim_extend_by),
{
    lemma_params_by_index(request, r);
}

/// Parameters are what their views say, one by one.
pub(crate) proof fn lemma_params_by_index(request: Request, r: Vec<Param>)
    requires
        call_ensures(Request::params, (&request,), r),
    ensures
        r@.len() == request@.params().len(),
        forall|i: int| 0 <= i < r@.len() ==> (#[trigger] r@[i])@ == request@.params()[i],
{
    let views = param_views(r@);
    assert(views == request@.params());
    assert forall|i: int| 0 <= i < r@.len() implies (#[trigger] r@[i])@ == request@.params()[i] by {
        assert(views[i] == r@[i]@);
    }
}

} // verus!

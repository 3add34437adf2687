use absurd::{
    AwaitEventOptions, AwaitEventRow, AwaitStep, ClaimedTask, DbError, Json, Request, TaskContext, TaskError,
};
use uuid::Uuid;

fn claimed(wake_event: Option<&str>, event_payload: Option<Json>) -> ClaimedTask {
    ClaimedTask {
        task_id: Uuid::from_u128(7),
        run_id: Uuid::from_u128(8),
        headers: None,
        wake_event: wake_event.map(String::from),
        event_payload,
    }
}

fn context(task: ClaimedTask, checkpoints: Vec<(String, Json)>) -> TaskContext {
    TaskContext::new(String::from("test"), task, checkpoints, 30)
}

fn some_db_error() -> DbError {
    match "port=none".parse::<tokio_postgres::Config>() {
        Ok(_) => panic!("not a port"),
        Err(e) => e,
    }
}

fn legacy_row(should_suspend: bool, payload: Option<Json>) -> AwaitEventRow {
    AwaitEventRow {
        columns: vec![String::from("should_suspend"), String::from("payload")],
        should_suspend: Ok(should_suspend),
        payload: Ok(payload),
        timed_out: Err(some_db_error()),
    }
}

fn row(should_suspend: bool, payload: Option<Json>, timed_out: bool) -> AwaitEventRow {
    AwaitEventRow {
        columns: vec![
            String::from("should_suspend"),
            String::from("payload"),
            String::from("timed_out"),
        ],
        should_suspend: Ok(should_suspend),
        payload: Ok(payload),
        timed_out: Ok(timed_out),
    }
}

/// Awaits an event that is not received yet, with the given answer.
fn wait(
    ctx: &mut TaskContext,
    event_name: &str,
    options: &AwaitEventOptions,
    answer: Result<Option<AwaitEventRow>, DbError>,
) -> Result<Json, TaskError> {
    match ctx.await_event(event_name, options) {
        AwaitStep::Received(payload) => panic!("received {}", payload),
        AwaitStep::Ask { checkpoint_name, .. } => {
            ctx.conclude_await(event_name, options, checkpoint_name, answer)
        },
    }
}

fn assert_timeout(result: Result<Json, TaskError>, event_name: &str, timeout_secs: u64) {
    match result {
        Err(TaskError::EventTimeout(event, secs)) => {
            assert_eq!(event, event_name);
            assert_eq!(secs, timeout_secs);
        },
        other => panic!("unexpected {:?}", other),
    }
}

fn assert_other(result: Result<Json, TaskError>, text: &str) {
    match result {
        Err(TaskError::Other(said)) => assert_eq!(said, text),
        other => panic!("unexpected {:?}", other),
    }
}

#[test]
fn wait_asks_the_database() {
    let mut ctx = context(claimed(None, None), Vec::new());
    let options = AwaitEventOptions::new().with_timeout(5);
    match ctx.await_event("order.paid", &options) {
        AwaitStep::Ask { checkpoint_name, request } => {
            assert_eq!(checkpoint_name, "$awaitEvent:order.paid");
            assert_eq!(request.statement(), "SELECT *\n                 FROM absurd.await_event($1, $2, $3, $4, $5, $6)");
            match request {
                Request::AwaitEvent { queue_name, task_id, run_id, checkpoint_name, event_name, timeout_secs } => {
                    assert_eq!(queue_name, "test");
                    assert_eq!(task_id, Uuid::from_u128(7));
                    assert_eq!(run_id, Uuid::from_u128(8));
                    assert_eq!(checkpoint_name, "$awaitEvent:order.paid");
                    assert_eq!(event_name, "order.paid");
                    assert_eq!(timeout_secs, Some(5));
                },
                other => panic!("unexpected request {:?}", other),
            }
        },
        other => panic!("unexpected {:?}", other),
    }
    // A timeout that the parameter cannot hold is sent as the longest that it can.
    let options = AwaitEventOptions::new().with_step_name("long").with_timeout(0x1_0000_0001);
    match ctx.await_event("order.paid", &options) {
        AwaitStep::Ask { request: Request::AwaitEvent { timeout_secs, .. }, .. } => {
            assert_eq!(timeout_secs, Some(i32::MAX));
        },
        other => panic!("unexpected {:?}", other),
    }
    // A second wait for the same event is another step.
    match ctx.await_event("order.paid", &AwaitEventOptions::new()) {
        AwaitStep::Ask { checkpoint_name, request } => {
            assert_eq!(checkpoint_name, "$awaitEvent:order.paid#2");
            match request {
                Request::AwaitEvent { timeout_secs, .. } => assert_eq!(timeout_secs, None),
                other => panic!("unexpected request {:?}", other),
            }
        },
        other => panic!("unexpected {:?}", other),
    }
}

#[test]
fn wait_takes_the_step_name_asked_for() {
    let options = AwaitEventOptions::new().with_step_name("wait");
    assert_eq!(TaskContext::await_step_name("e", &options), "wait");
    assert_eq!(TaskContext::await_step_name("e", &AwaitEventOptions::new()), "$awaitEvent:e");
    let mut ctx = context(claimed(None, None), vec![(String::from("wait"), Json::from("paid"))]);
    match ctx.await_event("e", &options) {
        AwaitStep::Received(payload) => assert_eq!(payload, Json::from("paid")),
        other => panic!("unexpected {:?}", other),
    }
    assert_eq!(ctx.step_count("wait"), 1);
}

#[test]
fn received_event_is_kept_for_later_runs() {
    let options = AwaitEventOptions::new();
    let mut ctx = context(claimed(None, None), Vec::new());
    let paid = Json::from("paid");
    let payload = wait(&mut ctx, "e", &options, Ok(Some(row(false, Some(paid.clone()), false)))).unwrap();
    assert_eq!(payload, paid);
    let mut resumed = context(claimed(None, None), vec![(String::from("$awaitEvent:e"), payload)]);
    match resumed.await_event("e", &options) {
        AwaitStep::Received(payload) => assert_eq!(payload, paid),
        other => panic!("unexpected {:?}", other),
    }
}

#[test]
fn received_event_is_kept_in_the_run() {
    let mut ctx = context(claimed(None, None), Vec::new());
    let options = AwaitEventOptions::new().with_step_name("w#2");
    wait(&mut ctx, "e", &options, Ok(Some(row(false, Some(Json::from(9)), false)))).unwrap();
    let options = AwaitEventOptions::new().with_step_name("w");
    let _ = wait(&mut ctx, "f", &options, Ok(Some(row(true, None, false))));
    match ctx.await_event("g", &options) {
        AwaitStep::Received(payload) => assert_eq!(payload, Json::from(9)),
        other => panic!("unexpected {:?}", other),
    }
}

#[test]
fn event_without_payload_is_null() {
    let mut ctx = context(claimed(None, None), Vec::new());
    let payload = wait(&mut ctx, "e", &AwaitEventOptions::new(), Ok(Some(row(false, None, false)))).unwrap();
    assert_eq!(payload, Json::Null);
    let payload = wait(&mut ctx, "e", &AwaitEventOptions::new(), Ok(Some(legacy_row(false, None)))).unwrap();
    assert_eq!(payload, Json::Null);
}

#[test]
fn event_to_come_suspends_the_task() {
    for answer in [row(true, None, false), legacy_row(true, None)] {
        let mut ctx = context(claimed(Some("e"), None), Vec::new());
        match wait(&mut ctx, "e", &AwaitEventOptions::new(), Ok(Some(answer))) {
            Err(TaskError::Suspended) => {},
            other => panic!("unexpected {:?}", other),
        }
    }
}

#[test]
fn timeout_that_the_row_tells() {
    let mut ctx = context(claimed(None, None), Vec::new());
    let options = AwaitEventOptions::new().with_timeout(12);
    assert_timeout(wait(&mut ctx, "e", &options, Ok(Some(row(false, None, true)))), "e", 12);
    assert_timeout(wait(&mut ctx, "e", &options, Ok(Some(row(true, Some(Json::from(1)), true)))), "e", 12);
    let options = AwaitEventOptions::new();
    assert_timeout(wait(&mut ctx, "e", &options, Ok(Some(row(false, None, true)))), "e", 0);
}

#[test]
fn row_that_tells_no_timeout_is_believed() {
    let mut ctx = context(claimed(Some("e"), None), Vec::new());
    let payload = wait(&mut ctx, "e", &AwaitEventOptions::new(), Ok(Some(row(false, None, false)))).unwrap();
    assert_eq!(payload, Json::Null);
}

#[test]
fn await_event_legacy_timeout_fallback() {
    // The first run waits.
    let options = AwaitEventOptions::new().with_step_name("wait").with_timeout(1);
    let mut ctx = context(claimed(None, None), Vec::new());
    match wait(&mut ctx, "legacy_timeout", &options, Ok(Some(legacy_row(true, None)))) {
        Err(TaskError::Suspended) => {},
        other => panic!("unexpected {:?}", other),
    }
    // The second is woken without a payload.
    let mut ctx = context(claimed(Some("legacy_timeout"), None), Vec::new());
    let result = wait(&mut ctx, "legacy_timeout", &options, Ok(Some(legacy_row(false, None))));
    assert_timeout(result, "legacy_timeout", 1);
    // The timeout is reported once.
    let payload = wait(&mut ctx, "legacy_timeout", &options, Ok(Some(legacy_row(false, None)))).unwrap();
    assert_eq!(payload, Json::Null);
}

#[test]
fn legacy_timeout_needs_the_same_event_and_no_payload() {
    let options = AwaitEventOptions::new();
    let mut ctx = context(claimed(Some("other"), None), Vec::new());
    assert_eq!(wait(&mut ctx, "e", &options, Ok(Some(legacy_row(false, None)))).unwrap(), Json::Null);
    let mut ctx = context(claimed(Some("e"), Some(Json::from(4))), Vec::new());
    assert_eq!(wait(&mut ctx, "e", &options, Ok(Some(legacy_row(false, None)))).unwrap(), Json::Null);
    // The event used the payload up, so that the next such answer is a timeout.
    assert_timeout(wait(&mut ctx, "e", &options, Ok(Some(legacy_row(false, None)))), "e", 0);
    let mut ctx = context(claimed(Some("e"), None), Vec::new());
    let one = Json::from(1);
    assert_eq!(wait(&mut ctx, "e", &options, Ok(Some(legacy_row(false, Some(one.clone()))))).unwrap(), one);
}

#[test]
fn await_event_timeout_preserves_progress() {
    let mut stages: Vec<String> = Vec::new();
    let mut ctx = context(claimed(Some("wake:0"), None), vec![(String::from("done"), Json::from("kept"))]);
    for cycle in 0..2 {
        let event_name = format!("wake:{}", cycle);
        let options = AwaitEventOptions::new().with_step_name(format!("await-{}", cycle)).with_timeout(1);
        match wait(&mut ctx, &event_name, &options, Ok(Some(row(false, None, true)))) {
            Err(TaskError::EventTimeout(_, _)) => stages.push(format!("timeout-{}", cycle)),
            Ok(_) => stages.push(format!("event-{}", cycle)),
            Err(other) => panic!("unexpected {:?}", other),
        }
    }
    assert_eq!(stages, ["timeout-0", "timeout-1"]);
    match ctx.await_event("any", &AwaitEventOptions::new().with_step_name("done")) {
        AwaitStep::Received(payload) => assert_eq!(payload, Json::from("kept")),
        other => panic!("unexpected {:?}", other),
    }
}

#[test]
fn answers_that_make_no_sense() {
    let options = AwaitEventOptions::new();
    let mut ctx = context(claimed(None, None), Vec::new());
    assert_other(wait(&mut ctx, "e", &options, Ok(None)), "await_event returned no rows");
    let mut wide = row(false, None, false);
    wide.columns.push(String::from("extra"));
    assert_other(
        wait(&mut ctx, "e", &options, Ok(Some(wide))),
        "await_event returned unexpected column count: 4",
    );
    let mut unnamed = row(false, None, false);
    unnamed.columns[2] = String::from("late");
    assert_other(
        wait(&mut ctx, "e", &options, Ok(Some(unnamed))),
        "await_event returned unexpected column count: 3",
    );
    let mut bare = legacy_row(false, None);
    bare.columns.clear();
    assert_other(
        wait(&mut ctx, "e", &options, Ok(Some(bare))),
        "await_event returned unexpected column count: 0",
    );
}

#[test]
fn columns_that_cannot_be_read() {
    let options = AwaitEventOptions::new();
    let mut first = row(false, None, false);
    first.should_suspend = Err(some_db_error());
    let mut second = row(false, None, false);
    second.payload = Err(some_db_error());
    let mut third = row(false, None, false);
    third.timed_out = Err(some_db_error());
    for answer in [Ok(Some(first)), Ok(Some(second)), Ok(Some(third)), Err(some_db_error())] {
        let mut ctx = context(claimed(None, None), Vec::new());
        match wait(&mut ctx, "e", &options, answer) {
            Err(TaskError::Database(_)) => {},
            other => panic!("unexpected {:?}", other),
        }
    }
}

#[test]
fn context_speaks_for_its_run_throughout() {
    let mut ctx = context(claimed(Some("e"), None), Vec::new());
    let options = AwaitEventOptions::new();
    assert_timeout(wait(&mut ctx, "e", &options, Ok(Some(legacy_row(false, None)))), "e", 0);
    wait(&mut ctx, "e", &options, Ok(Some(row(false, Some(Json::from(1)), false)))).unwrap();
    ctx.checkpoint_persisted("a", &Json::from(2), Ok(1)).unwrap();
    match ctx.persist_checkpoint("b", &Json::from(3)) {
        Request::SetTaskCheckpointState { queue_name, task_id, run_id, claim_timeout, .. } => {
            assert_eq!(queue_name, "test");
            assert_eq!(task_id, Uuid::from_u128(7));
            assert_eq!(run_id, Uuid::from_u128(8));
            assert_eq!(claim_timeout, 30);
        },
        other => panic!("unexpected request {:?}", other),
    }
    assert_eq!(ctx.task_id, Uuid::from_u128(7));
}

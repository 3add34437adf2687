use absurd::{Checkpoint, ClaimedTask, DbError, Json, Param, Request, TaskContext, TaskError, Timestamp};
use std::collections::HashMap;
use uuid::Uuid;

fn claimed() -> ClaimedTask {
    ClaimedTask {
        task_id: Uuid::from_u128(7),
        run_id: Uuid::from_u128(8),
        headers: None,
        wake_event: None,
        event_payload: None,
    }
}

fn context(checkpoints: Vec<(String, Json)>) -> TaskContext {
    TaskContext::new(String::from("test"), claimed(), checkpoints, 30)
}

fn some_db_error() -> DbError {
    match "port=none".parse::<tokio_postgres::Config>() {
        Ok(_) => panic!("not a port"),
        Err(e) => e,
    }
}

/// Takes one step: answers from the checkpoints, or executes and records.
fn take_step(ctx: &mut TaskContext, name: &str, stored: &mut HashMap<String, Json>, value: Json) -> (Json, bool) {
    match ctx.step(name) {
        Checkpoint::Cached(cached) => (cached, false),
        Checkpoint::Fresh(checkpoint_name) => {
            match ctx.persist_checkpoint(&checkpoint_name, &value) {
                Request::SetTaskCheckpointState { name, value, .. } => stored.insert(name, value),
                other => panic!("unexpected request {:?}", other),
            };
            ctx.checkpoint_persisted(&checkpoint_name, &value, Ok(1)).unwrap();
            (value, true)
        },
    }
}

fn fresh_name(found: Checkpoint) -> String {
    match found {
        Checkpoint::Fresh(name) => name,
        Checkpoint::Cached(value) => panic!("found {}", value),
    }
}

#[test]
fn step_doubles_a_value() {
    let mut ctx = context(Vec::new());
    let mut stored: HashMap<String, Json> = HashMap::new();
    let (doubled, executed) = take_step(&mut ctx, "double", &mut stored, Json::from(21 * 2));
    assert_eq!(doubled, Json::from(42));
    assert!(executed);
    assert_eq!(stored.get("double"), Some(&Json::from(42)));
}

#[test]
fn checkpoints_are_asked_for() {
    let request = TaskContext::checkpoint_states_request("test", &claimed());
    assert_eq!(
        request.statement(),
        "SELECT checkpoint_name, state\n                 FROM absurd.get_task_checkpoint_states($1, $2, $3)"
    );
    match request {
        Request::GetTaskCheckpointStates { queue_name, task_id, run_id } => {
            assert_eq!(queue_name, "test");
            assert_eq!(task_id, Uuid::from_u128(7));
            assert_eq!(run_id, Uuid::from_u128(8));
        },
        other => panic!("unexpected request {:?}", other),
    }
}

#[test]
fn context_shows_the_task_id() {
    assert_eq!(context(Vec::new()).task_id, Uuid::from_u128(7));
}

#[test]
fn missing_headers_are_empty() {
    let ctx = context(Vec::new());
    assert!(ctx.headers().is_empty());
}

#[test]
fn headers_are_those_of_the_task() {
    let mut headers: HashMap<String, Json> = HashMap::new();
    headers.insert(String::from("trace"), Json::from("abc"));
    let mut task = claimed();
    task.headers = Some(headers);
    let ctx = TaskContext::new(String::from("test"), task, Vec::new(), 30);
    assert_eq!(ctx.headers().get("trace"), Some(&Json::from("abc")));
    assert_eq!(ctx.headers().get("other"), None);
    assert_eq!(ctx.headers().len(), 1);
}

#[test]
fn later_checkpoint_rows_count() {
    let mut ctx = context(vec![
        (String::from("a"), Json::from(1)),
        (String::from("b"), Json::from(2)),
        (String::from("a"), Json::from(3)),
    ]);
    match ctx.step("a") {
        Checkpoint::Cached(value) => assert_eq!(value, Json::from(3)),
        other => panic!("unexpected {:?}", other),
    }
    match ctx.step("b") {
        Checkpoint::Cached(value) => assert_eq!(value, Json::from(2)),
        other => panic!("unexpected {:?}", other),
    }
}

#[test]
fn repeated_steps_are_numbered() {
    let mut ctx = context(Vec::new());
    assert_eq!(fresh_name(ctx.step("fetch")), "fetch");
    assert_eq!(fresh_name(ctx.step("fetch")), "fetch#2");
    assert_eq!(fresh_name(ctx.step("other")), "other");
    assert_eq!(fresh_name(ctx.step("fetch")), "fetch#3");
    assert_eq!(ctx.step_count("fetch"), 3);
    assert_eq!(ctx.step_count("other"), 1);
    assert_eq!(ctx.step_count("none"), 0);
}

#[test]
fn cache_hits_count_too() {
    let mut ctx = context(vec![
        (String::from("fetch"), Json::from("one")),
        (String::from("fetch#2"), Json::from("two")),
    ]);
    match ctx.step("fetch") {
        Checkpoint::Cached(value) => assert_eq!(value, Json::from("one")),
        other => panic!("unexpected {:?}", other),
    }
    match ctx.step("fetch") {
        Checkpoint::Cached(value) => assert_eq!(value, Json::from("two")),
        other => panic!("unexpected {:?}", other),
    }
    assert_eq!(fresh_name(ctx.step("fetch")), "fetch#3");
}

#[test]
fn peeking_tells_the_next_name() {
    let mut ctx = context(Vec::new());
    for expected in ["s", "s#2", "s#3"] {
        assert_eq!(ctx.peek_checkpoint_name("s"), expected);
        assert_eq!(ctx.peek_checkpoint_name("s"), expected);
        assert_eq!(ctx.advance_checkpoint_name("s"), expected);
    }
}

#[test]
fn checkpoint_request_names_everything() {
    let ctx = context(Vec::new());
    let value: Json = serde_json::from_str("{\"k\":[1,null]}").unwrap();
    let request = ctx.persist_checkpoint("s#2", &value);
    assert_eq!(
        request.statement(),
        "SELECT absurd.set_task_checkpoint_state($1, $2, $3, $4, $5, $6)"
    );
    match request {
        Request::SetTaskCheckpointState { queue_name, task_id, name, value: sent, run_id, claim_timeout } => {
            assert_eq!(queue_name, "test");
            assert_eq!(task_id, Uuid::from_u128(7));
            assert_eq!(name, "s#2");
            assert_eq!(sent, value);
            assert_eq!(run_id, Uuid::from_u128(8));
            assert_eq!(claim_timeout, 30);
        },
        other => panic!("unexpected request {:?}", other),
    }
}

#[test]
fn checkpoint_that_failed_is_not_kept() {
    let mut ctx = context(Vec::new());
    match ctx.checkpoint_persisted("a", &Json::from(1), Err(some_db_error())) {
        Err(TaskError::Database(_)) => {},
        other => panic!("unexpected {:?}", other),
    }
    assert_eq!(fresh_name(ctx.step("a")), "a");
    let mut ctx = context(Vec::new());
    ctx.checkpoint_persisted("a", &Json::from(1), Ok(1)).unwrap();
    match ctx.step("a") {
        Checkpoint::Cached(value) => assert_eq!(value, Json::from(1)),
        other => panic!("unexpected {:?}", other),
    }
}

#[test]
fn a_run_that_starts_over_replays_its_steps() {
    let names = ["a", "b", "a", "a#2", "c", "b"];
    let mut stored: HashMap<String, Json> = HashMap::new();
    let mut first: Vec<Json> = Vec::new();
    let mut ctx = context(Vec::new());
    for (i, name) in names.iter().enumerate() {
        first.push(take_step(&mut ctx, name, &mut stored, Json::from(i)).0);
    }
    // the fourth step shares the checkpoint of the third
    assert_eq!(first[3], first[2]);
    let rows: Vec<(String, Json)> = stored.clone().into_iter().collect();
    let mut ctx = context(rows);
    for (i, name) in names.iter().enumerate() {
        let (value, executed) = take_step(&mut ctx, name, &mut stored, Json::from("again"));
        assert_eq!(value, first[i]);
        assert!(!executed);
    }
}

#[test]
fn events_are_emitted() {
    let ctx = context(Vec::new());
    let payload: Json = serde_json::from_str("{\"data\":\"test\"}").unwrap();
    let request = ctx.emit_event("test.event", Some(payload.clone()));
    assert_eq!(request.statement(), "SELECT absurd.emit_event($1, $2, $3)");
    match request {
        Request::EmitEvent { queue_name, event_name, payload: sent } => {
            assert_eq!(queue_name, "test");
            assert_eq!(event_name, "test.event");
            assert_eq!(sent, payload);
        },
        other => panic!("unexpected request {:?}", other),
    }
    match ctx.emit_event("test.event", None) {
        Request::EmitEvent { payload: sent, .. } => assert_eq!(sent, Json::Null),
        other => panic!("unexpected request {:?}", other),
    }
}

#[test]
fn heartbeat_extends_the_claim() {
    let ctx = context(Vec::new());
    let request = ctx.heartbeat(None);
    assert_eq!(request.statement(), "SELECT absurd.extend_claim($1, $2, $3)");
    match request {
        Request::ExtendClaim { queue_name, run_id, extend_by } => {
            assert_eq!(queue_name, "test");
            assert_eq!(run_id, Uuid::from_u128(8));
            assert_eq!(extend_by, 30);
        },
        other => panic!("unexpected request {:?}", other),
    }
    match ctx.heartbeat(Some(5)) {
        Request::ExtendClaim { extend_by, .. } => assert_eq!(extend_by, 5),
        other => panic!("unexpected request {:?}", other),
    }
}

#[test]
fn a_step_that_failed_does_not_shift_the_others() {
    let mut stored: HashMap<String, Json> = HashMap::new();
    let mut ctx = context(Vec::new());
    take_step(&mut ctx, "a", &mut stored, Json::from(1));
    // executed, but nothing recorded
    assert_eq!(fresh_name(ctx.step("a")), "a#2");
    take_step(&mut ctx, "a", &mut stored, Json::from(3));
    let rows: Vec<(String, Json)> = stored.clone().into_iter().collect();
    let mut ctx = context(rows);
    assert_eq!(take_step(&mut ctx, "a", &mut stored, Json::from(10)), (Json::from(1), false));
    assert_eq!(take_step(&mut ctx, "a", &mut stored, Json::from(20)), (Json::from(20), true));
    assert_eq!(take_step(&mut ctx, "a", &mut stored, Json::from(30)), (Json::from(3), false));
}

#[test]
fn parameters_stand_in_the_order_of_the_statement() {
    let task_id = Uuid::from_u128(7);
    let run_id = Uuid::from_u128(8);
    let text = |t: &str| Param::Text(String::from(t));
    let queue = || text("test");
    let wake_at = Timestamp { secs: 5, nanos: 6 };
    let ctx = context(Vec::new());
    let await_request = |timeout_secs: Option<i32>| Request::AwaitEvent {
        queue_name: String::from("test"),
        task_id,
        run_id,
        checkpoint_name: String::from("c"),
        event_name: String::from("e"),
        timeout_secs,
    };
    let cases: Vec<(Request, Vec<Param>)> = vec![
        (
            TaskContext::checkpoint_states_request("test", &claimed()),
            vec![queue(), Param::Id(task_id), Param::Id(run_id)],
        ),
        (
            ctx.persist_checkpoint("s", &Json::from(1)),
            vec![
                queue(),
                Param::Id(task_id),
                text("s"),
                Param::Value(Json::from(1)),
                Param::Id(run_id),
                Param::Int(30),
            ],
        ),
        (ctx.schedule_run(wake_at), vec![queue(), Param::Id(run_id), Param::Time(wake_at)]),
        (
            await_request(Some(4)),
            vec![
                queue(),
                Param::Id(task_id),
                Param::Id(run_id),
                text("c"),
                text("e"),
                Param::OptionalInt(Some(4)),
            ],
        ),
        (
            await_request(None),
            vec![
                queue(),
                Param::Id(task_id),
                Param::Id(run_id),
                text("c"),
                text("e"),
                Param::OptionalInt(None),
            ],
        ),
        (ctx.emit_event("e", None), vec![queue(), text("e"), Param::Value(Json::Null)]),
        (ctx.heartbeat(Some(9)), vec![queue(), Param::Id(run_id), Param::Int(9)]),
    ];
    for (request, expected) in cases {
        assert_eq!(format!("{:?}", request.params()), format!("{:?}", expected));
    }
}

use absurd::time::{MAX_SECS, MIN_SECS};
use absurd::{ClaimedTask, DbError, Json, Request, SleepStep, TaskContext, TaskError, Timestamp};
use chrono::Utc;
use uuid::Uuid;

fn context(checkpoints: Vec<(String, Json)>) -> TaskContext {
    let task = ClaimedTask {
        task_id: Uuid::from_u128(7),
        run_id: Uuid::from_u128(8),
        headers: None,
        wake_event: None,
        event_payload: None,
    };
    TaskContext::new(String::from("test"), task, checkpoints, 30)
}

fn at(secs: i64, nanos: u32) -> Timestamp {
    Timestamp { secs, nanos }
}

fn some_db_error() -> DbError {
    match "port=none".parse::<tokio_postgres::Config>() {
        Ok(_) => panic!("not a port"),
        Err(e) => e,
    }
}

fn now_secs() -> i64 {
    Utc::now().timestamp()
}

fn is_done(step: SleepStep) -> bool {
    matches!(step, SleepStep::Done)
}

fn assert_scheduled(step: SleepStep, expected: Timestamp) {
    match step {
        SleepStep::Schedule(request) => {
            assert_eq!(request.statement(), "SELECT absurd.schedule_run($1, $2, $3)");
            match request {
                Request::ScheduleRun { queue_name, run_id, wake_at } => {
                    assert_eq!(queue_name, "test");
                    assert_eq!(run_id, Uuid::from_u128(8));
                    assert_eq!(wake_at, expected);
                },
                other => panic!("unexpected request {:?}", other),
            }
        },
        other => panic!("unexpected {:?}", other),
    }
}

#[test]
fn new_sleep_is_recorded_as_a_time() {
    let mut ctx = context(Vec::new());
    match ctx.sleep_until("nap", at(1_700_000_000, 250_000_000)).unwrap() {
        SleepStep::Save { checkpoint_name, value, wake_at } => {
            assert_eq!(checkpoint_name, "nap");
            assert_eq!(value, Json::from("2023-11-14T22:13:20.250Z"));
            assert_eq!(wake_at, at(1_700_000_000, 250_000_000));
        },
        other => panic!("unexpected {:?}", other),
    }
    assert_eq!(ctx.step_count("nap"), 1);
}

#[test]
fn recorded_times_are_read_back() {
    let times = [
        at(0, 0),
        at(1_700_000_000, 123_456_789),
        at(-1, 999_999_999),
        at(59, 1_500_000_000),
        at(-1, 1_000_000_000),
        at(MIN_SECS, 0),
        at(MAX_SECS, 999_999_999),
        at(MAX_SECS, 1_999_999_999),
        at(-62_167_219_201, 5),
        at(253_402_300_800, 1_000),
    ];
    for wake_at in times {
        let mut ctx = context(Vec::new());
        let value = match ctx.sleep_until("nap", wake_at).unwrap() {
            SleepStep::Save { value, .. } => value,
            other => panic!("unexpected {:?}", other),
        };
        // A time that is long past is over at once; a time to come is scheduled if it is the
        // one asked for.
        let mut ctx = context(vec![(String::from("nap"), value.clone())]);
        let step = ctx.sleep_until("nap", wake_at).unwrap();
        if wake_at.secs < 1_750_000_000 {
            assert!(is_done(step));
        } else {
            assert_scheduled(step, wake_at);
        }
        let read = serde_json::from_value::<chrono::DateTime<Utc>>(value).unwrap();
        assert_eq!(at(read.timestamp(), read.timestamp_subsec_nanos()), wake_at);
    }
}

#[test]
fn saved_sleep_waits_for_its_time() {
    let mut ctx = context(Vec::new());
    let late = at(now_secs() + 3600, 0);
    let step = ctx.sleep_saved("nap", &Json::from("recorded"), late, Ok(1)).unwrap();
    assert_scheduled(step, late);
    match ctx.sleep_until("nap", late) {
        // what was recorded is no time
        Err(TaskError::Serialization(_)) => {},
        other => panic!("unexpected {:?}", other),
    }
}

#[test]
fn saved_sleep_of_the_past_is_over() {
    let mut ctx = context(Vec::new());
    let step = ctx.sleep_saved("nap", &Json::from("recorded"), at(5, 0), Ok(1)).unwrap();
    assert!(is_done(step));
}

#[test]
fn sleep_that_could_not_be_saved_fails() {
    let mut ctx = context(Vec::new());
    match ctx.sleep_saved("nap", &Json::from("recorded"), at(5, 0), Err(some_db_error())) {
        Err(TaskError::Database(_)) => {},
        other => panic!("unexpected {:?}", other),
    }
    match ctx.sleep_until("nap", at(5, 0)) {
        Ok(SleepStep::Save { .. }) => {},
        other => panic!("unexpected {:?}", other),
    }
}

#[test]
fn scheduled_sleep_suspends_the_task() {
    assert!(matches!(TaskContext::sleep_scheduled(Ok(1)), TaskError::Suspended));
    assert!(matches!(TaskContext::sleep_scheduled(Err(some_db_error())), TaskError::Database(_)));
}

#[test]
fn recorded_sleep_is_over_when_its_time_has_come() {
    let mut ctx = context(vec![(String::from("nap"), Json::from("2020-01-01T00:00:00Z"))]);
    let late = at(now_secs() + 3600, 0);
    assert!(is_done(ctx.sleep_until("nap", late).unwrap()));
    assert_eq!(ctx.step_count("nap"), 1);
}

#[test]
fn recorded_sleep_goes_on_until_the_time_asked_for() {
    let recorded = vec![(String::from("nap"), Json::from("2999-01-01T00:00:00Z"))];
    let mut ctx = context(recorded.clone());
    let late = at(now_secs() + 3600, 0);
    assert_scheduled(ctx.sleep_until("nap", late).unwrap(), late);
    let mut ctx = context(recorded);
    assert!(is_done(ctx.sleep_until("nap", at(5, 0)).unwrap()));
}

#[test]
fn record_that_is_no_time_is_an_error() {
    for value in [Json::Null, Json::from(5), Json::from("soon")] {
        let mut ctx = context(vec![(String::from("nap"), value)]);
        match ctx.sleep_until("nap", at(5, 0)) {
            Err(TaskError::Serialization(_)) => {},
            other => panic!("unexpected {:?}", other),
        }
        assert_eq!(ctx.step_count("nap"), 1);
    }
}

#[test]
fn sleep_goes_by_the_clock() {
    let ctx = context(Vec::new());
    assert_scheduled(ctx.check_sleep(at(10, 0), at(9, 999_999_999)), at(10, 0));
    assert!(is_done(ctx.check_sleep(at(10, 0), at(10, 0))));
    assert!(is_done(ctx.check_sleep(at(10, 0), at(11, 0))));
    assert!(is_done(ctx.resume_sleep(at(10, 0), at(20, 0), at(10, 0), at(10, 0))));
    assert_scheduled(ctx.resume_sleep(at(10, 0), at(20, 0), at(9, 0), at(9, 0)), at(20, 0));
    assert!(is_done(ctx.resume_sleep(at(10, 0), at(8, 0), at(9, 0), at(9, 0))));
    assert!(is_done(ctx.resume_sleep(at(10, 0), at(10, 0), at(9, 0), at(10, 0))));
}

#[test]
fn sleep_for_counts_from_now() {
    let mut ctx = context(Vec::new());
    let before = now_secs();
    let step = ctx.sleep_for("nap", 3600).unwrap().unwrap();
    let after = now_secs();
    match step {
        SleepStep::Save { checkpoint_name, wake_at, .. } => {
            assert_eq!(checkpoint_name, "nap");
            assert!(before + 3600 <= wake_at.secs);
            assert!(wake_at.secs <= after + 3600);
        },
        other => panic!("unexpected {:?}", other),
    }
}

#[test]
fn sleep_for_longer_than_time_lasts_does_nothing() {
    let mut ctx = context(Vec::new());
    let now = at(1_700_000_000, 0);
    for duration_secs in [MAX_SECS as u64, i64::MAX as u64, 1u64 << 63, u64::MAX] {
        assert!(ctx.sleep_for("nap", duration_secs).is_none());
        assert!(ctx.sleep_for_at("nap", duration_secs, now, now, now).is_none());
    }
    assert_eq!(ctx.step_count("nap"), 0);
}

#[test]
fn sleep_for_lasts_its_duration() {
    let mut ctx = context(Vec::new());
    let now = at(1_700_000_000, 250_000_000);
    match ctx.sleep_for_at("nap", 3600, now, now, now).unwrap().unwrap() {
        SleepStep::Save { checkpoint_name, value, wake_at } => {
            assert_eq!(checkpoint_name, "nap");
            assert_eq!(value, Json::from("2023-11-14T23:13:20.250Z"));
            assert_eq!(wake_at, at(1_700_003_600, 250_000_000));
            assert_scheduled(ctx.check_sleep(wake_at, now), wake_at);
            assert_scheduled(ctx.check_sleep(wake_at, at(1_700_003_600, 249_999_999)), wake_at);
            assert!(is_done(ctx.check_sleep(wake_at, wake_at)));
        },
        other => panic!("unexpected {:?}", other),
    }
    assert_eq!(ctx.step_count("nap"), 1);
    // A run that starts over counts from its own beginning, unless the recorded time has come.
    let recorded = vec![(String::from("nap"), Json::from("2023-11-14T23:13:20Z"))];
    let mut ctx = context(recorded.clone());
    let early = at(1_700_003_599, 0);
    let step = ctx.sleep_for_at("nap", 3600, early, early, early).unwrap().unwrap();
    assert_scheduled(step, at(1_700_007_199, 0));
    let mut ctx = context(recorded);
    let step = ctx.sleep_for_at("nap", 3600, early, at(1_700_003_600, 0), early).unwrap().unwrap();
    assert!(is_done(step));
}

#[test]
fn time_past_the_end_of_its_second_is_read_back_in_the_next() {
    let strange = at(30, 1_500_000_000);
    let mut ctx = context(Vec::new());
    let value = match ctx.sleep_until("nap", strange).unwrap() {
        SleepStep::Save { value, wake_at, .. } => {
            assert_eq!(wake_at, strange);
            value
        },
        other => panic!("unexpected {:?}", other),
    };
    assert_eq!(value, Json::from("1970-01-01T00:00:31.500Z"));
    let mut ctx = context(vec![(String::from("nap"), value.clone())]);
    let step = ctx.sleep_until_at("nap", strange, at(31, 499_999_999), at(30, 0)).unwrap();
    assert_scheduled(step, strange);
    let mut ctx = context(vec![(String::from("nap"), value)]);
    let step = ctx.sleep_until_at("nap", strange, at(31, 500_000_000), at(30, 0)).unwrap();
    assert!(is_done(step));
}

#[test]
fn recorded_sleep_goes_by_the_readings_given() {
    let begin = |wake_at: Timestamp, now: Timestamp, later: Timestamp| {
        let mut ctx = context(vec![(String::from("nap"), Json::from("1970-01-01T00:00:10Z"))]);
        ctx.sleep_until_at("nap", wake_at, now, later).unwrap()
    };
    assert!(is_done(begin(at(20, 0), at(10, 0), at(10, 0))));
    assert_scheduled(begin(at(20, 0), at(9, 0), at(9, 0)), at(20, 0));
    assert!(is_done(begin(at(20, 0), at(9, 0), at(20, 0))));
    let mut ctx = context(Vec::new());
    assert!(matches!(
        ctx.sleep_until_at("nap", at(20, 0), at(30, 0), at(30, 0)),
        Ok(SleepStep::Save { .. })
    ));
    let saved = ctx.sleep_saved_at("nap", &Json::Null, at(20, 0), Ok(1), at(19, 0)).unwrap();
    assert_scheduled(saved, at(20, 0));
    let saved = ctx.sleep_saved_at("nap", &Json::Null, at(20, 0), Ok(1), at(20, 0)).unwrap();
    assert!(is_done(saved));
}

use backend::agent::{check_health, generate_text, Action, Event, Generation};
use backend::api::{HttpPost, ProbeOutcome, ReplyOutcome};
use backend::config::Config;
use backend::database::{
    AIRequest, AIResponse, ConnectOutcome, Database, GenerationStats, InsertOutcome,
};
use backend::error::{GenerationError, HealthError, OrchestratorError, StoreError};
use backend::timing::{Instant, Timestamp};

const ID: [u8; 12] = [0x65, 0x9f, 0x1a, 0x2b, 0x3c, 0x4d, 0x5e, 0x6f, 0x70, 0x81, 0x92, 0xa3];

fn store() -> Database {
    let config = Config::new(
        Some("http://localhost:8000".to_string()),
        Some("mongodb://localhost:27017".to_string()),
        Some("ai".to_string()),
        Some("requests".to_string()),
    )
    .unwrap();
    Database::new(&config, ConnectOutcome::Connected).unwrap()
}

fn begun(prompt: &str, max_length: u32, at: Instant) -> Generation {
    let start = Generation::new(&store(), "http://localhost:8000", prompt, max_length);
    let (sent, _) = generate_text(start, Event::Begin { at });
    sent
}

fn created() -> Timestamp {
    Timestamp::new(Instant::new(1_715_933_730, 250_000_000), 7_200).unwrap()
}

fn answer(body: &str, at: Instant) -> Event {
    Event::Replied { reply: ReplyOutcome::Body(body.as_bytes().to_vec()), at, created: created() }
}

fn record(text: &str, nanos: u64, id: Option<[u8; 12]>) -> AIRequest {
    AIRequest {
        _id: id,
        timestamp: "2024-05-17T10:15:30.250+02:00".to_string(),
        prompt: "Hello AI!".to_string(),
        max_length: 100,
        response: AIResponse {
            prompt: "Hello AI!".to_string(),
            response: text.to_string(),
            stats: GenerationStats { generation_time_nanos: nanos },
        },
    }
}

#[test]
fn a_new_run_has_sent_nothing() {
    let start = Generation::new(&store(), "http://localhost:8000", "Hello AI!", 100);
    assert_eq!(
        start,
        Generation::Start {
            store: store(),
            base_url: "http://localhost:8000".to_string(),
            prompt: "Hello AI!".to_string(),
            max_length: 100,
        }
    );
    assert!(!start.is_finished());
}

#[test]
fn begin_asks_for_the_request() {
    let start = Generation::new(&store(), "http://localhost:8000", "Hello AI!", 100);
    let (sent, action) = generate_text(start, Event::Begin { at: Instant::new(1_700_000_000, 5) });
    assert_eq!(
        sent,
        Generation::Sent {
            store: store(),
            prompt: "Hello AI!".to_string(),
            max_length: 100,
            started: Instant::new(1_700_000_000, 5),
        }
    );
    assert_eq!(
        action,
        Action::Post(HttpPost {
            url: "http://localhost:8000/generate".to_string(),
            content_type: "application/json".to_string(),
            body: "{\"prompt\":\"Hello AI!\",\"max_length\":100}".to_string(),
        })
    );
}

#[test]
fn hello_scenario_is_generated_timed_and_recorded() {
    let sent = begun("Hello AI!", 100, Instant::new(1_700_000_000, 900_000_000));
    let (made, action) = generate_text(
        sent,
        answer("{\"response\": \"Hi there!\"}", Instant::new(1_700_000_001, 150_000_000)),
    );
    let unsaved = record("Hi there!", 250_000_000, None);
    assert_eq!(
        action,
        Action::Append {
            db_name: "ai".to_string(),
            collection_name: "requests".to_string(),
            record: unsaved.clone(),
        }
    );
    assert_eq!(made, Generation::Generated { store: store(), record: unsaved });

    let (done, action) =
        generate_text(made, Event::Stored { outcome: InsertOutcome::Inserted(ID) });
    assert_eq!(action, Action::Return(Ok("Hi there!".to_string())));
    assert!(done.is_finished());
    match done {
        Generation::Done { record } => {
            assert_eq!(record.timestamp, "2024-05-17T10:15:30.250+02:00");
            assert_eq!(record.prompt, "Hello AI!");
            assert_eq!(record.max_length, 100);
            assert_eq!(record.response.prompt, "Hello AI!");
            assert_eq!(record.response.response, "Hi there!");
            let seconds = record.response.stats.generation_time_nanos as f64 / 1e9;
            assert!((seconds - 0.25).abs() < 1e-9);
            let id = record._id.expect("a stored record has an identifier");
            assert!(!id.is_empty());
            assert_eq!(id, ID);
        }
        other => panic!("the run is not done: {:?}", other),
    }
}

#[test]
fn empty_document_gives_the_stand_in_and_records_it() {
    let sent = begun("Hello AI!", 100, Instant::new(10, 0));
    let (made, action) = generate_text(sent, answer("{}", Instant::new(10, 1_000)));
    assert_eq!(
        action,
        Action::Append {
            db_name: "ai".to_string(),
            collection_name: "requests".to_string(),
            record: record("No response", 1_000, None),
        }
    );
    let (done, action) =
        generate_text(made, Event::Stored { outcome: InsertOutcome::Inserted(ID) });
    assert_eq!(action, Action::Return(Ok("No response".to_string())));
    assert_eq!(done, Generation::Done { record: record("No response", 1_000, Some(ID)) });
}

#[test]
fn response_is_returned_word_for_word() {
    let sent = begun("Hello AI!", 100, Instant::new(10, 0));
    let body = "{\"id\": 7, \"response\": \"  Line one\\nLine \\\"two\\\" \\u00e9\\t \", \"x\": []}";
    let (made, _) = generate_text(sent, answer(body, Instant::new(11, 0)));
    let (_, action) = generate_text(made, Event::Stored { outcome: InsertOutcome::Inserted(ID) });
    assert_eq!(action, Action::Return(Ok("  Line one\nLine \"two\" \u{e9}\t ".to_string())));
}

#[test]
fn response_that_is_no_text_gives_the_stand_in() {
    for body in ["{\"response\": 42}", "{\"response\": null}", "{\"response\": [\"a\"]}",
        "{\"response\": {\"text\": \"a\"}}", "{\"Response\": \"a\"}", "[\"response\"]", "\"response\"",
        "null", "17"]
    {
        let sent = begun("Hello AI!", 100, Instant::new(10, 0));
        let (made, _) = generate_text(sent, answer(body, Instant::new(11, 0)));
        let (_, action) =
            generate_text(made, Event::Stored { outcome: InsertOutcome::Inserted(ID) });
        assert_eq!(action, Action::Return(Ok("No response".to_string())), "body {}", body);
    }
}

#[test]
fn empty_response_text_is_a_text() {
    let sent = begun("Hello AI!", 100, Instant::new(10, 0));
    let (made, _) = generate_text(sent, answer("{\"response\": \"\"}", Instant::new(11, 0)));
    let (_, action) = generate_text(made, Event::Stored { outcome: InsertOutcome::Inserted(ID) });
    assert_eq!(action, Action::Return(Ok(String::new())));
}

#[test]
fn transport_failure_hands_nothing_to_the_store() {
    let sent = begun("Hello AI!", 100, Instant::new(10, 0));
    let (failed, action) = generate_text(
        sent,
        Event::Replied {
            reply: ReplyOutcome::SendFailed("connection refused".to_string()),
            at: Instant::new(11, 0),
            created: created(),
        },
    );
    let report = Action::Return(Err(OrchestratorError::Generation(GenerationError::Transport(
        "connection refused".to_string(),
    ))));
    assert_eq!(action, report);
    assert_eq!(
        failed,
        Generation::GenerationFailed(GenerationError::Transport("connection refused".to_string()))
    );
    assert!(failed.is_finished());

    let mut state = failed;
    let mut appends: u32 = 0;
    let later = vec![
        Event::Stored { outcome: InsertOutcome::Inserted(ID) },
        answer("{\"response\": \"Hi there!\"}", Instant::new(12, 0)),
        Event::Begin { at: Instant::new(13, 0) },
        Event::Stored { outcome: InsertOutcome::Rejected("late".to_string()) },
    ];
    for event in later {
        let (next, action) = generate_text(state, event);
        if matches!(action, Action::Append { .. }) {
            appends += 1;
        }
        assert_eq!(action, report);
        state = next;
    }
    assert_eq!(appends, 0);
    assert_eq!(
        state,
        Generation::GenerationFailed(GenerationError::Transport("connection refused".to_string()))
    );
}

#[test]
fn body_that_is_no_document_is_a_parse_failure() {
    let sent = begun("Hello AI!", 100, Instant::new(10, 0));
    let (failed, action) = generate_text(sent, answer("<html>busy</html>", Instant::new(11, 0)));
    let cause = "expected value at line 1 column 1".to_string();
    assert_eq!(
        action,
        Action::Return(Err(OrchestratorError::Generation(GenerationError::Parse(cause.clone()))))
    );
    assert_eq!(failed, Generation::GenerationFailed(GenerationError::Parse(cause)));
}

#[test]
fn unreadable_body_is_a_parse_failure() {
    let sent = begun("Hello AI!", 100, Instant::new(10, 0));
    let (failed, action) = generate_text(
        sent,
        Event::Replied {
            reply: ReplyOutcome::BodyUnreadable("connection reset".to_string()),
            at: Instant::new(11, 0),
            created: created(),
        },
    );
    assert_eq!(
        action,
        Action::Return(Err(OrchestratorError::Generation(GenerationError::Parse(
            "connection reset".to_string()
        ))))
    );
    assert!(failed.is_finished());
}

#[test]
fn store_outage_reports_persist_and_gives_no_identifier() {
    let sent = begun("Hello AI!", 100, Instant::new(10, 0));
    let (made, _) =
        generate_text(sent, answer("{\"response\": \"Hi there!\"}", Instant::new(11, 0)));
    let (failed, action) = generate_text(
        made,
        Event::Stored { outcome: InsertOutcome::Rejected("no primary".to_string()) },
    );
    let report = Action::Return(Err(OrchestratorError::Persist(StoreError {
        cause: "no primary".to_string(),
    })));
    assert_eq!(action, report);
    assert_eq!(failed, Generation::PersistFailed(StoreError { cause: "no primary".to_string() }));
    assert!(failed.is_finished());

    let (still, again) =
        generate_text(failed, Event::Stored { outcome: InsertOutcome::Inserted(ID) });
    assert_eq!(again, report);
    assert_eq!(still, Generation::PersistFailed(StoreError { cause: "no primary".to_string() }));
}

#[test]
fn generation_time_is_untouched_by_a_slow_store() {
    let mut times = Vec::new();
    for outcome in [InsertOutcome::Inserted(ID), InsertOutcome::Inserted([1; 12])] {
        let sent = begun("Hello AI!", 100, Instant::new(50, 0));
        let (made, action) =
            generate_text(sent, answer("{\"response\": \"Hi\"}", Instant::new(50, 250_000_000)));
        match action {
            Action::Append { record, .. } => {
                assert_eq!(record.response.stats.generation_time_nanos, 250_000_000)
            }
            other => panic!("no record was handed over: {:?}", other),
        }
        match generate_text(made, Event::Stored { outcome }).0 {
            Generation::Done { record } => times.push(record.response.stats.generation_time_nanos),
            other => panic!("the run is not done: {:?}", other),
        }
    }
    assert_eq!(times, vec![250_000_000, 250_000_000]);
}

#[test]
fn clock_set_back_counts_as_no_time() {
    let sent = begun("Hello AI!", 100, Instant::new(50, 10));
    let (_, action) = generate_text(sent, answer("{\"response\": \"Hi\"}", Instant::new(49, 999)));
    match action {
        Action::Append { record, .. } => {
            assert_eq!(record.response.stats.generation_time_nanos, 0)
        }
        other => panic!("no record was handed over: {:?}", other),
    }
}

#[test]
fn events_that_are_not_awaited_change_nothing() {
    let start = Generation::new(&store(), "http://localhost:8000", "Hello AI!", 100);
    let (state, action) =
        generate_text(start, Event::Stored { outcome: InsertOutcome::Inserted(ID) });
    assert_eq!(action, Action::Wait);
    assert_eq!(state, Generation::new(&store(), "http://localhost:8000", "Hello AI!", 100));
    let (state, action) =
        generate_text(state, answer("{\"response\": \"Hi\"}", Instant::new(11, 0)));
    assert_eq!(action, Action::Wait);

    let (sent, _) = generate_text(state, Event::Begin { at: Instant::new(10, 0) });
    let (sent, action) = generate_text(sent, Event::Begin { at: Instant::new(99, 0) });
    assert_eq!(action, Action::Wait);
    assert_eq!(sent, begun("Hello AI!", 100, Instant::new(10, 0)));
    let (sent, action) =
        generate_text(sent, Event::Stored { outcome: InsertOutcome::Inserted(ID) });
    assert_eq!(action, Action::Wait);

    let (made, _) = generate_text(sent, answer("{\"response\": \"Hi\"}", Instant::new(11, 0)));
    let (made, action) = generate_text(made, Event::Begin { at: Instant::new(12, 0) });
    assert_eq!(action, Action::Wait);
    let (made, action) =
        generate_text(made, answer("{\"response\": \"Other\"}", Instant::new(13, 0)));
    assert_eq!(action, Action::Wait);
    assert_eq!(
        made,
        Generation::Generated { store: store(), record: record("Hi", 1_000_000_000, None) }
    );
}

#[test]
fn a_finished_run_repeats_its_result() {
    let sent = begun("Hello AI!", 100, Instant::new(10, 0));
    let (made, _) = generate_text(sent, answer("{\"response\": \"Hi\"}", Instant::new(11, 0)));
    let (done, _) = generate_text(made, Event::Stored { outcome: InsertOutcome::Inserted(ID) });
    let (done, action) = generate_text(done, Event::Begin { at: Instant::new(12, 0) });
    assert_eq!(action, Action::Return(Ok("Hi".to_string())));
    let (done, action) =
        generate_text(done, Event::Stored { outcome: InsertOutcome::Rejected("x".to_string()) });
    assert_eq!(action, Action::Return(Ok("Hi".to_string())));
    assert_eq!(done, Generation::Done { record: record("Hi", 1_000_000_000, Some(ID)) });
}

#[test]
fn a_run_appends_at_most_once() {
    let events = vec![
        Event::Begin { at: Instant::new(10, 0) },
        Event::Begin { at: Instant::new(10, 5) },
        answer("{\"response\": \"Hi\"}", Instant::new(11, 0)),
        answer("{\"response\": \"Hi again\"}", Instant::new(12, 0)),
        Event::Stored { outcome: InsertOutcome::Inserted(ID) },
        answer("{\"response\": \"Hi once more\"}", Instant::new(13, 0)),
    ];
    let mut state = Generation::new(&store(), "http://localhost:8000", "Hello AI!", 100);
    let mut posts: u32 = 0;
    let mut appends: u32 = 0;
    for event in events {
        let (next, action) = generate_text(state, event);
        match action {
            Action::Post(_) => posts += 1,
            Action::Append { .. } => appends += 1,
            _ => {}
        }
        state = next;
    }
    assert_eq!(posts, 1);
    assert_eq!(appends, 1);
}

#[test]
fn unhealthy_status_fails_the_probe() {
    assert_eq!(check_health(ProbeOutcome::Status(503)), Err(HealthError::Status(503)));
    assert_eq!(check_health(ProbeOutcome::Status(404)), Err(HealthError::Status(404)));
    assert_eq!(check_health(ProbeOutcome::Status(200)), Ok(()));
}

#[test]
fn a_run_may_begin_after_a_failed_probe() {
    assert!(check_health(ProbeOutcome::Unreachable("down".to_string())).is_err());
    let start = Generation::new(&store(), "http://localhost:8000", "Hello AI!", 100);
    let (_, action) = generate_text(start, Event::Begin { at: Instant::new(10, 0) });
    assert!(matches!(action, Action::Post(_)));
}

use log_agent::config::{GlobalConfig, SendType};
use log_agent::event_bucket::{aggregate, AggregatorAction, AggregatorInput, EventBucket};
use log_agent::log_event::{LogEvent, Timestamp};
use log_agent::sender::payload::{Logs, Payload, Source};

fn global(max_batch_size: u8) -> GlobalConfig {
    GlobalConfig {
        agent_name: "agent-7".to_string(),
        end_point: "http://localhost:8080/log".to_string(),
        send_type: SendType::HTTP,
        max_send_task: 5,
        retry_count: 3,
        retry_delay_ms: 100,
        channel_bound: 1024,
        interval_secs: 1,
        max_batch_size,
    }
}

fn at(secs: i64) -> Timestamp {
    Timestamp { secs, nanos: 0 }
}

fn event(name: &str, log: &str, secs: i64) -> LogEvent {
    LogEvent::at(name.to_string(), log.to_string(), at(secs))
}

fn logs_of<'a>(payload: &'a Payload, name: &str) -> Vec<&'a str> {
    let groups: Vec<&Source> =
        payload.sources.iter().filter(|source| source.source_name == name).collect();
    assert_eq!(groups.len(), 1, "source {} must occur once", name);
    groups[0].logs.iter().map(|logs| logs.data.as_str()).collect()
}

#[test]
fn new_bucket_is_empty() {
    let bucket = EventBucket::new(&global(3));
    assert!(bucket.is_empty());
}

#[test]
fn receive_reports_the_size_trigger() {
    let mut bucket = EventBucket::new(&global(3));
    assert_eq!(bucket.receive(event("s1", "A", 1)), None);
    assert!(!bucket.is_empty());
    assert_eq!(bucket.receive(event("s2", "B", 2)), None);
    assert_eq!(bucket.receive(event("s1", "C", 3)), Some(()));
}

#[test]
fn batch_size_of_zero_flushes_on_every_line() {
    let mut bucket = EventBucket::new(&global(0));
    assert_eq!(bucket.receive(event("s1", "A", 1)), Some(()));
    let payload = bucket.drain_to_payload();
    assert_eq!(logs_of(&payload, "s1"), vec!["A"]);
    assert_eq!(bucket.receive(event("s1", "B", 2)), Some(()));
}

#[test]
fn drain_groups_by_source_and_keeps_the_order() {
    let mut bucket = EventBucket::new(&global(100));
    bucket.receive(event("s1", "A", 1));
    bucket.receive(event("s2", "B", 2));
    bucket.receive(event("s1", "C", 3));
    bucket.receive(event("s3", "D", 4));
    bucket.receive(event("s2", "E", 5));
    let payload = bucket.drain_to_payload();
    assert_eq!(payload.agent_name, "agent-7");
    assert_eq!(payload.sources.len(), 3);
    assert_eq!(logs_of(&payload, "s1"), vec!["A", "C"]);
    assert_eq!(logs_of(&payload, "s2"), vec!["B", "E"]);
    assert_eq!(logs_of(&payload, "s3"), vec!["D"]);
    assert!(bucket.is_empty());
}

#[test]
fn drain_keeps_text_and_time_of_each_line() {
    let mut bucket = EventBucket::new(&global(100));
    bucket.receive(event("s1", "first", 11));
    bucket.receive(event("s1", "second", 12));
    let payload = bucket.drain_to_payload();
    assert_eq!(
        payload,
        Payload {
            agent_name: "agent-7".to_string(),
            sources: vec![Source {
                source_name: "s1".to_string(),
                logs: vec![
                    Logs { data: "first".to_string(), timestamp: at(11) },
                    Logs { data: "second".to_string(), timestamp: at(12) },
                ],
            }],
        }
    );
}

#[test]
fn drain_of_an_empty_bucket_gives_an_empty_payload() {
    let mut bucket = EventBucket::new(&global(100));
    let payload = bucket.drain_to_payload();
    assert_eq!(payload.agent_name, "agent-7");
    assert!(payload.sources.is_empty());
    assert!(bucket.is_empty());
}

#[test]
fn bucket_starts_afresh_after_a_drain() {
    let mut bucket = EventBucket::new(&global(2));
    assert_eq!(bucket.receive(event("s1", "A", 1)), None);
    assert_eq!(bucket.receive(event("s1", "B", 2)), Some(()));
    bucket.drain_to_payload();
    assert_eq!(bucket.receive(event("s1", "C", 3)), None);
    assert_eq!(bucket.receive(event("s2", "D", 4)), Some(()));
    let payload = bucket.drain_to_payload();
    assert_eq!(logs_of(&payload, "s1"), vec!["C"]);
    assert_eq!(logs_of(&payload, "s2"), vec!["D"]);
}

#[test]
fn size_trigger_flushes_both_sources_in_one_payload() {
    let mut bucket = EventBucket::new(&global(3));
    assert_eq!(
        aggregate(&mut bucket, AggregatorInput::Event(event("s1", "A", 1))),
        AggregatorAction::Wait
    );
    assert_eq!(
        aggregate(&mut bucket, AggregatorInput::Event(event("s2", "B", 2))),
        AggregatorAction::Wait
    );
    match aggregate(&mut bucket, AggregatorInput::Event(event("s1", "C", 3))) {
        AggregatorAction::Send(payload) => {
            assert_eq!(payload.sources.len(), 2);
            assert_eq!(logs_of(&payload, "s1"), vec!["A", "C"]);
            assert_eq!(logs_of(&payload, "s2"), vec!["B"]);
        }
        other => panic!("unexpected action: {:?}", other),
    }
    assert!(bucket.is_empty());
}

#[test]
fn tick_flushes_what_is_buffered() {
    let mut bucket = EventBucket::new(&global(100));
    assert_eq!(aggregate(&mut bucket, AggregatorInput::Tick), AggregatorAction::Wait);
    aggregate(&mut bucket, AggregatorInput::Event(event("s1", "one", 1)));
    aggregate(&mut bucket, AggregatorInput::Event(event("s1", "two", 2)));
    match aggregate(&mut bucket, AggregatorInput::Tick) {
        AggregatorAction::Send(payload) => {
            assert_eq!(payload.sources.len(), 1);
            assert_eq!(logs_of(&payload, "s1"), vec!["one", "two"]);
        }
        other => panic!("unexpected action: {:?}", other),
    }
    assert_eq!(aggregate(&mut bucket, AggregatorInput::Tick), AggregatorAction::Wait);
}

#[test]
fn end_of_input_flushes_a_last_time() {
    let mut bucket = EventBucket::new(&global(100));
    aggregate(&mut bucket, AggregatorInput::Event(event("s1", "last", 1)));
    match aggregate(&mut bucket, AggregatorInput::Closed) {
        AggregatorAction::SendAndStop(payload) => {
            assert_eq!(logs_of(&payload, "s1"), vec!["last"]);
        }
        other => panic!("unexpected action: {:?}", other),
    }
    assert!(bucket.is_empty());
}

#[test]
fn end_of_input_with_nothing_buffered_stops() {
    let mut bucket = EventBucket::new(&global(100));
    assert_eq!(aggregate(&mut bucket, AggregatorInput::Closed), AggregatorAction::Stop);
}

#[test]
fn every_line_leaves_once_and_in_order() {
    let mut bucket = EventBucket::new(&global(4));
    let mut left: Vec<(String, String)> = Vec::new();
    let mut arrived: Vec<(String, String)> = Vec::new();
    let mut inputs: Vec<AggregatorInput> = Vec::new();
    for i in 0..23 {
        let name = format!("s{}", i % 3);
        let log = format!("line {}", i);
        arrived.push((name.clone(), log.clone()));
        inputs.push(AggregatorInput::Event(event(&name, &log, i)));
        if i % 5 == 4 {
            inputs.push(AggregatorInput::Tick);
        }
    }
    inputs.push(AggregatorInput::Closed);
    for input in inputs {
        match aggregate(&mut bucket, input) {
            AggregatorAction::Send(payload) | AggregatorAction::SendAndStop(payload) => {
                for source in &payload.sources {
                    for logs in &source.logs {
                        left.push((source.source_name.clone(), logs.data.clone()));
                    }
                }
            }
            AggregatorAction::Wait | AggregatorAction::Stop => {}
        }
    }
    assert!(bucket.is_empty());
    assert_eq!(left.len(), arrived.len());
    for name in ["s0", "s1", "s2"] {
        let sent: Vec<&String> = left.iter().filter(|l| l.0 == name).map(|l| &l.1).collect();
        let came: Vec<&String> = arrived.iter().filter(|l| l.0 == name).map(|l| &l.1).collect();
        assert_eq!(sent, came);
    }
}

#[test]
fn from_event_keeps_text_and_time() {
    let logs = Logs::from_event(event("s1", "hello", 42));
    assert_eq!(logs, Logs { data: "hello".to_string(), timestamp: at(42) });
}

#[test]
fn constructors_keep_their_arguments() {
    let logs = vec![Logs { data: "x".to_string(), timestamp: at(1) }];
    let source = Source::new("s1".to_string(), logs.clone());
    assert_eq!(source.source_name, "s1");
    assert_eq!(source.logs, logs);
    let payload = Payload::new("agent".to_string(), vec![source.clone()]);
    assert_eq!(payload.agent_name, "agent");
    assert_eq!(payload.sources, vec![source]);
}

#[test]
fn new_event_is_stamped_with_the_clock() {
    let before = std::time::SystemTime::now()
        .duration_since(std::time::UNIX_EPOCH)
        .expect("clock after 1970")
        .as_secs() as i64;
    let event = LogEvent::new("app1".to_string(), "hello".to_string());
    let after = std::time::SystemTime::now()
        .duration_since(std::time::UNIX_EPOCH)
        .expect("clock after 1970")
        .as_secs() as i64;
    assert_eq!(event.name, "app1");
    assert_eq!(event.log, "hello");
    assert!(before <= event.timestamp.secs && event.timestamp.secs <= after);
    assert!(event.timestamp.nanos < 1_000_000_000);
}

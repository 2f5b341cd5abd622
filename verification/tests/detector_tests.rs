use log_agent::config::SourceConfig;
use log_agent::detector::detect_event::strip_line_end;
use log_agent::detector::{DetectAction, DetectError, DetectEvent, Detector, ReadOutcome};
use log_agent::log_event::Timestamp;
use std::io;
use std::io::ErrorKind;

fn source(name: &str, log_path: &str, delay_ms: u64) -> SourceConfig {
    SourceConfig { name: name.to_string(), log_path: log_path.to_string(), delay_ms }
}

fn line(text: &str) -> Result<ReadOutcome, DetectError> {
    Ok(ReadOutcome::Line(text.to_string()))
}

fn end(file_len: u64) -> Result<ReadOutcome, DetectError> {
    Ok(ReadOutcome::End { file_len })
}

const NOON: Timestamp = Timestamp { secs: 1_700_000_000, nanos: 250 };

#[test]
fn strip_line_end_drops_trailing_cr_and_lf() {
    assert_eq!(strip_line_end("hello\n"), "hello");
    assert_eq!(strip_line_end("hello\r\n"), "hello");
    assert_eq!(strip_line_end("hello\n\r\n\r"), "hello");
    assert_eq!(strip_line_end("hello"), "hello");
    assert_eq!(strip_line_end("\n"), "");
    assert_eq!(strip_line_end("\r\n"), "");
    assert_eq!(strip_line_end(""), "");
}

#[test]
fn strip_line_end_keeps_what_is_inside_the_line() {
    assert_eq!(strip_line_end("a\rb\nc\n"), "a\rb\nc");
    assert_eq!(strip_line_end("  padded \t\n"), "  padded \t");
    assert_eq!(strip_line_end("\nleading"), "\nleading");
}

#[test]
fn strip_line_end_counts_characters_not_bytes() {
    assert_eq!(strip_line_end("héllo wörld ✓\r\n"), "héllo wörld ✓");
    assert_eq!(strip_line_end("日本語\n"), "日本語");
}

#[test]
fn build_remembers_source_and_length() {
    let detector = Detector::build(source("app1", "a.log", 500), 1000);
    assert_eq!(detector.source().name, "app1");
    assert_eq!(detector.source().log_path, "a.log");
    assert_eq!(detector.source().delay_ms, 500);
    assert_eq!(detector.current_len(), 1000);
    assert!(!detector.is_rotating());
}

#[test]
fn appended_line_is_sent_without_its_line_end() {
    let mut detector = Detector::build(source("app1", "a.log", 500), 0);
    match detector.detect_at(line("hello\n"), NOON) {
        DetectAction::Send(event) => {
            assert_eq!(event.name, "app1");
            assert_eq!(event.log, "hello");
            assert_eq!(event.timestamp, NOON);
        }
        other => panic!("unexpected action: {:?}", other),
    }
    assert_eq!(detector.current_len(), 0);
    assert!(!detector.is_rotating());
}

#[test]
fn detect_stamps_the_event_itself() {
    let mut detector = Detector::build(source("app1", "a.log", 500), 0);
    match detector.detect(line("hello\r\n")) {
        DetectAction::Send(event) => {
            assert_eq!(event.name, "app1");
            assert_eq!(event.log, "hello");
            assert!(event.timestamp.secs > 1_600_000_000);
            assert!(event.timestamp.nanos < 1_000_000_000);
        }
        other => panic!("unexpected action: {:?}", other),
    }
}

#[test]
fn empty_line_is_not_sent() {
    let mut detector = Detector::build(source("app1", "a.log", 500), 0);
    assert!(matches!(detector.detect_at(line("\n"), NOON), DetectAction::ReadOn));
    assert!(matches!(detector.detect_at(line("\r\n"), NOON), DetectAction::ReadOn));
    assert!(matches!(detector.detect(line("\n\n")), DetectAction::ReadOn));
}

#[test]
fn end_of_file_pauses_and_remembers_the_length() {
    let mut detector = Detector::build(source("app1", "a.log", 250), 10);
    assert!(matches!(detector.detect_at(end(16), NOON), DetectAction::Sleep(250)));
    assert_eq!(detector.current_len(), 16);
    assert!(matches!(detector.detect_at(end(16), NOON), DetectAction::Sleep(250)));
    assert_eq!(detector.current_len(), 16);
    assert!(!detector.is_rotating());
}

#[test]
fn shrunken_file_is_reopened_before_anything_is_sent() {
    let mut detector = Detector::build(source("app2", "b.log", 500), 1000);
    assert!(matches!(detector.detect_at(end(10), NOON), DetectAction::Reopen));
    assert!(detector.is_rotating());
    assert_eq!(detector.current_len(), 1000);

    // whatever the old handle still gives is held back
    assert!(matches!(detector.detect_at(line("line1\n"), NOON), DetectAction::Reopen));
    assert!(matches!(detector.detect_at(end(2000), NOON), DetectAction::Reopen));
    assert!(detector.is_rotating());
    assert_eq!(detector.current_len(), 1000);

    // the new file holds "line1\nline2\n" and was opened at its end
    assert!(matches!(detector.handle_rotate(Ok(12)), Ok(())));
    assert!(!detector.is_rotating());
    assert_eq!(detector.current_len(), 12);

    match detector.detect_at(line("fresh\n"), NOON) {
        DetectAction::Send(event) => {
            assert_eq!(event.name, "app2");
            assert_eq!(event.log, "fresh");
        }
        other => panic!("unexpected action: {:?}", other),
    }
    assert!(matches!(detector.detect_at(end(18), NOON), DetectAction::Sleep(500)));
    assert_eq!(detector.current_len(), 18);
}

#[test]
fn failed_reopening_is_handed_back() {
    let mut detector = Detector::build(source("app2", "b.log", 500), 1000);
    assert!(matches!(detector.detect_at(end(10), NOON), DetectAction::Reopen));
    let error = DetectError::from_io_error(io::Error::new(ErrorKind::NotFound, "gone"));
    assert!(matches!(detector.handle_rotate(Err(error)), Err(DetectError::UnRecoverable(_))));
    assert!(detector.is_rotating());
    assert_eq!(detector.current_len(), 1000);
}

#[test]
fn recoverable_error_pauses() {
    let mut detector = Detector::build(source("app1", "a.log", 125), 7);
    let error = DetectError::from_io_error(io::Error::new(ErrorKind::Interrupted, "signal"));
    assert!(matches!(detector.detect_at(Err(error), NOON), DetectAction::Sleep(125)));
    let error = DetectError::from_io_error(io::Error::new(ErrorKind::WouldBlock, "busy"));
    assert!(matches!(detector.detect(Err(error)), DetectAction::Sleep(125)));
    assert_eq!(detector.current_len(), 7);
}

#[test]
fn unrecoverable_error_stops() {
    let mut detector = Detector::build(source("app1", "a.log", 125), 7);
    let error = DetectError::from_io_error(io::Error::new(ErrorKind::PermissionDenied, "no"));
    match detector.detect_at(Err(error), NOON) {
        DetectAction::Stop(DetectError::UnRecoverable(inner)) => {
            assert_eq!(inner.kind(), ErrorKind::PermissionDenied)
        }
        other => panic!("unexpected action: {:?}", other),
    }
}

#[test]
fn closed_queue_stops() {
    let mut detector = Detector::build(source("app1", "a.log", 125), 7);
    assert!(matches!(
        detector.detect_at(Err(DetectError::ChannelClosed), NOON),
        DetectAction::Stop(DetectError::ChannelClosed)
    ));
    assert!(matches!(
        detector.detect(Err(DetectError::ChannelClosed)),
        DetectAction::Stop(DetectError::ChannelClosed)
    ));
}

#[test]
fn next_event_tells_line_end_and_rotation_apart() {
    let mut detector = Detector::build(source("app1", "a.log", 500), 100);
    assert_eq!(
        detector.next_event(ReadOutcome::Line("one\r\n".to_string())),
        DetectEvent::NewLine("one".to_string())
    );
    assert_eq!(
        detector.next_event(ReadOutcome::Line("\n".to_string())),
        DetectEvent::NewLine(String::new())
    );
    assert_eq!(detector.next_event(ReadOutcome::End { file_len: 100 }), DetectEvent::EndOfFile);
    assert_eq!(detector.next_event(ReadOutcome::End { file_len: 140 }), DetectEvent::EndOfFile);
    assert_eq!(detector.current_len(), 140);
    assert_eq!(detector.next_event(ReadOutcome::End { file_len: 139 }), DetectEvent::Rotated);
    assert_eq!(detector.current_len(), 140);
    assert!(detector.is_rotating());
}

#[test]
fn handle_newline_drops_the_empty_line() {
    let detector = Detector::build(source("app1", "a.log", 500), 0);
    assert!(detector.handle_newline(String::new()).is_none());
    assert!(detector.handle_newline_at(String::new(), NOON).is_none());
    let event = detector.handle_newline_at("x".to_string(), NOON).expect("an event");
    assert_eq!(event.name, "app1");
    assert_eq!(event.log, "x");
    assert_eq!(event.timestamp, NOON);
    let event = detector.handle_newline("y".to_string()).expect("an event");
    assert_eq!(event.name, "app1");
    assert_eq!(event.log, "y");
}

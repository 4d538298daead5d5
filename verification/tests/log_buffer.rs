use nexus_tool::common::{logs_response, LogsQueryParams};
use nexus_tool::log_line::{
    format_log_line, padded_level, timestamped_log_line, LogLevel, LogVisitor,
};
use nexus_tool::LogBuffer;

fn filled(capacity: usize, count: usize) -> LogBuffer {
    let mut buffer = LogBuffer::new(capacity);
    for i in 0..count {
        buffer.push(format!("line {i}"));
    }
    buffer
}

#[test]
fn new_buffer_is_empty() {
    let buffer = LogBuffer::new(4);
    assert_eq!(buffer.len(), 0);
    assert!(buffer.recent(10).is_empty());
}

#[test]
fn push_keeps_the_most_recent_lines() {
    let buffer = filled(3, 5);
    assert_eq!(buffer.len(), 3);
    assert_eq!(buffer.recent(10), vec!["line 2", "line 3", "line 4"]);
}

#[test]
fn recent_returns_newest_lines_oldest_first() {
    let buffer = filled(10, 6);
    assert_eq!(buffer.recent(2), vec!["line 4", "line 5"]);
    assert_eq!(buffer.recent(6).len(), 6);
    assert!(buffer.recent(0).is_empty());
}

#[test]
fn capacity_zero_keeps_the_last_line() {
    let buffer = filled(0, 3);
    assert_eq!(buffer.len(), 1);
    assert_eq!(buffer.recent(5), vec!["line 2"]);
}

#[test]
fn capacity_one_keeps_the_last_line() {
    let buffer = filled(1, 4);
    assert_eq!(buffer.recent(1), vec!["line 3"]);
}

#[test]
fn logs_default_to_one_hundred_lines() {
    let buffer = filled(500, 150);
    let response = logs_response(&buffer, &LogsQueryParams { lines: None });
    assert_eq!(response.count, 100);
    assert_eq!(response.lines.len(), 100);
    assert_eq!(response.lines[0], "line 50");
    assert_eq!(response.lines[99], "line 149");
}

#[test]
fn logs_are_capped_at_one_thousand_lines() {
    let buffer = filled(2000, 1200);
    let response = logs_response(&buffer, &LogsQueryParams { lines: Some(5000) });
    assert_eq!(response.count, 1000);
    assert_eq!(response.lines[0], "line 200");
}

#[test]
fn logs_return_what_was_asked_for() {
    let buffer = filled(1000, 10);
    let response = logs_response(&buffer, &LogsQueryParams { lines: Some(3) });
    assert_eq!(response.count, 3);
    assert_eq!(response.lines, vec!["line 7", "line 8", "line 9"]);
    let all = logs_response(&buffer, &LogsQueryParams { lines: Some(50) });
    assert_eq!(all.count, 10);
}

#[test]
fn log_levels_are_right_aligned() {
    assert_eq!(padded_level(LogLevel::Info), " INFO");
    assert_eq!(padded_level(LogLevel::Warn), " WARN");
    assert_eq!(padded_level(LogLevel::Error), "ERROR");
    assert_eq!(padded_level(LogLevel::Debug), "DEBUG");
    assert_eq!(padded_level(LogLevel::Trace), "TRACE");
}

#[test]
fn log_line_layout() {
    assert_eq!(
        format_log_line("2026-06-15T10:00:00Z", LogLevel::Info, "nexus_tool", "started"),
        "2026-06-15T10:00:00Z  INFO nexus_tool started"
    );
}

#[test]
fn visitor_collects_fields() {
    let mut visitor = LogVisitor::new();
    visitor.record("blob", "abc");
    assert_eq!(visitor.message, "blob=abc");
    visitor.record("size", "3");
    assert_eq!(visitor.message, "blob=abc size=3");
    visitor.record("message", "uploaded");
    assert_eq!(visitor.message, "uploaded");
    visitor.record("op", "read");
    assert_eq!(visitor.message, "uploaded op=read");
}

#[test]
fn timestamped_line_starts_with_utc_time() {
    let line = timestamped_log_line(LogLevel::Warn, "t", "m").expect("clock readable");
    assert_eq!(line.len(), 20 + " WARN t m".len() + 1);
    assert!(line.ends_with("Z  WARN t m"));
}

use publisher::telemetry::{format_log_line, same_text, EventFields};

#[test]
fn same_text_compares_whole_texts() {
    assert!(same_text("message", "message"));
    assert!(!same_text("message", "messages"));
    assert!(!same_text("event_id", "event_ie"));
    assert!(same_text("", ""));
    assert!(same_text("é", "é"));
}

#[test]
fn event_fields_keep_message_and_event_id_only() {
    let mut f = EventFields::new();
    f.record("message", "Event published");
    f.record("event_id", "e-1");
    f.record("exchange", "ALTPAY:PAYIN");
    f.record("message", " successfully");
    assert_eq!(f.message, "Event published successfully");
    assert_eq!(f.event_id, "e-1");
}

#[test]
fn log_line_is_one_sorted_json_object() {
    let mut f = EventFields::new();
    f.record("message", "Event \"x\" published");
    f.record("event_id", "e-1");
    let line = format_log_line("2024-01-01T00:00:00+00:00", "INFO", "0af7651916cd43dd8448eb211c80319c", &f);
    assert_eq!(
        line,
        "{\"event_id\":\"e-1\",\"level\":\"INFO\",\"message\":\"Event \\\"x\\\" published\",\"service\":\"publisher\",\"timestamp\":\"2024-01-01T00:00:00+00:00\",\"trace_id\":\"0af7651916cd43dd8448eb211c80319c\"}\n"
    );
    let parsed: serde_json::Value = serde_json::from_str(line.trim_end()).unwrap();
    assert_eq!(parsed["message"], "Event \"x\" published");
    assert_eq!(parsed["service"], "publisher");
}

#[test]
fn log_line_with_no_fields() {
    let line = format_log_line("t", "WARN", "00000000000000000000000000000000", &EventFields::new());
    assert_eq!(
        line,
        "{\"event_id\":\"\",\"level\":\"WARN\",\"message\":\"\",\"service\":\"publisher\",\"timestamp\":\"t\",\"trace_id\":\"00000000000000000000000000000000\"}\n"
    );
}

#[test]
fn log_line_breaks_only_at_its_end() {
    let mut f = EventFields::new();
    f.record("message", "first line\nsecond line\r\n\tend");
    f.record("event_id", "id\n");
    let line = format_log_line("t\n", "INFO", "trace", &f);
    assert!(line.ends_with('\n'));
    assert_eq!(line.matches('\n').count(), 1);
    assert!(line.chars().all(|c| c == '\n' || (c as u32) >= 0x20));
    let parsed: serde_json::Value = serde_json::from_str(line.trim_end()).unwrap();
    assert_eq!(parsed["message"], "first line\nsecond line\r\n\tend");
}

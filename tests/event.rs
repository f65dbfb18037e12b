use chrono::TimeZone;
use engagement_events::{Event, EventType, Timestamp};

fn utc(dt: chrono::DateTime<chrono::Utc>) -> Timestamp {
    Timestamp { unix_seconds: dt.timestamp(), subsec_nanos: dt.timestamp_subsec_nanos() }
}

#[test]
fn test_event_from_csv_record() {
    let record = csv::StringRecord::from(vec![
        "user123",
        "article456",
        "2025-05-30T12:34:56Z",
        "view"
    ]);
    let event = Event::from_csv_record(&record).unwrap();
    assert_eq!(event.user_id(), "user123");
    assert_eq!(event.article_id(), "article456");
    assert_eq!(
        event.timestamp(),
        utc(chrono::Utc.with_ymd_and_hms(2025, 5, 30, 12, 34, 56).single().unwrap())
    );
    assert_eq!(event.event_type(), EventType::View);
}

#[test]
fn test_event_from_csv_record_invalid_timestamp() {
    let record = csv::StringRecord::from(vec![
        "user123",
        "article456",
        "invalid-timestamp",
        "view"
    ]);
    let result = Event::from_csv_record(&record);
    assert!(result.is_err());
    assert_eq!(result.err().unwrap(), "Invalid timestamp format: input contains invalid characters");
}

#[test]
fn test_event_from_csv_record_missing_fields() {
    let record = csv::StringRecord::from(vec![
        "user123",
        "article456",
        "2025-05-30T12:34:56Z"
    ]);
    let result = Event::from_csv_record(&record);
    assert!(result.is_err());
    assert_eq!(result.err().unwrap(), "Record does not have exactly 4 fields");
}

#[test]
fn test_event_from_csv_record_unknown_event_type() {
    let record = csv::StringRecord::from(vec![
        "user123",
        "article456",
        "2025-05-30T12:34:56Z",
        "unknown"
    ]);
    let result = Event::from_csv_record(&record);
    assert!(result.is_err());
    assert_eq!(result.err().unwrap(), "Unknown event type: unknown");
}

#[test]
fn five_fields_are_refused() {
    let record = csv::StringRecord::from(vec![
        "user123",
        "article456",
        "2025-05-30T12:34:56Z",
        "view",
        "extra"
    ]);
    let result = Event::from_csv_record(&record);
    assert_eq!(result.err().unwrap(), "Record does not have exactly 4 fields");
}

#[test]
fn empty_record_is_refused() {
    let record = csv::StringRecord::new();
    let result = Event::from_csv_record(&record);
    assert_eq!(result.err().unwrap(), "Record does not have exactly 4 fields");
}

#[test]
fn timestamp_epoch_seconds_are_exact() {
    let record = csv::StringRecord::from(vec!["u", "a", "2025-05-30T12:34:56Z", "like"]);
    let event = Event::from_csv_record(&record).unwrap();
    assert_eq!(event.timestamp(), Timestamp { unix_seconds: 1748608496, subsec_nanos: 0 });
    assert_eq!(event.event_type(), EventType::Like);
}

#[test]
fn offset_timestamp_is_kept_in_utc() {
    let record = csv::StringRecord::from(vec!["u", "a", "2025-05-30T14:34:56+02:00", "share"]);
    let event = Event::from_csv_record(&record).unwrap();
    assert_eq!(event.timestamp(), Timestamp { unix_seconds: 1748608496, subsec_nanos: 0 });
    assert_eq!(event.event_type(), EventType::Share);
}

#[test]
fn fractional_seconds_are_kept() {
    let record = csv::StringRecord::from(vec!["u", "a", "2025-05-30T12:34:56.25Z", "view"]);
    let event = Event::from_csv_record(&record).unwrap();
    assert_eq!(event.timestamp(), Timestamp { unix_seconds: 1748608496, subsec_nanos: 250_000_000 });
}

#[test]
fn identifiers_are_copied_verbatim() {
    let record = csv::StringRecord::from(vec![" User 7 ", "", "2025-05-30T12:34:56Z", "view"]);
    let event = Event::from_csv_record(&record).unwrap();
    assert_eq!(event.user_id(), " User 7 ");
    assert_eq!(event.article_id(), "");
}

#[test]
fn event_type_is_case_sensitive() {
    let record = csv::StringRecord::from(vec!["u", "a", "2025-05-30T12:34:56Z", "View"]);
    let result = Event::from_csv_record(&record);
    assert_eq!(result.err().unwrap(), "Unknown event type: View");
}

#[test]
fn event_type_is_not_trimmed() {
    let record = csv::StringRecord::from(vec!["u", "a", "2025-05-30T12:34:56Z", "like "]);
    let result = Event::from_csv_record(&record);
    assert_eq!(result.err().unwrap(), "Unknown event type: like ");
}

#[test]
fn timestamp_is_checked_before_event_type() {
    let record = csv::StringRecord::from(vec!["u", "a", "2025-05-30", "unknown"]);
    let result = Event::from_csv_record(&record);
    let message = result.err().unwrap();
    assert!(message.starts_with("Invalid timestamp format: "));
    assert!(message.len() > "Invalid timestamp format: ".len());
}

#[test]
fn impossible_date_is_refused() {
    let record = csv::StringRecord::from(vec!["u", "a", "2025-02-30T12:34:56Z", "view"]);
    let result = Event::from_csv_record(&record);
    assert!(result.err().unwrap().starts_with("Invalid timestamp format: "));
}

#[test]
fn parsing_twice_gives_the_same_result() {
    let good = csv::StringRecord::from(vec!["u", "a", "2025-05-30T12:34:56Z", "share"]);
    let first = Event::from_csv_record(&good).unwrap();
    let second = Event::from_csv_record(&good).unwrap();
    assert_eq!(first.user_id(), second.user_id());
    assert_eq!(first.article_id(), second.article_id());
    assert_eq!(first.timestamp(), second.timestamp());
    assert_eq!(first.event_type(), second.event_type());
    let bad = csv::StringRecord::from(vec!["u", "a", "not-a-time", "share"]);
    assert_eq!(
        Event::from_csv_record(&bad).err().unwrap(),
        Event::from_csv_record(&bad).err().unwrap()
    );
}

#[test]
fn event_type_names() {
    assert_eq!(EventType::parse("view"), Some(EventType::View));
    assert_eq!(EventType::parse("share"), Some(EventType::Share));
    assert_eq!(EventType::parse("like"), Some(EventType::Like));
    assert_eq!(EventType::parse("likes"), None);
    assert_eq!(EventType::parse(""), None);
    assert_eq!(EventType::parse("SHARE"), None);
}

#[test]
fn from_parts_prefixes_the_parser_description() {
    let result = Event::from_parts("u", "a", Err("trailing input".to_string()), "view");
    assert_eq!(result.err().unwrap(), "Invalid timestamp format: trailing input");
}

#[test]
fn from_parts_builds_the_event() {
    let t = Timestamp { unix_seconds: -5, subsec_nanos: 7 };
    let event = Event::from_parts("u1", "a1", Ok(t), "like").unwrap();
    assert_eq!(event.user_id(), "u1");
    assert_eq!(event.article_id(), "a1");
    assert_eq!(event.timestamp(), t);
    assert_eq!(event.event_type(), EventType::Like);
    let result = Event::from_parts("u1", "a1", Ok(t), "comment");
    assert_eq!(result.err().unwrap(), "Unknown event type: comment");
}

//! The History Ledger: rendering, reading back, windowing, timestamps.

use tickle::clock::{render_timestamp, timestamp_parts};
use tickle::history::{parse_ledger, parse_line, render_record, show_start, HistoryRecord};

fn record(ts: &str, kind: &str, label: &str, success: bool) -> HistoryRecord {
    HistoryRecord {
        timestamp: ts.as_bytes().to_vec(),
        kind: kind.as_bytes().to_vec(),
        label: label.as_bytes().to_vec(),
        success,
    }
}

#[test]
fn a_record_renders_as_one_line() {
    let line = render_record(&record("2024-05-01 10:00:00", "tickle", "nginx", true));
    assert_eq!(line, b"2024-05-01 10:00:00 | tickle | nginx | SUCCESS\n".to_vec());
    let line = render_record(&record("2024-05-01 10:00:01", "stop", "db", false));
    assert_eq!(line, b"2024-05-01 10:00:01 | stop | db | FAILED\n".to_vec());
}

/// Logging N operations and reading the ledger back yields exactly those N
/// records, in insertion order.
#[test]
fn n_appends_read_back_as_n_records_in_order() {
    let records = vec![
        record("2024-05-01 10:00:00", "tickle", "nginx", true),
        record("2024-05-01 10:05:00", "start", "db", false),
        record("2024-05-01 10:06:00", "stop", "db", true),
        record("2024-05-01 10:07:00", "tickle", "myapp/compose.yaml", true),
        record("2024-05-01 10:08:00", "start", "nginx", true),
    ];
    let mut file: Vec<u8> = Vec::new();
    for r in &records {
        file.extend_from_slice(&render_record(r));
    }
    let read = parse_ledger(&file);
    assert_eq!(read.len(), records.len());
    assert_eq!(read, records);
    // show with no limit starts at the first record
    assert_eq!(show_start(read.len(), None), 0);
}

#[test]
fn a_limit_shows_only_the_most_recent_records() {
    assert_eq!(show_start(5, Some(2)), 3);
    assert_eq!(show_start(5, Some(5)), 0);
    assert_eq!(show_start(5, Some(9)), 0);
    assert_eq!(show_start(0, Some(3)), 0);
}

#[test]
fn an_empty_ledger_reads_back_empty() {
    assert_eq!(parse_ledger(b"").len(), 0);
}

#[test]
fn labels_containing_the_separator_survive_a_round_trip() {
    let tricky = record("2024-05-01 10:00:00", "tickle", "odd | name", true);
    let line = render_record(&tricky);
    let read = parse_ledger(&line);
    assert_eq!(read, vec![tricky]);
}

#[test]
fn foreign_lines_are_skipped() {
    let mut file: Vec<u8> = Vec::new();
    file.extend_from_slice(b"# a comment some other tool left\n");
    file.extend_from_slice(&render_record(&record("2024-05-01 10:00:00", "stop", "db", true)));
    file.extend_from_slice(b"half a line");
    let read = parse_ledger(&file);
    assert_eq!(read.len(), 1);
    assert_eq!(read[0].label, b"db".to_vec());
}

#[test]
fn malformed_outcome_tokens_are_rejected() {
    assert!(parse_line(b"ts | kind | label | MAYBE").is_none());
    assert!(parse_line(b"no separators here").is_none());
    assert!(parse_line(b"only | two | fields").is_none());
}

#[test]
fn the_epoch_renders_as_its_calendar_origin() {
    let p = timestamp_parts(0);
    assert_eq!((p.year, p.month, p.day), (1970, 1, 1));
    assert_eq!((p.hour, p.minute, p.second), (0, 0, 0));
    assert_eq!(render_timestamp(&p), b"1970-01-01 00:00:00".to_vec());
}

#[test]
fn a_known_reading_splits_exactly() {
    // 1000000000 s: 11574 days, 1 h 46 min 40 s into the day.
    let p = timestamp_parts(1_000_000_000);
    assert_eq!(p.year, 1970 + 11574 / 365);
    assert_eq!(p.hour, 1);
    assert_eq!(p.minute, 46);
    assert_eq!(p.second, 40);
    // 11574 days into the approximate calendar: year 2001, 259 days left,
    // the ninth 30-day month, its 20th day.
    assert_eq!(render_timestamp(&p), b"2001-09-20 01:46:40".to_vec());
}

#[test]
fn later_readings_never_render_earlier() {
    let mut previous: Option<Vec<u8>> = None;
    for t in [0u64, 59, 60, 3599, 3600, 86399, 86400, 31535999, 31536000, 1_000_000_000] {
        let rendered = render_timestamp(&timestamp_parts(t));
        if let Some(p) = &previous {
            assert!(p <= &rendered, "order broke between {:?} and {:?}", p, rendered);
        }
        previous = Some(rendered);
    }
}

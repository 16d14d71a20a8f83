//! Tests of the single pipeline stages: scanner, decoder, converter,
//! encoder, assembler.

use jekyll_to_zola::convert::{convert_front, ConvertError, ZolaFront};
use jekyll_to_zola::datetime::{CalendarDate, ClockTime, DatetimeValue, UtcOffset};
use jekyll_to_zola::decode::{decode_front, DecodeError, JekyllFront};
use jekyll_to_zola::encode::{assemble, encode_front};
use jekyll_to_zola::scanner::{join_lines, scan, ScanState};

fn text(s: &str) -> toml::Value {
    toml::Value::String(s.to_string())
}

fn record_entries() -> Vec<(String, toml::Value)> {
    vec![
        ("title".to_string(), text("T")),
        ("date".to_string(), text("2023-05-01")),
        ("subtitle".to_string(), text("S")),
        ("author".to_string(), text("A")),
    ]
}

#[test]
fn scanner_partitions_at_exact_delimiters() {
    let lines: Vec<String> = ["skip", "---", "a: 1", "b: 2", "---", "x", "---", "y"]
        .iter()
        .map(|l| l.to_string())
        .collect();
    let out = scan(&lines);
    assert!(matches!(out.state, ScanState::Content));
    assert_eq!(out.front, vec!["a: 1".to_string(), "b: 2".to_string()]);
    assert_eq!(out.content, vec!["x".to_string(), "---".to_string(), "y".to_string()]);
}

#[test]
fn scanner_without_delimiters_collects_nothing() {
    let lines: Vec<String> = ["a", "b"].iter().map(|l| l.to_string()).collect();
    let out = scan(&lines);
    assert!(matches!(out.state, ScanState::Unknown));
    assert!(out.front.is_empty());
    assert!(out.content.is_empty());
}

#[test]
fn scanner_does_not_match_inexact_delimiters() {
    let lines: Vec<String> = ["----", "--- ", "---"].iter().map(|l| l.to_string()).collect();
    let out = scan(&lines);
    assert!(matches!(out.state, ScanState::FrontMatter));
    assert!(out.front.is_empty());
    assert!(out.content.is_empty());
}

#[test]
fn join_appends_a_line_break_after_every_line() {
    let lines: Vec<String> = ["a", "", "c"].iter().map(|l| l.to_string()).collect();
    assert_eq!(join_lines(&lines), "a\n\nc\n");
    assert_eq!(join_lines(&Vec::new()), "");
}

#[test]
fn decode_reads_the_four_required_fields() {
    let front = decode_front(record_entries()).expect("decoding must succeed");
    assert_eq!(front.title, "T");
    assert_eq!(front.date, "2023-05-01");
    assert_eq!(front.subtitle, "S");
    assert_eq!(front.author, "A");
    assert!(front.extra.is_empty());
}

#[test]
fn decode_keeps_every_other_key_with_its_value() {
    let mut entries = record_entries();
    entries.push((
        "tags".to_string(),
        toml::Value::Array(vec![text("a"), text("b")]),
    ));
    entries.push(("draft".to_string(), toml::Value::Boolean(true)));
    let front = decode_front(entries).expect("decoding must succeed");
    assert_eq!(front.extra.len(), 2);
    assert_eq!(front.extra[0].0, "tags");
    assert_eq!(
        front.extra[0].1,
        toml::Value::Array(vec![text("a"), text("b")])
    );
    assert_eq!(front.extra[1].0, "draft");
    assert_eq!(front.extra[1].1, toml::Value::Boolean(true));
}

#[test]
fn decode_without_author_fails() {
    let entries: Vec<(String, toml::Value)> = record_entries()
        .into_iter()
        .filter(|e| e.0 != "author")
        .collect();
    assert_eq!(decode_front(entries).unwrap_err(), DecodeError::MissingField);
}

#[test]
fn decode_with_numeric_title_fails() {
    let mut entries = record_entries();
    entries[0].1 = toml::Value::Integer(7);
    assert_eq!(decode_front(entries).unwrap_err(), DecodeError::WrongShape);
}

#[test]
fn convert_copies_fields_and_renames_subtitle() {
    let front = decode_front(record_entries()).expect("decoding must succeed");
    let zola = convert_front(front).expect("conversion must succeed");
    assert_eq!(zola.title, "T");
    assert_eq!(zola.description, "S");
    assert_eq!(zola.author, "A");
    assert_eq!(
        zola.date.date,
        Some(CalendarDate { year: 2023, month: 5, day: 1 })
    );
    assert_eq!(zola.date.time, None);
    assert_eq!(zola.date.offset, None);
}

#[test]
fn convert_keeps_the_residual_map_unexamined() {
    let mut entries = record_entries();
    entries.push(("draft".to_string(), toml::Value::Boolean(true)));
    let front = decode_front(entries).expect("decoding must succeed");
    let zola = convert_front(front).expect("conversion must succeed");
    assert_eq!(zola.extra.len(), 1);
    assert_eq!(zola.extra[0].0, "draft");
    assert_eq!(zola.extra[0].1, toml::Value::Boolean(true));
}

#[test]
fn convert_rejects_a_bad_date() {
    let mut entries = record_entries();
    entries[1].1 = text("not-a-date");
    let front = decode_front(entries).expect("decoding must succeed");
    assert_eq!(convert_front(front).unwrap_err(), ConvertError::InvalidDate);
}

fn date_of(text: &str) -> Result<DatetimeValue, ConvertError> {
    let mut entries = record_entries();
    entries[1].1 = toml::Value::String(text.to_string());
    let front = decode_front(entries).expect("decoding must succeed");
    convert_front(front).map(|z| z.date)
}

#[test]
fn date_grammar_accepts_the_documented_shapes() {
    let d = date_of("2023-05-01").expect("a full date must parse");
    assert_eq!(d.date, Some(CalendarDate { year: 2023, month: 5, day: 1 }));
    assert_eq!(d.time, None);
    assert_eq!(d.offset, None);

    let dt = date_of("1979-05-27T07:32:00.5Z").expect("an offset datetime must parse");
    assert_eq!(dt.date, Some(CalendarDate { year: 1979, month: 5, day: 27 }));
    assert_eq!(
        dt.time,
        Some(ClockTime { hour: 7, minute: 32, second: 0, nanosecond: 500_000_000 })
    );
    assert_eq!(dt.offset, Some(UtcOffset::Z));

    let t = date_of("07:32:00").expect("a local time must parse");
    assert_eq!(t.date, None);
    assert_eq!(
        t.time,
        Some(ClockTime { hour: 7, minute: 32, second: 0, nanosecond: 0 })
    );

    let off = date_of("1979-05-27T00:32:00-07:00").expect("a custom offset must parse");
    assert_eq!(off.offset, Some(UtcOffset::Custom { minutes: -420 }));
}

#[test]
fn date_grammar_rejects_nonconforming_text() {
    assert_eq!(date_of("not-a-date"), Err(ConvertError::InvalidDate));
    assert_eq!(date_of(""), Err(ConvertError::InvalidDate));
    assert_eq!(date_of("2023-13-01"), Err(ConvertError::InvalidDate));
    assert_eq!(date_of("2023-02-30"), Err(ConvertError::InvalidDate));
    assert_eq!(date_of("2023-5-1"), Err(ConvertError::InvalidDate));
}

#[test]
fn encode_round_trips_a_typed_date() {
    let zola = ZolaFront {
        title: "T".to_string(),
        date: DatetimeValue {
            date: Some(CalendarDate { year: 1979, month: 5, day: 27 }),
            time: Some(ClockTime { hour: 0, minute: 32, second: 0, nanosecond: 0 }),
            offset: Some(UtcOffset::Custom { minutes: -420 }),
        },
        description: "S".to_string(),
        author: "A".to_string(),
        extra: Vec::new(),
    };
    let block = encode_front(zola).expect("encoding must succeed");
    assert!(block.contains("date = 1979-05-27T00:32:00-07:00"));
}

#[test]
fn encode_writes_every_field_as_a_top_level_key() {
    let front = JekyllFront {
        title: "Hello".to_string(),
        date: "2023-05-01".to_string(),
        subtitle: "World".to_string(),
        author: "Jane".to_string(),
        extra: vec![("draft".to_string(), toml::Value::Boolean(false))],
    };
    let zola = convert_front(front).expect("conversion must succeed");
    let block = encode_front(zola).expect("encoding must succeed");
    assert!(block.contains("title = \"Hello\""));
    assert!(block.contains("date = 2023-05-01"));
    assert!(block.contains("description = \"World\""));
    assert!(block.contains("author = \"Jane\""));
    assert!(block.contains("draft = false"));
}

#[test]
fn assemble_wraps_the_block_in_plus_markers() {
    let out = assemble("a = 1\n".to_string(), &"content\n".to_string());
    assert_eq!(out, "+++\na = 1\n\n+++\ncontent\n");
}

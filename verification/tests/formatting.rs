use void_time::boundary::{
    get_end_date_by_index, get_start_date_by_index, VoidTimeCollector,
};
use void_time::errors::VoidTimeError;
use void_time::loader::parse_instant;

fn fixture_json() -> String {
    r#"[
        {"start": "2024-01-03T08:37:00+09:00", "end": "2024-01-03T09:48:00+09:00"},
        {"start": "2024-01-09T10:00:00+09:00", "end": "2024-01-09T11:30:00+09:00"},
        {"start": "2024-01-15T14:00:00+09:00", "end": "2024-01-15T15:00:00+09:00"},
        {"start": "2024-01-21T09:15:00+09:00", "end": "2024-01-21T10:45:00+09:00"},
        {"start": "2024-01-28T16:20:00+09:00", "end": "2024-01-28T17:50:00+09:00"},
        {"start": "2024-02-04T14:10:00+09:00", "end": "2024-02-04T15:29:00+09:00"}
    ]"#
    .to_string()
}

#[test]
fn test_get_start_date_by_index() {
    let collector = VoidTimeCollector::from_json_text(&fixture_json()).unwrap();

    let start_date = get_start_date_by_index(&collector, 0, b"%m/%d").unwrap();
    assert_eq!(start_date.value().unwrap().as_str(), "01/03");

    let start_date = get_start_date_by_index(&collector, 0, b"%H:%M ~").unwrap();
    assert_eq!(start_date.value().unwrap().as_str(), "08:37 ~");
}

#[test]
fn test_get_end_date_by_index() {
    let collector = VoidTimeCollector::from_json_text(&fixture_json()).unwrap();

    let end_date = get_end_date_by_index(&collector, 0, b"~ %H:%M").unwrap();
    assert_eq!(end_date.value().unwrap().as_str(), "~ 09:48");
}

#[test]
fn test_format_then_reparse_roundtrip() {
    let collector = VoidTimeCollector::from_json_text(&fixture_json()).unwrap();
    let pattern = b"%Y-%m-%dT%H:%M:%S%:z";

    let rendered = get_start_date_by_index(&collector, 0, pattern).unwrap();
    let reparsed = parse_instant(rendered.value().unwrap().as_str()).unwrap();
    let expected = parse_instant("2024-01-03T08:37:00+09:00").unwrap();
    assert_eq!(reparsed, expected);

    let rendered = get_end_date_by_index(&collector, 5, pattern).unwrap();
    let reparsed = parse_instant(rendered.value().unwrap().as_str()).unwrap();
    let expected = parse_instant("2024-02-04T15:29:00+09:00").unwrap();
    assert_eq!(reparsed, expected);
}

#[test]
fn test_format_index_out_of_range() {
    let collector = VoidTimeCollector::from_json_text(&fixture_json()).unwrap();
    assert!(matches!(
        get_start_date_by_index(&collector, 6, b"%m/%d"),
        Err(VoidTimeError::IndexOutOfRange)
    ));
    assert!(matches!(
        get_end_date_by_index(&collector, 6, b"%m/%d"),
        Err(VoidTimeError::IndexOutOfRange)
    ));
}

#[test]
fn test_format_rejects_invalid_utf8_pattern() {
    let collector = VoidTimeCollector::from_json_text(&fixture_json()).unwrap();
    assert!(matches!(
        get_start_date_by_index(&collector, 0, &[0xff, 0x25, 0x6d]),
        Err(VoidTimeError::EncodingError)
    ));
}

#[test]
fn test_format_rejects_unrenderable_pattern() {
    let collector = VoidTimeCollector::from_json_text(&fixture_json()).unwrap();
    // A trailing '%' is not a complete strftime directive.
    assert!(matches!(
        get_start_date_by_index(&collector, 0, b"%H:%M %"),
        Err(VoidTimeError::ParseError)
    ));
}

use void_time::boundary::{
    check_is_in_void_time, get_void_time_index, VoidTimeCollector,
};
use void_time::errors::VoidTimeError;
use void_time::loader::parse_instant;

fn fixture_json() -> String {
    r#"[
        {"start": "2024-01-03T08:37:00+09:00", "end": "2024-01-03T09:48:00+09:00"},
        {"start": "2024-01-09T10:00:00+09:00", "end": "2024-01-09T11:30:00+09:00"},
        {"start": "2024-01-15T14:00:00+09:00", "end": "2024-01-15T15:00:00+09:00"},
        {"start": "2024-01-21T09:15:00+09:00", "end": "2024-01-21T10:45:00+09:00"},
        {"start": "2024-01-28T16:20:00+09:00", "end": "2024-01-28T17:50:00+09:00"},
        {"start": "2024-02-04T14:10:00+09:00", "end": "2024-02-04T15:29:00+09:00"}
    ]"#
    .to_string()
}

fn secs_of(text: &str) -> i64 {
    parse_instant(text).unwrap().secs
}

#[test]
fn test_get_void_time_index() {
    let collector = VoidTimeCollector::from_json_text(&fixture_json()).unwrap();

    let date = secs_of("2024-01-01T10:00:00+09:00");
    assert_eq!(get_void_time_index(&collector, date).unwrap(), 0);

    let date = secs_of("2024-01-03T09:00:00+09:00");
    assert_eq!(get_void_time_index(&collector, date).unwrap(), 0);

    let date = secs_of("2024-01-03T09:48:00+09:00");
    assert_eq!(get_void_time_index(&collector, date).unwrap(), 0);

    let date = secs_of("2024-01-03T09:49:00+09:00");
    assert_eq!(get_void_time_index(&collector, date).unwrap(), 1);

    let date = secs_of("2024-02-04T15:29:00+09:00");
    assert_eq!(get_void_time_index(&collector, date).unwrap(), 5);

    let date = secs_of("2024-02-04T15:30:00+09:00");
    assert_eq!(get_void_time_index(&collector, date).unwrap(), 0);
}

#[test]
fn test_check_is_in_void_time() {
    let collector = VoidTimeCollector::from_json_text(&fixture_json()).unwrap();

    let date = secs_of("2024-01-03T08:36:00+09:00");
    assert_eq!(check_is_in_void_time(&collector, 0, date).unwrap(), false);

    let date = secs_of("2024-01-03T08:37:00+09:00");
    assert_eq!(check_is_in_void_time(&collector, 0, date).unwrap(), true);

    let date = secs_of("2024-01-03T09:00:00+09:00");
    assert_eq!(check_is_in_void_time(&collector, 0, date).unwrap(), true);

    let date = secs_of("2024-01-03T09:48:00+09:00");
    assert_eq!(check_is_in_void_time(&collector, 0, date).unwrap(), true);

    let date = secs_of("2024-01-03T09:49:00+09:00");
    assert_eq!(check_is_in_void_time(&collector, 0, date).unwrap(), false);
}

#[test]
fn test_index_monotonic_for_increasing_instants() {
    let collector = VoidTimeCollector::from_json_text(&fixture_json()).unwrap();
    let instants = [
        "2024-01-01T00:00:00+09:00",
        "2024-01-03T09:48:00+09:00",
        "2024-01-03T09:49:00+09:00",
        "2024-01-10T00:00:00+09:00",
        "2024-01-20T12:00:00+09:00",
        "2024-01-25T08:00:00+09:00",
        "2024-02-01T00:00:00+09:00",
        "2024-02-04T15:29:00+09:00",
    ];
    let mut previous = 0usize;
    for text in instants.iter() {
        let index = get_void_time_index(&collector, secs_of(text)).unwrap();
        assert!(index >= previous);
        previous = index;
    }
    // Past every interval's end the lookup falls back to 0 by design.
    let past = secs_of("2024-03-01T00:00:00+09:00");
    assert_eq!(get_void_time_index(&collector, past).unwrap(), 0);
}

#[test]
fn test_membership_index_out_of_range() {
    let collector = VoidTimeCollector::from_json_text(&fixture_json()).unwrap();
    let date = secs_of("2024-01-03T09:00:00+09:00");
    assert_eq!(
        check_is_in_void_time(&collector, 6, date),
        Err(VoidTimeError::IndexOutOfRange)
    );
    assert_eq!(
        check_is_in_void_time(&collector, 99, date),
        Err(VoidTimeError::IndexOutOfRange)
    );
}

#[test]
fn test_invalid_timestamp_rejected() {
    let collector = VoidTimeCollector::from_json_text(&fixture_json()).unwrap();
    assert_eq!(
        get_void_time_index(&collector, i64::MIN),
        Err(VoidTimeError::InvalidTimestampError)
    );
    assert_eq!(
        check_is_in_void_time(&collector, 0, i64::MAX),
        Err(VoidTimeError::InvalidTimestampError)
    );
}

#[test]
fn test_empty_store_falls_back_to_zero() {
    let collector = VoidTimeCollector::from_json_text("[]").unwrap();
    let date = secs_of("2024-01-01T00:00:00+09:00");
    assert_eq!(get_void_time_index(&collector, date).unwrap(), 0);
    assert_eq!(
        check_is_in_void_time(&collector, 0, date),
        Err(VoidTimeError::IndexOutOfRange)
    );
}

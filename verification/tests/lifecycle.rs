use void_time::boundary::{
    check_is_in_void_time, free_string, get_end_date_by_index, get_start_date_by_index,
    get_void_time_index, void_time_collector_free, VoidTimeCollector,
};
use void_time::errors::VoidTimeError;
use void_time::loader::parse_instant;

fn fixture_json() -> String {
    r#"[
        {"start": "2024-01-03T08:37:00+09:00", "end": "2024-01-03T09:48:00+09:00"},
        {"start": "2024-02-04T14:10:00+09:00", "end": "2024-02-04T15:29:00+09:00"}
    ]"#
    .to_string()
}

#[test]
fn test_use_after_destroy_is_rejected() {
    let mut collector = VoidTimeCollector::from_json_text(&fixture_json()).unwrap();
    let date = parse_instant("2024-01-03T09:00:00+09:00").unwrap().secs;

    assert_eq!(get_void_time_index(&collector, date).unwrap(), 0);
    void_time_collector_free(&mut collector);

    assert_eq!(
        get_void_time_index(&collector, date),
        Err(VoidTimeError::UseAfterDestroy)
    );
    assert_eq!(
        check_is_in_void_time(&collector, 0, date),
        Err(VoidTimeError::UseAfterDestroy)
    );
    assert!(matches!(
        get_start_date_by_index(&collector, 0, b"%m/%d"),
        Err(VoidTimeError::UseAfterDestroy)
    ));
    assert!(matches!(
        get_end_date_by_index(&collector, 0, b"%m/%d"),
        Err(VoidTimeError::UseAfterDestroy)
    ));
}

#[test]
fn test_destroy_twice_is_a_safe_no_op() {
    let mut collector = VoidTimeCollector::from_json_text(&fixture_json()).unwrap();
    void_time_collector_free(&mut collector);
    void_time_collector_free(&mut collector);
    let date = parse_instant("2024-01-03T09:00:00+09:00").unwrap().secs;
    assert_eq!(
        get_void_time_index(&collector, date),
        Err(VoidTimeError::UseAfterDestroy)
    );
}

#[test]
fn test_release_string_twice_is_a_safe_no_op() {
    let collector = VoidTimeCollector::from_json_text(&fixture_json()).unwrap();
    let mut rendered = get_start_date_by_index(&collector, 0, b"%m/%d").unwrap();
    assert_eq!(rendered.value().unwrap().as_str(), "01/03");

    free_string(&mut rendered);
    assert!(rendered.value().is_none());

    free_string(&mut rendered);
    assert!(rendered.value().is_none());
}

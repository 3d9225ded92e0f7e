use task_manager_backend::text::str_eq;
use task_manager_backend::time::Timestamp;

#[test]
fn texts_are_compared_byte_for_byte() {
    assert!(str_eq("", ""));
    assert!(str_eq("Key", "Key"));
    assert!(str_eq("na\u{ef}ve \u{1F600}", "na\u{ef}ve \u{1F600}"));
    assert!(!str_eq("Key", "key"));
    assert!(!str_eq("Key", "Ke"));
    assert!(!str_eq("Ke", "Key"));
    assert!(!str_eq("", " "));
    assert!(!str_eq("e\u{301}", "\u{e9}"));
}

#[test]
fn instants_need_nanoseconds_in_range() {
    assert!(Timestamp { secs: 0, nanos: 0 }.is_valid());
    assert!(Timestamp { secs: i64::MIN, nanos: 999_999_999 }.is_valid());
    assert!(Timestamp { secs: 59, nanos: 1_999_999_999 }.is_valid());
    assert!(!Timestamp { secs: 59, nanos: 2_000_000_000 }.is_valid());
    assert!(!Timestamp { secs: 0, nanos: u32::MAX }.is_valid());
}

#[test]
fn instants_are_ordered_by_seconds_then_nanoseconds() {
    let early = Timestamp { secs: 10, nanos: 900 };
    let late = Timestamp { secs: 11, nanos: 0 };
    let later = Timestamp { secs: 11, nanos: 1 };
    assert!(early.is_not_after(&early));
    assert!(early.is_not_after(&late));
    assert!(late.is_not_after(&later));
    assert!(!late.is_not_after(&early));
    assert!(!later.is_not_after(&late));
    assert!(Timestamp { secs: -1, nanos: 999_999_999 }.is_not_after(&Timestamp { secs: 0, nanos: 0 }));
}

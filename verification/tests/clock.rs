use openshard::clock::{Timestamp, FIRST_SECOND, LAST_SECOND};

fn at(secs: i64, nanos: u32) -> Timestamp {
    Timestamp::new(secs, nanos).unwrap()
}

#[test]
fn calendar_bounds() {
    assert!(Timestamp::new(FIRST_SECOND, 0).is_some());
    assert!(Timestamp::new(FIRST_SECOND - 1, 0).is_none());
    assert!(Timestamp::new(LAST_SECOND, 999_999_999).is_some());
    assert!(Timestamp::new(LAST_SECOND, 1_999_999_999).is_some());
    assert!(Timestamp::new(LAST_SECOND + 1, 0).is_none());
    assert!(Timestamp::new(i64::MIN, 0).is_none());
    assert!(Timestamp::new(i64::MAX, 0).is_none());
}

#[test]
fn leap_seconds_end_a_minute() {
    assert!(Timestamp::new(59, 1_000_000_000).is_some());
    assert!(Timestamp::new(58, 1_000_000_000).is_none());
    assert!(Timestamp::new(-1, 1_999_999_999).is_some());
    assert!(Timestamp::new(59, 2_000_000_000).is_none());
    assert!(Timestamp::new(0, 999_999_999).is_some());
    assert!(Timestamp::new(0, 1_000_000_000).is_none());
}

#[test]
fn parts_of_an_instant() {
    assert_eq!(at(7, 8).seconds(), 7);
    assert_eq!(at(7, 8).nanoseconds(), 8);
    let now = Timestamp::now();
    assert!(now.seconds() > 1_700_000_000);
    assert!(now.nanoseconds() < 1_000_000_000);
}

#[test]
fn seconds_are_rounded_toward_zero() {
    assert_eq!(at(10, 0).seconds_since(&at(5, 0)), 5);
    assert_eq!(at(10, 0).seconds_since(&at(5, 1)), 4);
    assert_eq!(at(5, 1).seconds_since(&at(10, 0)), -4);
    assert_eq!(at(5, 0).seconds_since(&at(10, 0)), -5);
    assert_eq!(at(5, 0).seconds_since(&at(5, 999)), 0);
    assert_eq!(at(LAST_SECOND, 0).seconds_since(&at(FIRST_SECOND, 0)), LAST_SECOND - FIRST_SECOND);
}

#[test]
fn leap_seconds_are_counted_by_the_time_of_day() {
    let leap = at(59, 1_500_000_000);
    assert_eq!(leap.seconds_since(&at(59, 0)), 1);
    assert_eq!(at(60, 0).seconds_since(&leap), 0);
    assert_eq!(at(61, 500_000_000).seconds_since(&leap), 2);
    assert_eq!(leap.seconds_since(&at(61, 500_000_000)), -2);
    assert_eq!(leap.seconds_since(&at(0, 0)), 60);
    assert_eq!(at(86_400, 0).seconds_since(&leap), 86_339);
}

#[test]
fn instants_are_ordered() {
    assert!(at(5, 1).comes_after(&at(5, 0)));
    assert!(at(6, 0).comes_after(&at(5, 9)));
    assert!(!at(5, 0).comes_after(&at(5, 0)));
    assert!(!at(5, 9).comes_after(&at(6, 0)));
}

#[test]
fn texts_of_instants() {
    assert_eq!(at(0, 0).to_text(), "1970-01-01T00:00:00+00:00");
    assert_eq!(at(1_700_000_000, 120_000_000).to_text(), "2023-11-14T22:13:20.120+00:00");
    assert_eq!(Timestamp::from_text("1970-01-01T00:00:07Z"), Some(at(7, 0)));
    assert_eq!(Timestamp::from_text("1970-01-01T00:00:07.5Z"), Some(at(7, 500_000_000)));
    assert_eq!(Timestamp::from_text("soon"), None);
    assert_eq!(Timestamp::from_text(""), None);
}

#[test]
fn texts_of_instants_are_read_back() {
    for t in [
        at(0, 0),
        at(-1, 999_999_999),
        at(59, 1_000_000_000),
        at(59, 1_999_999_999),
        at(1_700_000_000, 1),
        at(1_700_000_000, 1_000),
        at(253_402_300_800, 0),
        at(-62_167_219_201, 5),
        at(FIRST_SECOND, 0),
        at(FIRST_SECOND + 59, 1_000_000_001),
        at(LAST_SECOND, 1_999_999_999),
    ] {
        assert_eq!(Timestamp::from_text(&t.to_text()), Some(t));
    }
}

use ensure_update::freshness::{is_due, is_recent};
use ensure_update::instant::{
    elapsed, span_of_hours, Instant, MAX_NANOSECOND, MIN_NANOSECOND, NANOSECONDS_PER_HOUR,
};
use ensure_update::table::StateMapping;

const NOW: i128 = 1_790_000_000_123_456_789;

fn at(nanosecond: i128) -> Instant {
    Instant::from_nanosecond(nanosecond).expect("instant in range")
}

fn table_with(name: &str, nanosecond: i128) -> StateMapping {
    let mut table = StateMapping::new();
    table.insert(name.to_string(), at(nanosecond));
    table
}

#[test]
fn empty_table_is_due() {
    let table = StateMapping::new();
    assert!(is_due(&table, "foo", 8, at(NOW)));
    assert!(!is_recent(&table, "foo", 8, at(NOW)));
}

#[test]
fn unknown_repository_is_due_whatever_the_age() {
    let table = table_with("bar", NOW);
    for max_age in [i32::MIN, -1, 0, 1, 8, i32::MAX] {
        assert!(is_due(&table, "foo", max_age, at(NOW)));
    }
}

#[test]
fn updated_two_hours_ago_is_not_due() {
    let table = table_with("foo", NOW - 2 * NANOSECONDS_PER_HOUR);
    assert!(!is_due(&table, "foo", 8, at(NOW)));
    assert!(is_recent(&table, "foo", 8, at(NOW)));
}

#[test]
fn updated_ten_hours_ago_is_due() {
    let table = table_with("foo", NOW - 10 * NANOSECONDS_PER_HOUR);
    assert!(is_due(&table, "foo", 8, at(NOW)));
    assert!(!is_recent(&table, "foo", 8, at(NOW)));
}

#[test]
fn due_exactly_when_the_age_is_reached() {
    let eight: i128 = 8 * NANOSECONDS_PER_HOUR;
    assert!(is_due(&table_with("foo", NOW - eight), "foo", 8, at(NOW)));
    assert!(!is_due(&table_with("foo", NOW - eight + 1), "foo", 8, at(NOW)));
    assert!(is_due(&table_with("foo", NOW - eight - 1), "foo", 8, at(NOW)));
}

#[test]
fn instant_ahead_of_the_clock_counts_by_its_distance() {
    let eight: i128 = 8 * NANOSECONDS_PER_HOUR;
    assert!(!is_due(&table_with("foo", NOW + 2 * NANOSECONDS_PER_HOUR), "foo", 8, at(NOW)));
    assert!(is_due(&table_with("foo", NOW + 10 * NANOSECONDS_PER_HOUR), "foo", 8, at(NOW)));
    assert!(is_due(&table_with("foo", NOW + eight), "foo", 8, at(NOW)));
    assert!(!is_due(&table_with("foo", NOW + eight - 1), "foo", 8, at(NOW)));
}

#[test]
fn zero_or_negative_age_is_always_due() {
    let table = table_with("foo", NOW);
    assert!(is_due(&table, "foo", 0, at(NOW)));
    assert!(is_due(&table, "foo", -1, at(NOW)));
    assert!(is_due(&table, "foo", i32::MIN, at(NOW)));
    assert!(!is_due(&table, "foo", 1, at(NOW)));
}

#[test]
fn only_the_named_row_counts() {
    let mut table = table_with("foo", NOW - 10 * NANOSECONDS_PER_HOUR);
    table.insert("bar".to_string(), at(NOW));
    assert!(is_due(&table, "foo", 8, at(NOW)));
    assert!(!is_due(&table, "bar", 8, at(NOW)));
}

#[test]
fn elapsed_is_the_distance_in_nanoseconds() {
    assert_eq!(elapsed(at(5), at(12)), 7);
    assert_eq!(elapsed(at(12), at(5)), 7);
    assert_eq!(elapsed(at(-1_500_000_000), at(2_250_000_000)), 3_750_000_000);
    assert_eq!(elapsed(at(NOW), at(NOW)), 0);
    assert_eq!(elapsed(at(NOW - 2 * NANOSECONDS_PER_HOUR), at(NOW)), 7_200_000_000_000);
}

#[test]
fn elapsed_spans_the_whole_range() {
    let whole: i128 = 631_107_230_401_999_999_999;
    assert_eq!(elapsed(at(MIN_NANOSECOND), at(MAX_NANOSECOND)), whole);
    assert_eq!(elapsed(at(MAX_NANOSECOND), at(MIN_NANOSECOND)), whole);
}

#[test]
fn hours_are_3600_seconds() {
    assert_eq!(span_of_hours(1), 3_600_000_000_000);
    assert_eq!(span_of_hours(8), 28_800_000_000_000);
    assert_eq!(span_of_hours(0), 0);
    assert_eq!(span_of_hours(-3), -10_800_000_000_000);
    assert_eq!(span_of_hours(i32::MAX), 7_730_941_129_200_000_000_000);
    assert_eq!(span_of_hours(i32::MIN), -7_730_941_132_800_000_000_000);
}

#[test]
fn instant_range_is_that_of_a_timestamp() {
    assert_eq!(MIN_NANOSECOND, jiff::Timestamp::MIN.as_nanosecond());
    assert_eq!(MAX_NANOSECOND, jiff::Timestamp::MAX.as_nanosecond());
    assert!(Instant::from_nanosecond(MIN_NANOSECOND).is_some());
    assert!(Instant::from_nanosecond(MIN_NANOSECOND - 1).is_none());
    assert!(Instant::from_nanosecond(MAX_NANOSECOND).is_some());
    assert!(Instant::from_nanosecond(MAX_NANOSECOND + 1).is_none());
    assert!(Instant::from_nanosecond(i128::MAX).is_none());
    assert!(Instant::from_nanosecond(i128::MIN).is_none());
    assert_eq!(at(NOW).as_nanosecond(), NOW);
    assert_eq!(at(-7).as_nanosecond(), -7);
}

#[test]
fn recent_agrees_with_signed_durations() {
    let offsets: [i128; 10] = [
        0,
        1,
        -1,
        8 * NANOSECONDS_PER_HOUR - 1,
        8 * NANOSECONDS_PER_HOUR,
        8 * NANOSECONDS_PER_HOUR + 1,
        -8 * NANOSECONDS_PER_HOUR + 1,
        -8 * NANOSECONDS_PER_HOUR,
        999_999_999,
        -1_000_000_001,
    ];
    for offset in offsets {
        for max_age in [-8, 0, 1, 8, 9] {
            let then = jiff::Timestamp::from_nanosecond(NOW + offset).unwrap();
            let now = jiff::Timestamp::from_nanosecond(NOW).unwrap();
            let expected =
                jiff::SignedDuration::from_hours(max_age as i64) > then.duration_until(now).abs();
            let table = table_with("foo", NOW + offset);
            assert_eq!(is_recent(&table, "foo", max_age, at(NOW)), expected);
            assert_eq!(is_due(&table, "foo", max_age, at(NOW)), !expected);
        }
    }
}

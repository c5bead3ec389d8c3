//! Instants on the UTC time line and the signed spans between them, both
//! counted in nanoseconds. Span arithmetic is done by `jiff`.

use vstd::prelude::*;

verus! {

/// Nanoseconds in one hour.
pub const NANOSECONDS_PER_HOUR: i128 = 3_600_000_000_000;

/// The earliest instant, in nanoseconds since the Unix epoch: the start of
/// `jiff::Timestamp::MIN`, in year -9999.
pub const MIN_NANOSECOND: i128 = -377_705_023_201_000_000_000;

/// The latest instant, in nanoseconds since the Unix epoch: the last
/// nanosecond of `jiff::Timestamp::MAX`, in year 9999.
pub const MAX_NANOSECOND: i128 = 253_402_207_200_999_999_999;

/// The widest span, in nanoseconds, that a `jiff::SignedDuration` holds in
/// either direction and can still negate: `i64::MAX` seconds and 999,999,999
/// nanoseconds.
pub const MAX_SPAN: i128 = 9_223_372_036_854_775_807_999_999_999;

/// The most hours, in either direction, whose seconds fit an `i64`.
pub const MAX_HOURS: i64 = 2_562_047_788_015_215;

/// A point in time with nanosecond precision, within the range that a
/// `jiff::Timestamp` covers.
#[derive(Clone, Copy, Debug, PartialEq, Eq, Structural)]
pub struct Instant {
    nanosecond: i128,
}

impl View for Instant {
    type V = int;

    /// Nanoseconds since the Unix epoch; negative before it.
    closed spec fn view(&self) -> int {
        self.nanosecond as int
    }
}

impl Instant {
    #[verifier::type_invariant]
    spec fn in_range(self) -> bool {
        MIN_NANOSECOND <= self.nanosecond <= MAX_NANOSECOND
    }

    /// The instant `nanosecond` nanoseconds after the Unix epoch, or `None`
    /// where that lies outside the supported range.
    pub fn from_nanosecond(nanosecond: i128) -> (instant: Option<Instant>)
        ensures
            instant is Some <==> MIN_NANOSECOND <= nanosecond <= MAX_NANOSECOND,
            instant matches Some(at) ==> at@ == nanosecond,
    {
        if MIN_NANOSECOND <= nanosecond && nanosecond <= MAX_NANOSECOND {
            Some(Instant { nanosecond })
        } else {
            None
        }
    }

    /// Nanoseconds since the Unix epoch.
    pub fn as_nanosecond(self) -> (nanosecond: i128)
        ensures
            nanosecond == self@,
            MIN_NANOSECOND <= nanosecond <= MAX_NANOSECOND,
    {
        proof {
            use_type_invariant(self);
        }
        self.nanosecond
    }
}

/// The signed span from `from` to `to`, in nanoseconds, by
/// `jiff::Timestamp::duration_until`: the exact difference of the two,
/// positive where `to` is the later one. Each timestamp is rebuilt from the
/// nanosecond count of its instant, which the invariant of `Instant` keeps
/// within the range of a timestamp, and the span is read back with
/// `SignedDuration::as_nanos`.
#[verifier::external_body]
fn duration_until(from: Instant, to: Instant) -> (span: i128)
    ensures
        span == to@ - from@,
{
    let start = jiff::Timestamp::from_nanosecond(from.nanosecond).unwrap();
    let end = jiff::Timestamp::from_nanosecond(to.nanosecond).unwrap();
    start.duration_until(end).as_nanos()
}

/// The length of `span` without its sign, by `jiff::SignedDuration::abs`.
/// The bound keeps the span within what a `SignedDuration` can hold and
/// negate.
#[verifier::external_body]
fn duration_abs(span: i128) -> (length: i128)
    requires
        -MAX_SPAN <= span <= MAX_SPAN,
    ensures
        length == if span < 0 { -span } else { span as int },
{
    jiff::SignedDuration::from_nanos_i128(span).abs().as_nanos()
}

/// The span of `hours` whole hours in nanoseconds, by
/// `jiff::SignedDuration::from_hours`, which takes an hour for 3,600
/// seconds. The bound keeps the seconds within an `i64`.
#[verifier::external_body]
fn duration_from_hours(hours: i64) -> (span: i128)
    requires
        -MAX_HOURS <= hours <= MAX_HOURS,
    ensures
        span == hours * NANOSECONDS_PER_HOUR,
{
    jiff::SignedDuration::from_hours(hours).as_nanos()
}

/// The time between two instants, whichever is the later: `|b - a|` in
/// nanoseconds.
pub open spec fn elapsed_between(a: int, b: int) -> int {
    if a <= b {
        b - a
    } else {
        a - b
    }
}

/// The span of `hours` hours in nanoseconds.
pub open spec fn hours_span(hours: int) -> int {
    hours * NANOSECONDS_PER_HOUR
}

/// The time between two instants does not depend on which of them is named
/// first, and is never negative: an instant that lies ahead of the clock
/// counts like one that lies as far behind it.
pub proof fn lemma_elapsed_ignores_direction(a: int, b: int)
    ensures
        elapsed_between(a, b) == elapsed_between(b, a),
        elapsed_between(a, b) >= 0,
        elapsed_between(a, b) == 0 <==> a == b,
{
}

/// The time that lies between `earlier` and `later`, in nanoseconds,
/// whichever of the two is in fact the later one.
pub fn elapsed(earlier: Instant, later: Instant) -> (length: i128)
    ensures
        length == elapsed_between(earlier@, later@),
{
    proof {
        use_type_invariant(earlier);
        use_type_invariant(later);
    }
    let span: i128 = duration_until(earlier, later);
    duration_abs(span)
}

/// The span of `hours` hours in nanoseconds.
pub fn span_of_hours(hours: i32) -> (span: i128)
    ensures
        span == hours_span(hours as int),
{
    duration_from_hours(hours as i64)
}

} // verus!

//! Moments: how far apart they are, and how they read.

use crate::daemon::Timestamp;
use vstd::prelude::*;

verus! {

/// The first second that a moment can have: the first that the calendar reaches.
pub const FIRST_SECOND: i64 = -8_334_601_228_800;

/// The last second that a moment can have: a day before the last that the
/// calendar reaches.
pub const LAST_SECOND: i64 = 8_210_266_790_399;

/// Whether `t` is a moment that the calendar reaches in every time zone, and no
/// leap second.
pub open spec fn valid(t: Timestamp) -> bool {
    FIRST_SECOND <= t.seconds <= LAST_SECOND && t.nanos < 1_000_000_000
}

/// Whether `a` is not after `b`.
pub open spec fn not_after(a: Timestamp, b: Timestamp) -> bool {
    a.seconds < b.seconds || a.seconds == b.seconds && a.nanos <= b.nanos
}

/// Whether `a` is not after `b`.
pub fn is_not_after(a: Timestamp, b: Timestamp) -> (r: bool)
    ensures
        r == not_after(a, b),
{
    a.seconds < b.seconds || a.seconds == b.seconds && a.nanos <= b.nanos
}

/// The full seconds from `earlier` to `later`.
pub open spec fn seconds_between(later: Timestamp, earlier: Timestamp) -> int {
    later.seconds - earlier.seconds - if later.nanos < earlier.nanos {
        1int
    } else {
        0int
    }
}

/// The full days from `earlier` to `later`.
///
/// Calls `chrono::DateTime::signed_duration_since` and
/// `chrono::TimeDelta::num_days`. Stated of the result: it is the number of
/// full seconds between the two moments, divided by the seconds of a day and
/// rounded down.
#[verifier::external_body]
pub(crate) fn days_between(later: Timestamp, earlier: Timestamp) -> (days: i64)
    requires
        valid(later),
        valid(earlier),
        not_after(earlier, later),
    ensures
        days == seconds_between(later, earlier) / 86_400,
{
    let later = chrono::DateTime::from_timestamp(later.seconds, later.nanos).unwrap();
    let earlier = chrono::DateTime::from_timestamp(earlier.seconds, earlier.nanos).unwrap();
    later.signed_duration_since(earlier).num_days()
}

/// Whether `offset` is an offset from UTC, in seconds.
pub open spec fn is_offset(offset: int) -> bool {
    -86_400 < offset < 86_400
}

/// The offset of local time from UTC at `t`, in seconds.
///
/// Calls `chrono::DateTime::with_timezone` with `chrono::Local`. Stated of the
/// result: it is less than a day. Not stated: what it is, for that is up to the
/// time zone of the machine.
#[verifier::external_body]
pub(crate) fn local_offset(t: Timestamp) -> (offset: i32)
    requires
        valid(t),
    ensures
        is_offset(offset as int),
{
    let utc = chrono::DateTime::from_timestamp(t.seconds, t.nanos).unwrap();
    utc.with_timezone(&chrono::Local).offset().local_minus_utc()
}

/// A date with the time of day.
pub const DATE_AND_TIME: &'static str = "%b %-d, %Y %-I:%M %p";

/// A date alone.
pub const DATE: &'static str = "%Y-%m-%d";

/// The moment `t` as it reads at `offset` seconds from UTC, in the given
/// pattern.
pub uninterp spec fn formatted(t: Timestamp, offset: int, pattern: Seq<char>) -> Seq<char>;

/// The moment `t` as it reads at `offset` seconds from UTC, in the given
/// pattern.
///
/// Calls `chrono::DateTime::with_timezone` with a `chrono::FixedOffset`, and
/// `chrono::DateTime::format`. Stated of the result: it depends on the moment,
/// the offset and the pattern alone. Not stated: what it is.
#[verifier::external_body]
pub(crate) fn format_at(t: Timestamp, offset: i32, pattern: &str) -> (r: String)
    requires
        valid(t),
        is_offset(offset as int),
        pattern@ == DATE_AND_TIME@ || pattern@ == DATE@,
    ensures
        r@ == formatted(t, offset as int, pattern@),
{
    let utc = chrono::DateTime::from_timestamp(t.seconds, t.nanos).unwrap();
    let zone = chrono::FixedOffset::east_opt(offset).unwrap();
    utc.with_timezone(&zone).format(pattern).to_string()
}

/// Whether `text` is how `t` reads in local time, in the given pattern.
pub open spec fn reads_locally(text: Seq<char>, t: Timestamp, pattern: Seq<char>) -> bool {
    exists|offset: int| is_offset(offset) && text == #[trigger] formatted(t, offset, pattern)
}

/// How `t` reads at `offset` seconds from UTC, in the given pattern.
pub fn format_with_offset(t: Timestamp, offset: i32, pattern: &str) -> (r: String)
    requires
        valid(t),
        is_offset(offset as int),
        pattern@ == DATE_AND_TIME@ || pattern@ == DATE@,
    ensures
        r@ == formatted(t, offset as int, pattern@),
{
    format_at(t, offset, pattern)
}

/// How `t` reads in local time, in the given pattern.
pub fn format_local(t: Timestamp, pattern: &str) -> (r: String)
    requires
        valid(t),
        pattern@ == DATE_AND_TIME@ || pattern@ == DATE@,
    ensures
        reads_locally(r@, t, pattern@),
{
    let offset: i32 = local_offset(t);
    format_with_offset(t, offset, pattern)
}

} // verus!

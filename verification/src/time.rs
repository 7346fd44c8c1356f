//! Points in time, spans of time, and the short texts that show them.
//!
//! Both [`Instant`] and [`TimeDelta`] count whole microseconds in an `i64`.
//! Their views are plain integers, so contracts speak of sums and orders of
//! integers.

use vstd::prelude::*;
use crate::text::{decimal, decimal_string, magnitude, push_decimal, signed_decimal};

verus! {

/// Microseconds in a millisecond.
pub const MICROS_PER_MILLISECOND: i64 = 1_000;

/// Microseconds in a second.
pub const MICROS_PER_SECOND: i64 = 1_000_000;

/// Microseconds in a minute.
pub const MICROS_PER_MINUTE: i64 = 60_000_000;

/// Microseconds in an hour.
pub const MICROS_PER_HOUR: i64 = 3_600_000_000;

/// Microseconds in a day of twenty-four hours.
pub const MICROS_PER_DAY: i64 = 86_400_000_000;

/// A point in time: microseconds since 1970-01-01 00:00:00 UTC, leap seconds
/// not counted. Negative values lie before that moment.
#[derive(Clone, Copy, Debug, PartialEq, Eq, Hash, Structural)]
pub struct Instant {
    pub micros: i64,
}

/// A signed span of time in microseconds.
#[derive(Clone, Copy, Debug, PartialEq, Eq, Hash, Structural)]
pub struct TimeDelta {
    pub micros: i64,
}

impl View for Instant {
    type V = int;

    open spec fn view(&self) -> int {
        self.micros as int
    }
}

impl View for TimeDelta {
    type V = int;

    open spec fn view(&self) -> int {
        self.micros as int
    }
}

/// Whether `n` can be held by an `i64`.
pub open spec fn fits_i64(n: int) -> bool {
    i64::MIN <= n <= i64::MAX
}

/// The quotient of `a` by a positive `b`, rounded towards zero.
pub open spec fn truncated_quotient(a: int, b: int) -> int {
    if a >= 0 {
        a / b
    } else {
        -((-a) / b)
    }
}

/// Reads the system clock.
///
/// Trusted. The body calls `chrono::Utc::now` and reads the result with
/// `DateTime::timestamp_micros`. What comes back depends on the machine, so
/// the contract promises nothing about it.
#[verifier::external_body]
pub(crate) fn clock_micros() -> (micros: i64) {
    chrono::Utc::now().timestamp_micros()
}

impl Instant {
    /// The instant `micros` microseconds after the epoch.
    pub open spec fn at(micros: i64) -> Instant {
        Instant { micros }
    }

    /// The instant `micros` microseconds after the epoch.
    pub fn from_micros(micros: i64) -> (t: Self)
        ensures
            t@ == micros,
    {
        Instant { micros }
    }

    /// The instant `seconds` whole seconds after the epoch.
    pub fn from_secs(seconds: i64) -> (t: Self)
        requires
            fits_i64(seconds * MICROS_PER_SECOND),
        ensures
            t@ == seconds * MICROS_PER_SECOND,
    {
        Instant { micros: seconds * MICROS_PER_SECOND }
    }

    /// Microseconds since the epoch.
    pub fn timestamp_micros(&self) -> (micros: i64)
        ensures
            micros == self@,
    {
        self.micros
    }

    /// Whether this instant lies strictly after `other`.
    pub fn is_after(&self, other: Instant) -> (later: bool)
        ensures
            later == (self@ > other@),
    {
        self.micros > other.micros
    }

    /// This instant moved by `delta`, or nothing where the result is outside
    /// the range of `Instant`.
    pub open spec fn plus(self, delta: TimeDelta) -> Option<Instant> {
        if fits_i64(self@ + delta@) {
            Some(Instant { micros: (self@ + delta@) as i64 })
        } else {
            None
        }
    }

    /// This instant moved by `delta`, or `None` where the result is outside
    /// the range of `Instant`.
    pub fn checked_add(&self, delta: TimeDelta) -> (sum: Option<Instant>)
        ensures
            sum == self.plus(delta),
    {
        match self.micros.checked_add(delta.micros) {
            Some(micros) => Some(Instant { micros }),
            None => None,
        }
    }
}

impl TimeDelta {
    /// A span of `micros` microseconds.
    pub fn microseconds(micros: i64) -> (d: Self)
        ensures
            d@ == micros,
    {
        TimeDelta { micros }
    }

    /// A span of `milliseconds` milliseconds.
    pub fn milliseconds(milliseconds: i64) -> (d: Self)
        requires
            fits_i64(milliseconds * MICROS_PER_MILLISECOND),
        ensures
            d@ == milliseconds * MICROS_PER_MILLISECOND,
    {
        TimeDelta { micros: milliseconds * MICROS_PER_MILLISECOND }
    }

    /// A span of `seconds` seconds.
    pub fn seconds(seconds: i64) -> (d: Self)
        requires
            fits_i64(seconds * MICROS_PER_SECOND),
        ensures
            d@ == seconds * MICROS_PER_SECOND,
    {
        TimeDelta { micros: seconds * MICROS_PER_SECOND }
    }

    /// A span of `minutes` minutes.
    pub fn minutes(minutes: i64) -> (d: Self)
        requires
            fits_i64(minutes * MICROS_PER_MINUTE),
        ensures
            d@ == minutes * MICROS_PER_MINUTE,
    {
        TimeDelta { micros: minutes * MICROS_PER_MINUTE }
    }

    /// A span of `hours` hours.
    pub fn hours(hours: i64) -> (d: Self)
        requires
            fits_i64(hours * MICROS_PER_HOUR),
        ensures
            d@ == hours * MICROS_PER_HOUR,
    {
        TimeDelta { micros: hours * MICROS_PER_HOUR }
    }

    /// A span of `days` days of twenty-four hours.
    pub fn days(days: i64) -> (d: Self)
        requires
            fits_i64(days * MICROS_PER_DAY),
        ensures
            d@ == days * MICROS_PER_DAY,
    {
        TimeDelta { micros: days * MICROS_PER_DAY }
    }

    /// The span in microseconds.
    pub fn num_microseconds(&self) -> (micros: i64)
        ensures
            micros == self@,
    {
        self.micros
    }

    /// The whole seconds in the span, rounded towards zero.
    pub fn num_seconds(&self) -> (seconds: i64)
        ensures
            seconds == truncated_quotient(self@, MICROS_PER_SECOND as int),
    {
        if self.micros >= 0 {
            self.micros / MICROS_PER_SECOND
        } else {
            let size: u64 = magnitude(self.micros);
            let whole: u64 = size / 1_000_000;
            -(whole as i64)
        }
    }

    /// Whether the span is longer than nothing.
    pub fn is_positive(&self) -> (positive: bool)
        ensures
            positive == (self@ > 0),
    {
        self.micros > 0
    }
}

/// The chat markup that shows a Unix timestamp (in seconds) in the style
/// `style`: `<t:` in front of the decimal timestamp, a colon, the style and
/// `>` behind it.
pub open spec fn timestamp_markup(timestamp: int, style: Seq<char>) -> Seq<char> {
    "<t:"@ + signed_decimal(timestamp) + ":"@ + style + ">"@
}

/// Writes the markup of `timestamp` in the style `style`.
fn markup(timestamp: i64, style: &str) -> (text: String)
    ensures
        text@ == timestamp_markup(timestamp as int, style@),
{
    let mut text = String::from_str("<t:");
    let number = decimal_string(timestamp);
    text.append(number.as_str());
    text.append(":");
    text.append(style);
    text.append(">");
    text
}

/// The markup that a chat client shows as a relative time, such as
/// "12 minutes ago" or "in 2 hours".
pub fn get_relative_timestamp(timestamp: &i64) -> (text: String)
    ensures
        text@ == timestamp_markup(*timestamp as int, "R"@),
{
    markup(*timestamp, "R")
}

/// The markup that a chat client shows as a long date, such as
/// "20 April 2021".
pub fn get_long_date(timestamp: &i64) -> (text: String)
    ensures
        text@ == timestamp_markup(*timestamp as int, "D"@),
{
    markup(*timestamp, "D")
}

/// A count with its unit, such as `3 hours`: the unit gets an `s` where
/// `plural` says so.
pub open spec fn counted(count: nat, unit: Seq<char>, plural: bool) -> Seq<char> {
    decimal(count) + " "@ + unit + if plural {
        "s"@
    } else {
        Seq::<char>::empty()
    }
}

/// A text with one more part behind it, where the part is `present`. Parts
/// are set apart by a comma and a space.
pub open spec fn with_part(text: Seq<char>, present: bool, part: Seq<char>) -> Seq<char> {
    if !present {
        text
    } else if text.len() == 0 {
        part
    } else {
        text + ", "@ + part
    }
}

/// A number of seconds in words: the days, hours, minutes and seconds it is
/// made of, largest first, leaving out every unit that counts zero. Nothing
/// at all reads `0 seconds`.
pub open spec fn pretty_seconds(total: nat) -> Seq<char> {
    let days = total / 86_400;
    let hours = (total % 86_400) / 3_600;
    let minutes = (total % 3_600) / 60;
    let seconds = total % 60;
    let with_days = with_part(Seq::<char>::empty(), days > 0, counted(days, "day"@, days > 1));
    let with_hours = with_part(with_days, hours > 0, counted(hours, "hour"@, hours > 1));
    let with_minutes = with_part(
        with_hours,
        minutes > 0,
        counted(minutes, "minute"@, minutes > 1),
    );
    with_part(
        with_minutes,
        seconds > 0 || with_minutes.len() == 0,
        counted(seconds, "second"@, seconds != 1),
    )
}

/// A signed number of seconds in words: [`pretty_seconds`] of its size, with
/// a minus sign in front where it is negative.
pub open spec fn pretty_delta(seconds: int) -> Seq<char> {
    if seconds < 0 {
        "-"@ + pretty_seconds((-seconds) as nat)
    } else {
        pretty_seconds(seconds as nat)
    }
}

/// Appends a counted unit to `text`, behind a comma where `text` already
/// holds a part.
fn push_part(text: &mut String, count: u64, unit: &str, plural: bool)
    ensures
        final(text)@ == with_part(old(text)@, true, counted(count as nat, unit@, plural)),
{
    if !text.as_str().is_empty() {
        text.append(", ");
    }
    push_decimal(text, count);
    text.append(" ");
    text.append(unit);
    if plural {
        text.append("s");
    }
    proof {
        let part = counted(count as nat, unit@, plural);
        if old(text)@.len() == 0 {
            assert(text@ =~= part);
        } else {
            assert(text@ =~= old(text)@ + ", "@ + part);
        }
    }
}

/// Writes a span of time in words, down to the second: `1 day, 2 hours`,
/// `1 minute, 1 second`, `0 seconds`. What is less than a second is dropped,
/// and a negative span gets a minus sign in front.
pub fn pretty_time_delta(delta: &TimeDelta) -> (text: String)
    ensures
        text@ == pretty_delta(truncated_quotient(delta@, MICROS_PER_SECOND as int)),
{
    let signed: i64 = delta.num_seconds();
    let total: u64 = magnitude(signed);
    let days: u64 = total / 86_400;
    let hours: u64 = (total % 86_400) / 3_600;
    let minutes: u64 = (total % 3_600) / 60;
    let seconds: u64 = total % 60;
    let mut text = String::new();
    if days > 0 {
        push_part(&mut text, days, "day", days > 1);
    }
    if hours > 0 {
        push_part(&mut text, hours, "hour", hours > 1);
    }
    if minutes > 0 {
        push_part(&mut text, minutes, "minute", minutes > 1);
    }
    if seconds > 0 || text.as_str().is_empty() {
        push_part(&mut text, seconds, "second", seconds != 1);
    }
    assert(text@ == pretty_seconds(total as nat));
    if signed < 0 {
        let mut negative = String::from_str("-");
        negative.append(text.as_str());
        negative
    } else {
        text
    }
}

} // verus!

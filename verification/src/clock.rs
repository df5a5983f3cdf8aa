//! Wall-clock instants: reading date-time text and placing segments in time.
//!
//! An instant is a count of milliseconds since the Unix epoch, in UTC.
//! Reading and writing the text forms is left to `chrono`; everything that
//! is computed from instants is verified here.

use vstd::prelude::*;

verus! {

#[verifier::external_type_specification]
#[verifier::external_body]
pub struct ExParseError(chrono::ParseError);

/// The instant that `chrono::DateTime::parse_from_rfc3339` reads from `text`,
/// in milliseconds since the epoch; none where it reports an error.
pub uninterp spec fn rfc3339_instant(text: Seq<char>) -> Option<i64>;

/// The instant that `chrono::DateTime::parse_from_rfc2822` reads from `text`,
/// in milliseconds since the epoch; none where it reports an error.
pub uninterp spec fn rfc2822_instant(text: Seq<char>) -> Option<i64>;

/// The instant that `chrono::DateTime::parse_from_str` reads from `text`
/// under the strftime `pattern`, in milliseconds since the epoch; none where
/// it reports an error.
pub uninterp spec fn pattern_instant(text: Seq<char>, pattern: Seq<char>) -> Option<i64>;

/// The text that `chrono::DateTime::to_rfc3339_opts` writes for `instant` in
/// UTC with three fractional digits; `use_z` is handed on unchanged. None
/// where `chrono::DateTime::from_timestamp_millis` cannot represent `instant`.
pub uninterp spec fn rfc3339_text(instant: i64, use_z: bool) -> Option<Seq<char>>;

/// Calls `chrono::DateTime::parse_from_rfc3339` and reduces the date-time it
/// returns to milliseconds with `timestamp_millis`. Nothing is claimed of the
/// outcome but that it is the one named by [`rfc3339_instant`].
#[verifier::external_body]
fn parse_rfc3339(text: &str) -> (r: Result<i64, chrono::ParseError>)
    ensures
        r is Ok <==> rfc3339_instant(text@) is Some,
        r matches Ok(t) ==> rfc3339_instant(text@) == Some(t),
{
    match chrono::DateTime::parse_from_rfc3339(text) {
        Ok(d) => Ok(d.timestamp_millis()),
        Err(e) => Err(e),
    }
}

/// Calls `chrono::DateTime::parse_from_rfc2822` and reduces the date-time it
/// returns to milliseconds with `timestamp_millis`. Nothing is claimed of the
/// outcome but that it is the one named by [`rfc2822_instant`].
#[verifier::external_body]
fn parse_rfc2822(text: &str) -> (r: Result<i64, chrono::ParseError>)
    ensures
        r is Ok <==> rfc2822_instant(text@) is Some,
        r matches Ok(t) ==> rfc2822_instant(text@) == Some(t),
{
    match chrono::DateTime::parse_from_rfc2822(text) {
        Ok(d) => Ok(d.timestamp_millis()),
        Err(e) => Err(e),
    }
}

/// Calls `chrono::DateTime::parse_from_str` with the given strftime pattern
/// and reduces the date-time it returns to milliseconds with
/// `timestamp_millis`. Nothing is claimed of the outcome but that it is the
/// one named by [`pattern_instant`].
#[verifier::external_body]
fn parse_with_pattern(text: &str, pattern: &str) -> (r: Result<i64, chrono::ParseError>)
    ensures
        r is Ok <==> pattern_instant(text@, pattern@) is Some,
        r matches Ok(t) ==> pattern_instant(text@, pattern@) == Some(t),
{
    match chrono::DateTime::parse_from_str(text, pattern) {
        Ok(d) => Ok(d.timestamp_millis()),
        Err(e) => Err(e),
    }
}

/// Builds the UTC date-time with `chrono::DateTime::from_timestamp_millis`
/// and writes it with `to_rfc3339_opts` at millisecond precision. Nothing is
/// claimed of the text but that it is the one named by [`rfc3339_text`].
#[verifier::external_body]
fn format_rfc3339_millis(instant: i64, use_z: bool) -> (r: Option<String>)
    ensures
        r is Some <==> rfc3339_text(instant, use_z) is Some,
        r matches Some(t) ==> rfc3339_text(instant, use_z) == Some(t@),
{
    match chrono::DateTime::from_timestamp_millis(instant) {
        Some(d) => Some(d.to_rfc3339_opts(chrono::SecondsFormat::Millis, use_z)),
        None => None,
    }
}

/// A date-time text that none of the accepted forms could read.
#[derive(Clone, Copy, Debug, PartialEq, Eq, Structural)]
pub struct DateTimeError;

/// The strftime pattern tried last: `YYYY-MM-DDTHH:MM:SS.sss±HHMM`.
pub open spec fn fallback_pattern() -> Seq<char> {
    "%Y-%m-%dT%H:%M:%S%.3f%z"@
}

/// The instant that a date-time text denotes: read as RFC 3339, else as
/// RFC 2822, else under the fallback pattern.
pub open spec fn parsed_date_time(text: Seq<char>) -> Option<i64> {
    if rfc3339_instant(text) is Some {
        rfc3339_instant(text)
    } else if rfc2822_instant(text) is Some {
        rfc2822_instant(text)
    } else {
        pattern_instant(text, fallback_pattern())
    }
}

/// Reads a wall-clock text, trying RFC 3339, RFC 2822 and the fallback
/// pattern in that order.
pub fn parse_date_time(date_time: &str) -> (r: Result<i64, DateTimeError>)
    ensures
        r is Ok <==> parsed_date_time(date_time@) is Some,
        r matches Ok(t) ==> parsed_date_time(date_time@) == Some(t),
{
    match parse_rfc3339(date_time) {
        Ok(t) => Ok(t),
        Err(_) => match parse_rfc2822(date_time) {
            Ok(t) => Ok(t),
            Err(_) => match parse_with_pattern(date_time, "%Y-%m-%dT%H:%M:%S%.3f%z") {
                Ok(t) => Ok(t),
                Err(_) => Err(DateTimeError),
            },
        },
    }
}

/// Writes an instant as RFC 3339 text with millisecond precision and a
/// numeric `+00:00` offset. None where the instant lies outside the calendar.
pub fn date_time_to_string(date_time: i64) -> (r: Option<String>)
    ensures
        r is Some <==> rfc3339_text(date_time, false) is Some,
        r matches Some(t) ==> rfc3339_text(date_time, false) == Some(t@),
{
    format_rfc3339_millis(date_time, false)
}

/// The text of a program-date-time tag for an instant: the instant as
/// [`date_time_to_string`] writes it.
pub fn make_program_date_time_tag(date_time: i64) -> (r: Option<String>)
    ensures
        r is Some <==> rfc3339_text(date_time, false) is Some,
        r matches Some(t) ==> rfc3339_text(date_time, false) == Some(t@),
{
    date_time_to_string(date_time)
}

/// Writes an instant as RFC 3339 text with millisecond precision, in UTC
/// with the `Z` suffix. None where the instant lies outside the calendar.
pub fn date_time_to_utc_string(date_time: i64) -> (r: Option<String>)
    ensures
        r is Some <==> rfc3339_text(date_time, true) is Some,
        r matches Some(t) ==> rfc3339_text(date_time, true) == Some(t@),
{
    format_rfc3339_millis(date_time, true)
}

/// `x` held within the range of `i64`.
pub open spec fn clamp_instant(x: int) -> i64 {
    if x > i64::MAX {
        i64::MAX
    } else if x < i64::MIN {
        i64::MIN
    } else {
        x as i64
    }
}

/// Where segment `k` starts if it carries no instant of its own: the running
/// anchor plus the milliseconds accumulated since. Before the first segment
/// that is `first`; after a segment with an explicit instant it is that
/// instant plus the segment's duration; after any other segment it moves on
/// by that segment's duration.
pub open spec fn next_start(timings: Seq<(Option<i64>, u64)>, first: i64, k: int) -> int
    decreases k,
{
    if k <= 0 {
        first as int
    } else {
        match timings[k - 1].0 {
            Some(t) => t + timings[k - 1].1,
            None => next_start(timings, first, k - 1) + timings[k - 1].1,
        }
    }
}

/// Where segment `k` is expected to start: at its explicit instant, else at
/// the anchor plus what has accumulated since, held within the range of
/// instants.
pub open spec fn expected_start(timings: Seq<(Option<i64>, u64)>, first: i64, k: int) -> i64 {
    match timings[k].0 {
        Some(t) => t,
        None => clamp_instant(next_start(timings, first, k)),
    }
}

/// The expected start and the duration of every segment, in playlist order.
pub open spec fn expected_timeline(timings: Seq<(Option<i64>, u64)>, first: i64) -> Seq<
    (i64, u64),
> {
    Seq::new(timings.len(), |k: int| (expected_start(timings, first, k), timings[k].1))
}

/// Places every segment in time. Each entry of `timings` gives a segment's
/// explicit instant, if it has one, and its duration in milliseconds; `first`
/// is the anchor before the first segment.
pub fn infer_timeline(timings: &Vec<(Option<i64>, u64)>, first: i64) -> (timeline: Vec<(i64, u64)>)
    ensures
        timeline@ == expected_timeline(timings@, first),
{
    let mut timeline: Vec<(i64, u64)> = Vec::new();
    // The next start, held at the largest instant once it has passed it.
    let mut next: i128 = first as i128;
    let mut k: usize = 0;
    while k < timings.len()
        invariant
            k <= timings.len(),
            i64::MIN <= next <= i64::MAX,
            i64::MIN <= next_start(timings@, first, k as int),
            next == clamp_instant(next_start(timings@, first, k as int)),
            timeline@.len() == k,
            forall|j: int|
                0 <= j < k ==> timeline@[j] == (
                    expected_start(timings@, first, j),
                    timings@[j].1,
                ),
        decreases timings.len() - k,
    {
        let (explicit, duration) = timings[k];
        let from: i128 = match explicit {
            Some(t) => {
                timeline.push((t, duration));
                t as i128
            },
            None => {
                timeline.push((next as i64, duration));
                next
            },
        };
        let sum: i128 = from + duration as i128;
        next = if sum > i64::MAX as i128 {
            i64::MAX as i128
        } else {
            sum
        };
        k += 1;
    }
    assert(timeline@ =~= expected_timeline(timings@, first));
    timeline
}

} // verus!

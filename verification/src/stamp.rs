//! Instants as text. The calendar is that of the `time` crate; what it
//! prints is named here and not spelled out.

use crate::autosave::{unix_seconds, unix_seconds_of};
use crate::notes::text_view;
use crate::strings::{decimal, decimal_of, push_decimal, push_text};
use crate::text::string_of;
use time::format_description::well_known::Rfc3339;
use time::OffsetDateTime;
use vstd::prelude::*;
use vstd::string::*;

verus! {

/// The instant `epoch`, in seconds since the Unix epoch, in the form of RFC
/// 3339 and in UTC; none where the instant is no representable date or has
/// no such form.
pub uninterp spec fn rfc3339_of(epoch: i64) -> Option<Seq<char>>;

/// Calls `OffsetDateTime::from_unix_timestamp` and `format` with the
/// well-known description `Rfc3339`. Trusted: the result is the text named
/// [`rfc3339_of`].
#[verifier::external_body]
pub(crate) fn rfc3339(epoch: i64) -> (text: Option<String>)
    ensures
        text_view(text) == rfc3339_of(epoch),
{
    OffsetDateTime::from_unix_timestamp(epoch).ok()?.format(&Rfc3339).ok()
}

/// The same for an instant in nanoseconds since the Unix epoch.
pub uninterp spec fn rfc3339_of_nanos(nanos: i128) -> Option<Seq<char>>;

/// Calls `OffsetDateTime::from_unix_timestamp_nanos` and `format` with the
/// well-known description `Rfc3339`. Trusted: the result is the text named
/// [`rfc3339_of_nanos`].
#[verifier::external_body]
pub(crate) fn rfc3339_nanos(nanos: i128) -> (text: Option<String>)
    ensures
        text_view(text) == rfc3339_of_nanos(nanos),
{
    OffsetDateTime::from_unix_timestamp_nanos(nanos).ok()?.format(&Rfc3339).ok()
}

/// The calendar date, in UTC, of the instant `epoch` in seconds since the
/// Unix epoch, as the `time` crate prints a date; none where the instant is
/// no representable date.
pub uninterp spec fn date_text_of(epoch: i64) -> Option<Seq<char>>;

/// Calls `OffsetDateTime::from_unix_timestamp`, `date` and the date's
/// `to_string`. Trusted: the result is the text named [`date_text_of`].
#[verifier::external_body]
pub(crate) fn date_text(epoch: i64) -> (text: Option<String>)
    ensures
        text_view(text) == date_text_of(epoch),
{
    Some(OffsetDateTime::from_unix_timestamp(epoch).ok()?.date().to_string())
}

/// The instant `nanos`, in nanoseconds since the Unix epoch and in UTC, as
/// the format description `description` of the `time` crate prints it; none
/// where the description is none of the crate's, the instant is no
/// representable date, or it cannot be printed so.
pub uninterp spec fn clock_text_of(description: Seq<char>, nanos: i128) -> Option<Seq<char>>;

/// Calls `time::format_description::parse` on `description`,
/// `OffsetDateTime::from_unix_timestamp_nanos` and `format`. Trusted: the
/// result is the text named [`clock_text_of`].
#[verifier::external_body]
pub(crate) fn clock_text(description: &str, nanos: i128) -> (text: Option<String>)
    ensures
        text_view(text) == clock_text_of(description@, nanos),
{
    let format = time::format_description::parse(description).ok()?;
    OffsetDateTime::from_unix_timestamp_nanos(nanos).ok()?.format(&format).ok()
}

/// The form in which the time of day is printed: hours, minutes and
/// seconds with colons between them.
pub open spec fn clock_format() -> Seq<char> {
    "[hour]:[minute]:[second]"@
}

/// What [`format_timestamp`] prints: the form of RFC 3339, or the number of
/// seconds where there is no such form.
pub open spec fn timestamp_text(epoch: i64) -> Seq<char> {
    match rfc3339_of(epoch) {
        Some(text) => text,
        None => decimal_of(epoch as int),
    }
}

/// Prints an instant in seconds since the Unix epoch.
pub fn format_timestamp(epoch: i64) -> (text: String)
    ensures
        text@ == timestamp_text(epoch),
{
    match rfc3339(epoch) {
        Some(text) => text,
        None => decimal(epoch),
    }
}

/// What [`format_epoch_date`] prints: the calendar date, or the number of
/// seconds where there is none.
pub open spec fn epoch_date_text(epoch: i64) -> Seq<char> {
    match date_text_of(epoch) {
        Some(text) => text,
        None => decimal_of(epoch as int),
    }
}

/// Prints the calendar date of an instant in seconds since the Unix epoch.
pub fn format_epoch_date(epoch: i64) -> (text: String)
    ensures
        text@ == epoch_date_text(epoch),
{
    match date_text(epoch) {
        Some(text) => text,
        None => decimal(epoch),
    }
}

/// What [`format_datetime`] prints: the form of RFC 3339, or the number of
/// whole seconds where there is no such form.
pub open spec fn datetime_text(nanos: i128) -> Seq<char> {
    match rfc3339_of_nanos(nanos) {
        Some(text) => text,
        None => decimal_of(unix_seconds_of(nanos) as int),
    }
}

/// Prints an instant in nanoseconds since the Unix epoch.
pub fn format_datetime(nanos: i128) -> (text: String)
    ensures
        text@ == datetime_text(nanos),
{
    match rfc3339_nanos(nanos) {
        Some(text) => text,
        None => decimal(unix_seconds(nanos)),
    }
}

/// What [`format_time_short`] prints: the time of day, or the number of
/// whole seconds where there is none.
pub open spec fn time_short_text(nanos: i128) -> Seq<char> {
    match clock_text_of(clock_format(), nanos) {
        Some(text) => text,
        None => decimal_of(unix_seconds_of(nanos) as int),
    }
}

/// Prints the time of day of an instant in nanoseconds since the Unix
/// epoch.
pub fn format_time_short(nanos: i128) -> (text: String)
    ensures
        text@ == time_short_text(nanos),
{
    match clock_text("[hour]:[minute]:[second]", nanos) {
        Some(text) => text,
        None => decimal(unix_seconds(nanos)),
    }
}

/// The number of nanoseconds in a second, a minute, an hour and a day.
pub const SECOND: i128 = 1_000_000_000;

pub const MINUTE: i128 = 60_000_000_000;

pub const HOUR: i128 = 3_600_000_000_000;

pub const DAY: i128 = 86_400_000_000_000;

/// `count` and a unit with ` ago` behind it.
pub open spec fn ago_text(count: int, unit: char) -> Seq<char> {
    decimal_of(count).push(unit) + seq![' ', 'a', 'g', 'o']
}

/// The words for an instant that lies in the future or less than 45
/// seconds back.
pub open spec fn just_now() -> Seq<char> {
    seq!['j', 'u', 's', 't', ' ', 'n', 'o', 'w']
}

/// How long ago `at` was when it is `now`, both in nanoseconds since the
/// Unix epoch: `just now` up to 45 seconds, whole minutes up to 90 minutes,
/// whole hours up to 36 hours, whole days up to 10 days, each at least 1,
/// and from then on the instant itself as [`format_datetime`] prints it.
pub open spec fn relative_text(at: i128, now: i128) -> Seq<char> {
    let diff = now - at;
    if diff < 45 * SECOND {
        just_now()
    } else if diff < 90 * MINUTE {
        ago_text(if diff / MINUTE as int >= 1 { diff / MINUTE as int } else { 1 }, 'm')
    } else if diff < 36 * HOUR {
        ago_text(if diff / HOUR as int >= 1 { diff / HOUR as int } else { 1 }, 'h')
    } else if diff < 10 * DAY {
        ago_text(if diff / DAY as int >= 1 { diff / DAY as int } else { 1 }, 'd')
    } else {
        datetime_text(at)
    }
}

fn ago(count: i64, unit: char) -> (text: String)
    ensures
        text@ == ago_text(count as int, unit),
{
    let mut out: Vec<char> = Vec::new();
    push_decimal(&mut out, count);
    out.push(unit);
    proof {
        reveal_strlit(" ago");
        assert(" ago"@ =~= seq![' ', 'a', 'g', 'o']);
    }
    push_text(&mut out, " ago");
    assert(out@ =~= ago_text(count as int, unit));
    string_of(&out)
}

/// Says how long ago `at` was when it is `now`.
pub fn format_relative_time(at: i128, now: i128) -> (text: String)
    ensures
        text@ == relative_text(at, now),
{
    proof {
        reveal_strlit("just now");
        assert("just now"@ =~= just_now());
    }
    if now < at {
        return String::from_str("just now");
    }
    match now.checked_sub(at) {
        None => format_datetime(at),
        Some(diff) => {
            if diff < 45 * SECOND {
                String::from_str("just now")
            } else if diff < 90 * MINUTE {
                let mins = diff / MINUTE;
                ago(if mins >= 1 { mins as i64 } else { 1 }, 'm')
            } else if diff < 36 * HOUR {
                let hours = diff / HOUR;
                ago(if hours >= 1 { hours as i64 } else { 1 }, 'h')
            } else if diff < 10 * DAY {
                let days = diff / DAY;
                ago(if days >= 1 { days as i64 } else { 1 }, 'd')
            } else {
                format_datetime(at)
            }
        },
    }
}

} // verus!

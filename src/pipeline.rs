//! The sanitization pipeline and the parse that falls back on it.
use vstd::prelude::*;
use chrono::format::ParseErrorKind as Kind;
use chrono::{Datelike, Timelike};
use crate::repair::{
    month_abbreviated, offset_repaired, remove_weekday, replace_leading_zeros, replace_month,
    weekday_removed,
};
use crate::time_field::{pad_zeros, text_result, time_padded, SanitizeError};

verus! {

/// The result of the whole pipeline on `s`: the time-of-day repair, then
/// weekday removal, month abbreviation and offset repair, in that order.
pub open spec fn sanitized(s: Seq<char>) -> Result<Seq<char>, SanitizeError> {
    match time_padded(s) {
        Ok(t) => Ok(offset_repaired(month_abbreviated(weekday_removed(t)))),
        Err(e) => Err(e),
    }
}

/// Applies the four repairs in order, each to the output of the one before.
/// Fails only when the string holds no time of day.
pub fn sanitize_rfc822_like_date(s: &str) -> (r: Result<String, SanitizeError>)
    ensures
        text_result(r) == sanitized(s@),
{
    let padded = pad_zeros(s)?;
    let no_weekday = remove_weekday(padded.as_str());
    let short_month = replace_month(no_weekday.as_str());
    Ok(replace_leading_zeros(short_month.as_str()))
}

/// A parsed date and time: local fields and the offset from UTC.
#[derive(Debug, Clone, Copy, PartialEq, Eq, Structural)]
pub struct DateTimeFields {
    pub year: i32,
    pub month: u32,
    pub day: u32,
    pub hour: u32,
    pub minute: u32,
    pub second: u32,
    /// Above 999_999_999 for a leap second.
    pub nanosecond: u32,
    /// Seconds east of UTC.
    pub offset_seconds: i32,
}

/// Why the strict parse refused a string.
#[derive(Debug, Clone, Copy, PartialEq, Eq, Structural)]
pub enum ParseFailure {
    /// A field is out of its permitted range.
    OutOfRange,
    /// No date and time has the given fields.
    Impossible,
    /// The fields do not determine a date and time.
    NotEnough,
    /// The input holds an invalid character sequence.
    Invalid,
    /// The input ended early.
    TooShort,
    /// Input remains after a complete date and time.
    TooLong,
    /// The format itself is bad.
    BadFormat,
    /// A category the parser does not document.
    Unclassified,
}

/// What the strict RFC 2822 parse gives for `s`.
pub uninterp spec fn rfc2822_parsed(s: Seq<char>) -> Result<DateTimeFields, ParseFailure>;

/// Relies on `chrono::DateTime::parse_from_rfc2822`: the strict parse, its
/// date-time read out field by field and its error by category.
#[verifier::external_body]
fn parse_rfc2822(s: &str) -> (r: Result<DateTimeFields, ParseFailure>)
    ensures
        r == rfc2822_parsed(s@),
{
    match chrono::DateTime::parse_from_rfc2822(s) {
        Ok(d) => Ok(DateTimeFields {
            year: d.year(), month: d.month(), day: d.day(),
            hour: d.hour(), minute: d.minute(), second: d.second(),
            nanosecond: d.nanosecond(), offset_seconds: d.offset().local_minus_utc(),
        }),
        Err(e) => Err(match e.kind() {
            Kind::OutOfRange => ParseFailure::OutOfRange, Kind::Impossible => ParseFailure::Impossible,
            Kind::NotEnough => ParseFailure::NotEnough, Kind::Invalid => ParseFailure::Invalid,
            Kind::TooShort => ParseFailure::TooShort, Kind::TooLong => ParseFailure::TooLong,
            Kind::BadFormat => ParseFailure::BadFormat, _ => ParseFailure::Unclassified,
        }),
    }
}

/// The outcome once the strict parse has failed with `original`: the
/// repaired parse when there was one and it succeeded, else `original`.
pub open spec fn settled(
    original: ParseFailure,
    retry: Option<Result<DateTimeFields, ParseFailure>>,
) -> Result<DateTimeFields, ParseFailure> {
    match retry {
        Some(Ok(d)) => Ok(d),
        _ => Err(original),
    }
}

/// The result of the fallback parse on `s`.
pub open spec fn fallback_parsed(s: Seq<char>) -> Result<DateTimeFields, ParseFailure> {
    match rfc2822_parsed(s) {
        Ok(d) => Ok(d),
        Err(e) => match sanitized(s) {
            Ok(t) => settled(e, Some(rfc2822_parsed(t))),
            Err(_) => settled(e, None),
        },
    }
}

/// Decides the fallback parse after a failed strict parse: a successful
/// parse of the repaired string wins; otherwise the first error stands.
pub fn settle_fallback(
    original: ParseFailure,
    retry: Option<Result<DateTimeFields, ParseFailure>>,
) -> (r: Result<DateTimeFields, ParseFailure>)
    ensures
        r == settled(original, retry),
{
    match retry {
        Some(Ok(d)) => Ok(d),
        _ => Err(original),
    }
}

/// Parses `s` as RFC 2822; when that fails, sanitizes `s` and parses once
/// more. When the second attempt fails too, or `s` cannot be sanitized, the
/// error of the first attempt is returned.
pub fn parse_from_rfc2822_with_fallback(s: &str) -> (r: Result<DateTimeFields, ParseFailure>)
    ensures
        r == fallback_parsed(s@),
{
    let original = match parse_rfc2822(s) {
        Ok(d) => return Ok(d),
        Err(e) => e,
    };
    let retry = match sanitize_rfc822_like_date(s) {
        Ok(t) => Some(parse_rfc2822(t.as_str())),
        Err(_) => None,
    };
    settle_fallback(original, retry)
}

} // verus!

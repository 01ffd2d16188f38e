//! The time-of-day repair: `H:M:S` fields of one digit get a leading zero.
use vstd::prelude::*;

verus! {

/// Why a string could not be sanitized.
#[derive(Debug, Clone, Copy, PartialEq, Eq, Structural)]
pub enum SanitizeError {
    /// No `H:M:S` time of day, with one or two digits per field, was found.
    MalformedTimeField,
}

/// Whether `s` holds two digits, a colon, two digits, a colon and two digits
/// (a digit being any Unicode decimal digit).
pub uninterp spec fn padded_time_found(s: Seq<char>) -> bool;

/// The leftmost time of day in `s` with one or two digits per field, as the
/// text before it, its hours, minutes and seconds, and the text after it.
pub uninterp spec fn loose_time_split(s: Seq<char>) -> Option<
    (Seq<char>, Seq<char>, Seq<char>, Seq<char>, Seq<char>),
>;

/// A loose time of day found in a string, with the text around it.
#[derive(Debug, Clone, PartialEq, Eq)]
pub struct TimeMatch {
    pub before: String,
    pub hours: String,
    pub minutes: String,
    pub seconds: String,
    pub after: String,
}

/// Relies on `regex::Regex::is_match` for the pattern
/// `(\d{2}):(\d{2}):(\d{2})`: whether the pattern matches anywhere in `s`.
#[verifier::external_body]
fn has_padded_time(s: &str) -> (r: bool)
    ensures
        r == padded_time_found(s@),
{
    regex::Regex::new(r"(\d{2}):(\d{2}):(\d{2})").unwrap().is_match(s)
}

/// Relies on `regex::Regex::captures` for the pattern
/// `(\d{1,2}):(\d{1,2}):(\d{1,2})`: the leftmost match, cut into the text
/// before it, its three groups of one or two characters, and the text after.
#[verifier::external_body]
fn find_loose_time(s: &str) -> (r: Option<TimeMatch>)
    ensures
        r matches Some(m) ==> loose_time_split(s@) == Some(
            (m.before@, m.hours@, m.minutes@, m.seconds@, m.after@),
        ),
        r is None ==> loose_time_split(s@) is None,
        r matches Some(m) ==> s@ == m.before@ + m.hours@ + seq![':'] + m.minutes@ + seq![':']
            + m.seconds@ + m.after@,
        r matches Some(m) ==> 1 <= m.hours@.len() <= 2 && 1 <= m.minutes@.len() <= 2 && 1
            <= m.seconds@.len() <= 2,
{
    let re = regex::Regex::new(r"(\d{1,2}):(\d{1,2}):(\d{1,2})").unwrap();
    let c = re.captures(s)?;
    let whole = c.get(0)?;
    Some(TimeMatch {
        before: s[..whole.start()].to_string(),
        hours: c[1].to_string(),
        minutes: c[2].to_string(),
        seconds: c[3].to_string(),
        after: s[whole.end()..].to_string(),
    })
}

/// A field of one character gets a leading `0`; a longer one is kept.
pub open spec fn padded_field(f: Seq<char>) -> Seq<char> {
    if f.len() == 1 {
        seq!['0'] + f
    } else {
        f
    }
}

/// The text of a found time of day rebuilt with padded fields.
pub open spec fn rebuilt_time(
    before: Seq<char>,
    hours: Seq<char>,
    minutes: Seq<char>,
    seconds: Seq<char>,
    after: Seq<char>,
) -> Seq<char> {
    before + padded_field(hours) + seq![':'] + padded_field(minutes) + seq![':'] + padded_field(
        seconds,
    ) + after
}

/// The result of the time-of-day repair on `s`: unchanged when a padded
/// time is already present, else the leftmost loose time padded, else an
/// error.
pub open spec fn time_padded(s: Seq<char>) -> Result<Seq<char>, SanitizeError> {
    if padded_time_found(s) {
        Ok(s)
    } else {
        match loose_time_split(s) {
            Some((before, hours, minutes, seconds, after)) => Ok(
                rebuilt_time(before, hours, minutes, seconds, after),
            ),
            None => Err(SanitizeError::MalformedTimeField),
        }
    }
}

/// The view of a string result.
pub open spec fn text_result(r: Result<String, SanitizeError>) -> Result<Seq<char>, SanitizeError> {
    match r {
        Ok(t) => Ok(t@),
        Err(e) => Err(e),
    }
}

fn append_padded(out: &mut String, f: &str)
    ensures
        final(out)@ == old(out)@ + padded_field(f@),
{
    proof {
        reveal_strlit("0");
    }
    if f.unicode_len() == 1 {
        out.append("0");
    }
    out.append(f);
}

/// Rebuilds the text of a found time of day, each field of one character
/// given a leading `0`.
pub fn rebuild_time(m: &TimeMatch) -> (r: String)
    ensures
        r@ == rebuilt_time(m.before@, m.hours@, m.minutes@, m.seconds@, m.after@),
{
    proof {
        reveal_strlit(":");
    }
    let mut out = String::from_str(m.before.as_str());
    append_padded(&mut out, m.hours.as_str());
    out.append(":");
    append_padded(&mut out, m.minutes.as_str());
    out.append(":");
    append_padded(&mut out, m.seconds.as_str());
    out.append(m.after.as_str());
    assert(out@ =~= rebuilt_time(m.before@, m.hours@, m.minutes@, m.seconds@, m.after@));
    out
}

/// Pads the fields of the time of day in `s` to two digits. A string that
/// already holds a padded time is returned unchanged; one with no time of
/// day at all is an error.
pub fn pad_zeros(s: &str) -> (r: Result<String, SanitizeError>)
    ensures
        text_result(r) == time_padded(s@),
        padded_time_found(s@) ==> text_result(r) == Ok::<Seq<char>, SanitizeError>(s@),
{
    if has_padded_time(s) {
        return Ok(String::from_str(s));
    }
    match find_loose_time(s) {
        Some(m) => Ok(rebuild_time(&m)),
        None => Err(SanitizeError::MalformedTimeField),
    }
}

} // verus!

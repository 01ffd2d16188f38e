//! The weekday, month-name and offset repairs.
use vstd::prelude::*;
use crate::text::{
    contains_seq, find, first_index, lemma_find_from_bounds, matches_at, replace_all,
    replace_all_exec, trim, trim_exec,
};

verus! {

/// How many weekday tokens are recognised.
pub const WEEKDAY_TOKEN_COUNT: usize = 14;

/// How many month names are recognised.
pub const MONTH_COUNT: usize = 12;

/// The recognised weekday tokens, in the order they are tried: the
/// abbreviated names first, then the full names, each followed by a comma.
pub open spec fn weekday_token(k: int) -> Seq<char> {
    if k == 0 { "Mon,"@ }
    else if k == 1 { "Tue,"@ }
    else if k == 2 { "Wed,"@ }
    else if k == 3 { "Thu,"@ }
    else if k == 4 { "Fri,"@ }
    else if k == 5 { "Sat,"@ }
    else if k == 6 { "Sun,"@ }
    else if k == 7 { "Monday,"@ }
    else if k == 8 { "Tuesday,"@ }
    else if k == 9 { "Wednesday,"@ }
    else if k == 10 { "Thursday,"@ }
    else if k == 11 { "Friday,"@ }
    else if k == 12 { "Saturday,"@ }
    else { "Sunday,"@ }
}

fn weekday_token_text(k: usize) -> (r: &'static str)
    requires
        k < WEEKDAY_TOKEN_COUNT,
    ensures
        r@ == weekday_token(k as int),
{
    match k {
        0 => "Mon,",
        1 => "Tue,",
        2 => "Wed,",
        3 => "Thu,",
        4 => "Fri,",
        5 => "Sat,",
        6 => "Sun,",
        7 => "Monday,",
        8 => "Tuesday,",
        9 => "Wednesday,",
        10 => "Thursday,",
        11 => "Friday,",
        12 => "Saturday,",
        _ => "Sunday,",
    }
}

/// The weekday tokens from index `k` on, applied to `s`: the first token
/// that occurs anywhere in `s` cuts `s` just after its first occurrence,
/// and the rest is trimmed.
pub open spec fn weekday_removed_from(s: Seq<char>, k: int) -> Seq<char>
    decreases WEEKDAY_TOKEN_COUNT - k,
{
    if k < 0 || k >= WEEKDAY_TOKEN_COUNT {
        s
    } else {
        match first_index(s, weekday_token(k)) {
            Some(i) => trim(s.subrange(i + weekday_token(k).len(), s.len() as int)),
            None => weekday_removed_from(s, k + 1),
        }
    }
}

/// `s` with its weekday token, if any, removed.
pub open spec fn weekday_removed(s: Seq<char>) -> Seq<char> {
    weekday_removed_from(s, 0)
}

/// No recognised weekday token occurs in `s`.
pub open spec fn has_no_weekday_token(s: Seq<char>) -> bool {
    forall|k: int| 0 <= k < WEEKDAY_TOKEN_COUNT ==> !contains_seq(s, #[trigger] weekday_token(k))
}

/// Drops everything up to and including the first weekday token found, and
/// trims what is left; returns `s` unchanged when no token occurs.
pub fn remove_weekday(s: &str) -> (r: String)
    ensures
        r@ == weekday_removed(s@),
        has_no_weekday_token(s@) ==> r@ == s@,
{
    let mut k: usize = 0;
    while k < WEEKDAY_TOKEN_COUNT
        invariant
            k <= WEEKDAY_TOKEN_COUNT,
            weekday_removed_from(s@, k as int) == weekday_removed(s@),
            forall|j: int| 0 <= j < k ==> !contains_seq(s@, #[trigger] weekday_token(j)),
        decreases WEEKDAY_TOKEN_COUNT - k,
    {
        let t = weekday_token_text(k);
        match find(s, t) {
            Some(i) => {
                proof {
                    lemma_find_from_bounds(s@, t@, 0);
                }
                let n = s.unicode_len();
                let m = t.unicode_len();
                return trim_exec(s.substring_char(i + m, n));
            },
            None => {},
        }
        k = k + 1;
    }
    String::from_str(s)
}

/// The recognised full month names, January first. April is recognised
/// only together with the space that follows it, and the space is replaced
/// along with the name.
pub open spec fn month_name(k: int) -> Seq<char> {
    if k == 0 { "January"@ }
    else if k == 1 { "February"@ }
    else if k == 2 { "March"@ }
    else if k == 3 { "April "@ }
    else if k == 4 { "May"@ }
    else if k == 5 { "June"@ }
    else if k == 6 { "July"@ }
    else if k == 7 { "August"@ }
    else if k == 8 { "September"@ }
    else if k == 9 { "October"@ }
    else if k == 10 { "November"@ }
    else { "December"@ }
}

/// The three-letter abbreviation that replaces `month_name(k)`.
pub open spec fn month_abbreviation(k: int) -> Seq<char> {
    if k == 0 { "Jan"@ }
    else if k == 1 { "Feb"@ }
    else if k == 2 { "Mar"@ }
    else if k == 3 { "Apr"@ }
    else if k == 4 { "May"@ }
    else if k == 5 { "Jun"@ }
    else if k == 6 { "Jul"@ }
    else if k == 7 { "Aug"@ }
    else if k == 8 { "Sep"@ }
    else if k == 9 { "Oct"@ }
    else if k == 10 { "Nov"@ }
    else { "Dec"@ }
}

fn month_entry(k: usize) -> (r: (&'static str, &'static str))
    requires
        k < MONTH_COUNT,
    ensures
        r.0@ == month_name(k as int),
        r.1@ == month_abbreviation(k as int),
        r.0@.len() > 0,
{
    proof {
        reveal_strlit("January");
        reveal_strlit("February");
        reveal_strlit("March");
        reveal_strlit("April ");
        reveal_strlit("May");
        reveal_strlit("June");
        reveal_strlit("July");
        reveal_strlit("August");
        reveal_strlit("September");
        reveal_strlit("October");
        reveal_strlit("November");
        reveal_strlit("December");
    }
    match k {
        0 => ("January", "Jan"),
        1 => ("February", "Feb"),
        2 => ("March", "Mar"),
        3 => ("April ", "Apr"),
        4 => ("May", "May"),
        5 => ("June", "Jun"),
        6 => ("July", "Jul"),
        7 => ("August", "Aug"),
        8 => ("September", "Sep"),
        9 => ("October", "Oct"),
        10 => ("November", "Nov"),
        _ => ("December", "Dec"),
    }
}

/// The month names from index `k` on, applied to `s`: every occurrence of
/// the first name that occurs in `s` is replaced by its abbreviation.
pub open spec fn month_abbreviated_from(s: Seq<char>, k: int) -> Seq<char>
    decreases MONTH_COUNT - k,
{
    if k < 0 || k >= MONTH_COUNT {
        s
    } else if contains_seq(s, month_name(k)) {
        replace_all(s, month_name(k), month_abbreviation(k))
    } else {
        month_abbreviated_from(s, k + 1)
    }
}

/// `s` with its full month name, if any, abbreviated.
pub open spec fn month_abbreviated(s: Seq<char>) -> Seq<char> {
    month_abbreviated_from(s, 0)
}

/// No recognised full month name occurs in `s`.
pub open spec fn has_no_month_name(s: Seq<char>) -> bool {
    forall|k: int| 0 <= k < MONTH_COUNT ==> !contains_seq(s, #[trigger] month_name(k))
}

/// Replaces every occurrence of the first full month name found in `s`
/// with its three-letter abbreviation; returns `s` unchanged when none
/// occurs.
pub fn replace_month(s: &str) -> (r: String)
    ensures
        r@ == month_abbreviated(s@),
        has_no_month_name(s@) ==> r@ == s@,
{
    let mut k: usize = 0;
    while k < MONTH_COUNT
        invariant
            k <= MONTH_COUNT,
            month_abbreviated_from(s@, k as int) == month_abbreviated(s@),
            forall|j: int| 0 <= j < k ==> !contains_seq(s@, #[trigger] month_name(j)),
        decreases MONTH_COUNT - k,
    {
        let (name, abbreviation) = month_entry(k);
        if find(s, name).is_some() {
            return replace_all_exec(s, name, abbreviation);
        }
        k = k + 1;
    }
    String::from_str(s)
}

/// The offset `-0000` that some parsers refuse.
pub open spec fn negative_zero_offset() -> Seq<char> {
    "-0000"@
}

/// The offset that replaces it.
pub open spec fn positive_zero_offset() -> Seq<char> {
    "+0000"@
}

/// `s` ends with `-0000`.
pub open spec fn ends_with_negative_zero(s: Seq<char>) -> bool {
    s.len() >= 5 && s.subrange(s.len() - 5, s.len() as int) == negative_zero_offset()
}

/// `s` with a trailing `-0000` turned into `+0000`.
pub open spec fn offset_repaired(s: Seq<char>) -> Seq<char> {
    if ends_with_negative_zero(s) {
        s.subrange(0, s.len() - 5) + positive_zero_offset()
    } else {
        s
    }
}

/// Turns a trailing `-0000` offset into `+0000`; any other string is
/// returned unchanged.
pub fn replace_leading_zeros(s: &str) -> (r: String)
    ensures
        r@ == offset_repaired(s@),
        !ends_with_negative_zero(s@) ==> r@ == s@,
{
    proof {
        reveal_strlit("-0000");
    }
    let n = s.unicode_len();
    if n >= 5 && matches_at(s, "-0000", n - 5) {
        let mut r = String::from_str(s.substring_char(0, n - 5));
        r.append("+0000");
        r
    } else {
        String::from_str(s)
    }
}

} // verus!

//! Properties that relate the repairs, the pipeline and the fallback parse.
use vstd::prelude::*;
use crate::pipeline::{fallback_parsed, rfc2822_parsed, sanitized};
use crate::repair::{
    ends_with_negative_zero, has_no_month_name, has_no_weekday_token, month_abbreviated,
    month_abbreviated_from, negative_zero_offset, offset_repaired, positive_zero_offset,
    weekday_removed, weekday_removed_from, MONTH_COUNT, WEEKDAY_TOKEN_COUNT,
};
use crate::time_field::{padded_time_found, time_padded, SanitizeError};

verus! {

proof fn lemma_no_weekday_from(s: Seq<char>, k: int)
    requires
        0 <= k <= WEEKDAY_TOKEN_COUNT,
        has_no_weekday_token(s),
    ensures
        weekday_removed_from(s, k) == s,
    decreases WEEKDAY_TOKEN_COUNT - k,
{
    if k < WEEKDAY_TOKEN_COUNT {
        lemma_no_weekday_from(s, k + 1);
    }
}

proof fn lemma_no_month_from(s: Seq<char>, k: int)
    requires
        0 <= k <= MONTH_COUNT,
        has_no_month_name(s),
    ensures
        month_abbreviated_from(s, k) == s,
    decreases MONTH_COUNT - k,
{
    if k < MONTH_COUNT {
        lemma_no_month_from(s, k + 1);
    }
}

/// Each repair leaves alone a string that is already in the form it aims
/// at: one with a padded time of day, one without a weekday token, one
/// without a full month name, one that does not end with `-0000`.
pub proof fn conformant_input_is_unchanged(s: Seq<char>)
    ensures
        padded_time_found(s) ==> time_padded(s) == Ok::<Seq<char>, SanitizeError>(s),
        has_no_weekday_token(s) ==> weekday_removed(s) == s,
        has_no_month_name(s) ==> month_abbreviated(s) == s,
        !ends_with_negative_zero(s) ==> offset_repaired(s) == s,
{
    if has_no_weekday_token(s) {
        lemma_no_weekday_from(s, 0);
    }
    if has_no_month_name(s) {
        lemma_no_month_from(s, 0);
    }
}

/// The offset repair leaves its own output alone: repairing twice is the
/// same as repairing once.
pub proof fn offset_repair_is_idempotent(s: Seq<char>)
    ensures
        offset_repaired(offset_repaired(s)) == offset_repaired(s),
{
    reveal_strlit("-0000");
    reveal_strlit("+0000");
    if ends_with_negative_zero(s) {
        let t = offset_repaired(s);
        assert(t.subrange(t.len() - 5, t.len() as int) =~= positive_zero_offset());
        assert(positive_zero_offset()[0] != negative_zero_offset()[0]);
    }
}

/// The pipeline is a function of its input: equal strings are sanitized to
/// equal results.
pub proof fn sanitize_is_deterministic(a: Seq<char>, b: Seq<char>)
    requires
        a == b,
    ensures
        sanitized(a) == sanitized(b),
{
}

/// Where the strict parse succeeds, the fallback parse gives its result.
pub proof fn fallback_keeps_strict_success(s: Seq<char>)
    requires
        rfc2822_parsed(s) is Ok,
    ensures
        fallback_parsed(s) == rfc2822_parsed(s),
{
}

/// Where the strict parse fails and the sanitized string parses, the
/// fallback parse gives the parse of the sanitized string.
pub proof fn fallback_uses_repaired_parse(s: Seq<char>)
    requires
        rfc2822_parsed(s) is Err,
        sanitized(s) is Ok,
        rfc2822_parsed(sanitized(s)->Ok_0) is Ok,
    ensures
        fallback_parsed(s) == rfc2822_parsed(sanitized(s)->Ok_0),
{
}

/// Where neither the strict parse nor the parse of the sanitized string
/// succeeds, the fallback parse returns the error of the strict parse.
pub proof fn fallback_reports_original_error(s: Seq<char>)
    requires
        rfc2822_parsed(s) is Err,
        sanitized(s) is Err || rfc2822_parsed(sanitized(s)->Ok_0) is Err,
    ensures
        fallback_parsed(s) == rfc2822_parsed(s),
{
}

} // verus!

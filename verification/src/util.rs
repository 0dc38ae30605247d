//! The symmetric fuzzy match used to compare daemon metadata with catalog
//! search results, and the expiry-instant arithmetic.

use vstd::prelude::*;

use crate::text::has_substring;
use crate::text::contains_str;

verus! {

/// One of the two strings contains the other as a substring.
pub open spec fn spec_either_contains(a: Seq<char>, b: Seq<char>) -> bool {
    has_substring(a, b) || has_substring(b, a)
}

/// Symmetric substring containment: `first` contains `second` or the other
/// way round. Case-sensitive.
pub fn either_contains(first: &str, second: &str) -> (r: bool)
    ensures
        r == spec_either_contains(first@, second@),
{
    contains_str(first, second) || contains_str(second, first)
}

/// Law: the fuzzy match is symmetric in its two arguments.
pub proof fn lemma_either_contains_symmetric(a: Seq<char>, b: Seq<char>)
    ensures
        spec_either_contains(a, b) == spec_either_contains(b, a),
{
}

/// Law: the fuzzy match is reflexive, since a string is a substring of
/// itself.
pub proof fn lemma_either_contains_reflexive(a: Seq<char>)
    ensures
        spec_either_contains(a, a),
{
    assert(a.subrange(0, a.len() as int) =~= a);
    assert(crate::text::occurs_at(a, a, 0));
}

/// `a + b` clamped to the range of `i64`.
pub open spec fn sat_add_i64(a: int, b: int) -> int {
    if a + b > i64::MAX {
        i64::MAX as int
    } else if a + b < i64::MIN {
        i64::MIN as int
    } else {
        a + b
    }
}

/// The absolute expiry instant of a token granted at `now` for `expires_in`
/// seconds, clamped to the range of `i64`.
pub fn offset_time_from(now: i64, expires_in: i64) -> (r: i64)
    ensures
        r as int == sat_add_i64(now as int, expires_in as int),
{
    if expires_in >= 0 {
        if now > i64::MAX - expires_in {
            i64::MAX
        } else {
            now + expires_in
        }
    } else {
        if now < i64::MIN - expires_in {
            i64::MIN
        } else {
            now + expires_in
        }
    }
}

/// The absolute expiry instant of a token granted now, for `expires_in`
/// seconds. The result depends on the clock, so nothing more is promised of
/// it; [`offset_time_from`] carries the exact arithmetic.
pub fn offset_time_by_expiration(expires_in: i64) -> i64 {
    offset_time_from(crate::clock::now_seconds(), expires_in)
}

} // verus!

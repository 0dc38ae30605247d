//! The one ambient input of a run: the current time.

use vstd::prelude::*;

verus! {

/// Relies on `datetime::Instant::now` (a plain system-time read) followed by
/// `Instant::seconds`, which returns the instant's seconds-since-epoch field.
/// Nothing can be promised of the clock's value.
#[verifier::external_body]
pub(crate) fn now_seconds() -> i64 {
    datetime::Instant::now().seconds()
}

} // verus!

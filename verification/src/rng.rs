//! The single gateway to the process-wide random number generator.
//!
//! Pattern jitter and movement-queue refills draw integers through this
//! wrapper; everything downstream of the drawn value is verified for every
//! outcome the wrapper can produce.

use vstd::prelude::*;

verus! {

/// Relies on rand::random_range over the thread-local generator: it returns
/// a uniform sample from the given range and panics only on an empty range,
/// which the precondition rules out. Nothing more is assumed of the sample
/// than its bounds.
#[verifier::external_body]
pub(crate) fn random_in_range(lo: i64, hi: i64) -> (r: i64)
    requires
        lo <= hi,
    ensures
        lo <= r <= hi,
{
    rand::random_range(lo..=hi)
}

} // verus!

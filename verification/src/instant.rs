//! Instants, carried as seconds since the epoch.

use vstd::prelude::*;

verus! {

/// Whether `chrono` has an instant at this number of seconds since the epoch:
/// whether `DateTime::from_timestamp_secs` gives one for it.
pub uninterp spec fn is_instant(seconds: i64) -> bool;

/// `chrono::DateTime::from_timestamp_secs`, asked only whether it gives an
/// instant. The contract claims that the answer depends on `seconds` alone.
#[verifier::external_body]
pub(crate) fn instant_exists(seconds: i64) -> (exists: bool)
    ensures
        exists == is_instant(seconds),
{
    chrono::DateTime::from_timestamp_secs(seconds).is_some()
}

} // verus!

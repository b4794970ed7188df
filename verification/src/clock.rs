//! The wall clock by which the phases of a contribution are stamped.

use vstd::prelude::*;

verus! {

/// `chrono::Utc::now`, read through `DateTime::timestamp_millis`: the
/// current time in milliseconds since the Unix epoch. Nothing is claimed of
/// the reading: the wall clock may be set back between two calls. The call
/// does not return on a machine whose clock stands before the epoch.
#[verifier::external_body]
pub(crate) fn utc_now_millis() -> i64 {
    chrono::Utc::now().timestamp_millis()
}

} // verus!

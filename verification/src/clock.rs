//! The time of day.

use vstd::prelude::*;

verus! {

/// `helpers::time::utc_now`, as seconds since the Unix epoch. Nothing is
/// claimed of the reading. The clock must not stand before 1970.
#[verifier::external_body]
pub(crate) fn now_seconds() -> (now: i64) {
    helpers::time::utc_now().timestamp()
}

} // verus!

//! The one reading of the wall clock the registry needs: binding creation and
//! removal default their timestamps to the current time.

use vstd::prelude::*;

verus! {

/// Relies on chrono::Utc::now for the current Unix time. Nothing is assumed
/// of the value: every caller states what holds whatever time comes back.
#[verifier::external_body]
pub(crate) fn current_unix_time() -> (r: i64) {
    chrono::Utc::now().timestamp()
}

} // verus!

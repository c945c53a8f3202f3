//! The system clock, read as whole seconds since the Unix epoch.

use vstd::prelude::*;

verus! {

/// Reads `std::time::SystemTime::now()` and its distance from
/// `UNIX_EPOCH` in whole seconds: `Some(seconds)`, or `None` when the
/// clock reads earlier than the epoch. Nothing is claimed of the value,
/// which depends on the machine's clock.
#[verifier::external_body]
pub(crate) fn unix_seconds_now() -> (r: Option<u64>) {
    match std::time::SystemTime::now().duration_since(std::time::UNIX_EPOCH) {
        Ok(d) => Some(d.as_secs()),
        Err(_) => None,
    }
}

} // verus!

//! The wall clock.

use std::time::SystemTime;
use vstd::prelude::*;

verus! {

/// Calls `SystemTime::elapsed` on the start of 1970: the whole seconds from
/// then to now, or nothing where the clock stands before that. Nothing is
/// claimed of the number.
#[verifier::external_body]
pub(crate) fn seconds_since_epoch() -> (seconds: Option<u64>) {
    match SystemTime::UNIX_EPOCH.elapsed() {
        Ok(elapsed) => Some(elapsed.as_secs()),
        Err(_) => None,
    }
}

} // verus!

//! The time of day.
use std::time::{SystemTime, UNIX_EPOCH};
use vstd::prelude::*;

verus! {

/// `SystemTime::now` against the Unix epoch, in milliseconds; 0 before the epoch.
/// Nothing is claimed of the time that comes back.
#[verifier::external_body]
pub(crate) fn now_ms() -> u64 {
    SystemTime::now().duration_since(UNIX_EPOCH).unwrap_or_default().as_millis() as u64
}

} // verus!

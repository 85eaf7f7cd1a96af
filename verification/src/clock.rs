//! The wall clock, read where a record is stamped.
use vstd::prelude::*;

verus! {

/// Seconds since the Unix epoch by std's `SystemTime::now`, or 0 when the
/// clock reads earlier than the epoch.  Nothing is promised of the value:
/// it depends on the time of the call.
#[verifier::external_body]
pub(crate) fn now_unix_secs() -> u64 {
    std::time::SystemTime::now().duration_since(std::time::UNIX_EPOCH).map(|d| d.as_secs()).unwrap_or(0)
}

} // verus!

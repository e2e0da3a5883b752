//! The time, in seconds since the start of 1970.
use vstd::prelude::*;
use crate::cookies::SESSION_TTL_SECONDS;

verus! {

/// `SystemTime::elapsed` on the start of 1970, in whole seconds; `None` where the clock
/// stands before that. Nothing is claimed of the time.
#[verifier::external_body]
fn seconds_since_epoch() -> (r: Option<u64>) {
    match std::time::UNIX_EPOCH.elapsed() {
        Ok(elapsed) => Some(elapsed.as_secs()),
        Err(_) => None,
    }
}

/// The timestamp of a moment that lies so many seconds after the start of 1970; there is none
/// for an earlier one.
pub open spec fn timestamp(elapsed: Option<u64>) -> Option<i64> {
    match elapsed {
        Some(seconds) => Some(seconds as i64),
        None => None,
    }
}

/// The timestamp of a moment that lies so many seconds after the start of 1970.
pub fn timestamp_of(elapsed: Option<u64>) -> (r: Option<i64>)
    ensures
        r == timestamp(elapsed),
{
    match elapsed {
        Some(seconds) => Some(seconds as i64),
        None => None,
    }
}

/// The timestamp of this moment, unless the clock stands before 1970.
pub fn now_ts() -> (r: Option<i64>)
    ensures
        exists|elapsed: Option<u64>| r == #[trigger] timestamp(elapsed),
{
    let elapsed = seconds_since_epoch();
    timestamp_of(elapsed)
}

/// A timestamp after 1970 that leaves room for a session that begins then.
pub open spec fn is_now(now: i64) -> bool {
    0 <= now <= i64::MAX - SESSION_TTL_SECONDS
}

/// Whether the forum can reckon with a timestamp.
pub fn is_usable(now: i64) -> (r: bool)
    ensures
        r == is_now(now),
{
    0 <= now && now <= i64::MAX - SESSION_TTL_SECONDS
}

} // verus!

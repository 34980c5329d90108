//! Requests for a single fix.

use crate::time::Timestamp;
use vstd::prelude::*;

verus! {

/// How long a request for a single fix may take, in nanoseconds.
pub const ONE_SHOT_TIMEOUT: u64 = 60_000_000_000;

/// An outstanding request for a single fix.
#[derive(Clone, Copy, Debug, PartialEq, Eq, Structural)]
pub struct OneShot {
    /// When the request gives up, on the monotonic clock, in nanoseconds.
    pub deadline: u64,
    /// A cached fix answered it already, so giving up is no failure.
    pub delivered_cached: bool,
    /// When that cached fix was acquired. A fix that is not newer completes the request but is not
    /// delivered again.
    pub newer_than: Option<Timestamp>,
}

/// A request made at `now`.
pub open spec fn fresh_request(now: u64) -> OneShot {
    OneShot {
        deadline: (now + ONE_SHOT_TIMEOUT) as u64,
        delivered_cached: false,
        newer_than: None,
    }
}

impl OneShot {
    pub fn begin(now: u64) -> (r: OneShot)
        requires
            now + ONE_SHOT_TIMEOUT <= u64::MAX,
        ensures
            r == fresh_request(now),
    {
        OneShot { deadline: now + ONE_SHOT_TIMEOUT, delivered_cached: false, newer_than: None }
    }
}

/// A fix is worth delivering unless the request was answered with one that is as new. A fix
/// without a timestamp is delivered: that is safer than discarding it silently.
pub open spec fn is_fresher(one_shot: OneShot, current: Option<Timestamp>) -> bool {
    match (one_shot.newer_than, current) {
        (Some(previous), Some(current)) => current.instant() > previous.instant(),
        _ => true,
    }
}

pub fn one_shot_is_fresher(one_shot: &OneShot, current: Option<Timestamp>) -> (r: bool)
    ensures
        r == is_fresher(*one_shot, current),
{
    if let Some(previous) = one_shot.newer_than {
        if let Some(current) = current {
            return !current.at_or_before(&previous);
        }
    }
    true
}

} // verus!

//! Locations from the Windows runtime.

use super::{Error, Result};
use crate::time::Timestamp;
use vstd::prelude::*;

verus! {

/// Ticks of 100 nanoseconds between 1601-01-01, where the runtime starts counting, and 1970-01-01.
pub const UNIX_EPOCH_TICKS: i64 = 116_444_736_000_000_000;

const TICKS_PER_SEC: i64 = 10_000_000;

/// The runtime's count of 100 nanosecond ticks since 1601-01-01, as a time. `None` if the count
/// cannot be moved onto the Unix epoch.
pub fn system_time_from_winrt(universal_time: i64) -> (r: Option<Timestamp>)
    ensures
        r is Some <==> universal_time - UNIX_EPOCH_TICKS >= i64::MIN,
        r matches Some(time) ==> time.instant() == (universal_time - UNIX_EPOCH_TICKS) * 100
            && time.nanos < 1_000_000_000,
{
    match universal_time.checked_sub(UNIX_EPOCH_TICKS) {
        Some(ticks) => {
            let (secs, rest): (i64, i64) = if ticks >= 0 {
                (ticks / TICKS_PER_SEC, ticks % TICKS_PER_SEC)
            } else {
                // Whole seconds are counted downwards, and what is left upwards.
                let below: i64 = -(ticks + 1);
                (-(below / TICKS_PER_SEC) - 1, TICKS_PER_SEC - 1 - below % TICKS_PER_SEC)
            };
            Some(Timestamp { secs, nanos: rest as u32 * 100 })
        },
        None => None,
    }
}

/// What the runtime reports about its positioning.
#[derive(Clone, Copy, Debug, PartialEq, Eq, Structural)]
pub enum PositionStatus {
    Ready,
    Initializing,
    NoData,
    Disabled,
    NotAvailable,
    /// Anything else, or nothing that could be read.
    Other,
}

/// The error that a status stands for, if it is one.
pub fn status_error(status: PositionStatus) -> (r: Option<Error>)
    ensures
        r == match status {
            PositionStatus::Ready | PositionStatus::Initializing => None,
            PositionStatus::NoData => Some(Error::TemporarilyUnavailable),
            PositionStatus::Disabled => Some(Error::AuthorizationDenied),
            PositionStatus::NotAvailable => Some(Error::PermanentlyUnavailable),
            PositionStatus::Other => Some(Error::Unknown),
        },
{
    match status {
        PositionStatus::Ready => None,
        PositionStatus::Initializing => None,
        PositionStatus::NoData => Some(Error::TemporarilyUnavailable),
        PositionStatus::Disabled => Some(Error::AuthorizationDenied),
        PositionStatus::NotAvailable => Some(Error::PermanentlyUnavailable),
        PositionStatus::Other => Some(Error::Unknown),
    }
}

/// What the user answered.
#[derive(Clone, Copy, Debug, PartialEq, Eq, Structural)]
pub enum AccessStatus {
    Allowed,
    Denied,
    Unspecified,
}

pub fn access_result(status: AccessStatus) -> (r: Result<()>)
    ensures
        r == match status {
            AccessStatus::Allowed => Ok::<(), Error>(()),
            AccessStatus::Denied => Err(Error::AuthorizationDenied),
            AccessStatus::Unspecified => Err(Error::Unknown),
        },
{
    match status {
        AccessStatus::Allowed => Ok(()),
        AccessStatus::Denied => Err(Error::AuthorizationDenied),
        AccessStatus::Unspecified => Err(Error::Unknown),
    }
}

/// Whether a fix that the runtime had in stock may be delivered. It can be older than asked for, so
/// its age is checked again.
pub fn check_cached_fix(ticks: Option<i64>, now: Timestamp) -> (r: Result<()>)
    ensures
        r is Ok <==> (ticks matches Some(ticks) && ticks - UNIX_EPOCH_TICKS >= i64::MIN && 0
            <= now.instant() - (ticks - UNIX_EPOCH_TICKS) * 100 <= 3_600_000_000_000),
        r matches Err(error) ==> error == Error::TemporarilyUnavailable,
{
    let time = match ticks {
        Some(ticks) => system_time_from_winrt(ticks),
        None => None,
    };
    if super::cached_fix_is_recent(time, now) {
        Ok(())
    } else {
        Err(Error::TemporarilyUnavailable)
    }
}

/// What is reported when a fresh fix could not be had: nothing, if a cached one was delivered.
pub fn one_shot_error(delivered_cached: bool, error: Error) -> (r: Option<Error>)
    ensures
        r == if delivered_cached {
            None
        } else {
            Some(error)
        },
{
    if delivered_cached {
        None
    } else {
        Some(error)
    }
}

} // verus!

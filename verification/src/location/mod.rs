//! The device's whereabouts, from whatever provider the system has.

pub mod android;
pub mod apple;
pub mod backend;
pub mod bus_error_laws;
pub mod bus_errors;
pub mod callback_laws;
pub mod callbacks;
pub mod desktop_id;
pub mod double;
pub mod fix;
pub mod geoclue;
pub mod geoclue_laws;
pub mod name_laws;
pub mod one_shot;
pub mod operation_laws;
pub mod portal;
pub mod portal_laws;
pub mod provider_laws;
pub mod provision_laws;
pub mod queue_laws;
pub mod token;
pub mod windows;

use crate::time;
use crate::time::Timestamp;
use vstd::prelude::*;

verus! {

/// What can go wrong while getting the location.
#[derive(Clone, Copy, Debug, PartialEq, Eq, Structural)]
pub enum Error {
    /// The Android environment could not be reached.
    AndroidEnvironment,
    /// The user does not allow this application to know its location.
    AuthorizationDenied,
    /// The network needed for a fix is not there.
    Network,
    /// The call has to be made on the main thread.
    NotMainThread,
    /// There is no location now; there may be one later.
    TemporarilyUnavailable,
    /// This system offers no location.
    PermanentlyUnavailable,
    /// Anything else.
    Unknown,
}

/// How many kinds of error there are.
pub const ERROR_KINDS: usize = 7;

pub type Result<T> = std::result::Result<T, Error>;

/// Where a fix came from.
#[derive(Clone, Copy, Debug, PartialEq, Eq, Structural)]
pub enum Freshness {
    /// A fix the system already had, handed back right away without measuring anything.
    ///
    /// Never more than an hour old.
    Cached,
    /// A fix the system went and got for this request.
    Live,
}

/// The kind of location access.
#[derive(Clone, Copy, Debug, PartialEq, Eq, Structural)]
pub enum Access {
    Foreground,
    Background,
}

/// The accuracy of the location data.
#[derive(Clone, Copy, Debug, PartialEq, Eq, Structural)]
pub enum Accuracy {
    /// Somewhere in the right area.
    Approximate,
    /// As exact as the device can tell.
    Precise,
}

/// A position on the globe. Each number is the bit pattern of an IEEE 754 double, in degrees.
#[derive(Clone, Copy, Debug, PartialEq, Eq, Structural)]
pub struct Coordinates {
    pub latitude: u64,
    pub longitude: u64,
}

/// One fix. Apart from its time, each number is the bit pattern of an IEEE 754 double.
#[derive(Clone, Copy, Debug, PartialEq, Eq, Structural)]
pub struct LocationData {
    pub coordinates: Coordinates,
    /// Metres above sea level.
    pub altitude: Option<u64>,
    /// Degrees clockwise from due north.
    pub bearing: Option<u64>,
    /// Metres per second.
    pub speed: Option<u64>,
    /// When the fix was acquired.
    pub time: Option<Timestamp>,
    pub freshness: Freshness,
}

impl LocationData {
    /// The same fix, marked as a replay of one we already had rather than a new measurement.
    pub fn as_cached(&self) -> (r: LocationData)
        ensures
            r == (LocationData { freshness: Freshness::Cached, ..*self }),
    {
        LocationData { freshness: Freshness::Cached, ..*self }
    }
}

/// A fix as an application sees it.
pub struct Location<'a> {
    pub inner: &'a LocationData,
}

/// A value that a fix may lack.
pub open spec fn or_unavailable<T>(value: Option<T>) -> Result<T> {
    match value {
        Some(value) => Ok(value),
        None => Err(Error::TemporarilyUnavailable),
    }
}

impl Location<'_> {
    pub fn coordinates(&self) -> (r: Result<Coordinates>)
        ensures
            r == Ok::<Coordinates, Error>(self.inner.coordinates),
    {
        Ok(self.inner.coordinates)
    }

    pub fn altitude(&self) -> (r: Result<u64>)
        ensures
            r == or_unavailable(self.inner.altitude),
    {
        self.inner.altitude.ok_or(Error::TemporarilyUnavailable)
    }

    /// The direction in which the device is travelling, in degrees relative to due north.
    pub fn bearing(&self) -> (r: Result<u64>)
        ensures
            r == or_unavailable(self.inner.bearing),
    {
        self.inner.bearing.ok_or(Error::TemporarilyUnavailable)
    }

    /// The instantaneous speed of the device in metres per second.
    pub fn speed(&self) -> (r: Result<u64>)
        ensures
            r == or_unavailable(self.inner.speed),
    {
        self.inner.speed.ok_or(Error::TemporarilyUnavailable)
    }

    /// The time at which the location was acquired.
    pub fn time(&self) -> (r: Result<Timestamp>)
        ensures
            r == or_unavailable(self.inner.time),
    {
        self.inner.time.ok_or(Error::TemporarilyUnavailable)
    }

    /// Whether the system had this fix on hand already, or measured it for this request.
    pub fn freshness(&self) -> (r: Freshness)
        ensures
            r == self.inner.freshness,
    {
        self.inner.freshness
    }

    pub fn is_cached(&self) -> (r: bool)
        ensures
            r == (self.inner.freshness == Freshness::Cached),
    {
        self.freshness() == Freshness::Cached
    }
}

/// Requests that are held until the user allows them.
#[derive(Clone, Copy, Debug, PartialEq, Eq, Structural)]
pub struct Pending {
    pub update_once: bool,
    pub start_updates: bool,
}

impl Pending {
    pub fn none() -> (r: Pending)
        ensures
            !r.update_once,
            !r.start_updates,
    {
        Pending { update_once: false, start_updates: false }
    }
}

/// How old, in seconds, a cached fix may be before it is dropped instead of handed over.
pub const MAX_CACHED_AGE: u64 = 3600;

/// A fix that is dated, not in the future, and at most [`MAX_CACHED_AGE`] old.
pub open spec fn is_recent(time: Option<Timestamp>, now: Timestamp) -> bool {
    match time {
        Some(time) => 0 <= now.instant() - time.instant() <= MAX_CACHED_AGE * time::NANOS_PER_SEC,
        None => false,
    }
}

/// Whether a cached fix is recent enough to bother delivering.
///
/// A fix that cannot be dated is rejected, and so is one dated in the future. This only ever gates
/// the cached shortcut; a live fix is delivered whatever its timestamp says.
pub fn cached_fix_is_recent(time: Option<Timestamp>, now: Timestamp) -> (r: bool)
    ensures
        r == is_recent(time, now),
{
    match time {
        Some(time) => {
            let age: i128 = now.instant_nanos() - time.instant_nanos();
            0 <= age && age <= 3_600_000_000_000
        },
        None => false,
    }
}

} // verus!

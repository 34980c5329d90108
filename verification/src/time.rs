//! Points in time and lengths of time, as plain numbers.

use vstd::prelude::*;

verus! {

pub const NANOS_PER_SEC: u32 = 1_000_000_000;

/// A wall-clock time: `secs` seconds after the Unix epoch (before it where negative)
/// and `nanos` nanoseconds more.
#[derive(Clone, Copy, Debug, PartialEq, Eq, Structural)]
pub struct Timestamp {
    pub secs: i64,
    pub nanos: u32,
}

/// A length of time.
#[derive(Clone, Copy, Debug, PartialEq, Eq, Structural)]
pub struct TimeSpan {
    pub secs: u64,
    pub nanos: u32,
}

impl Timestamp {
    /// Nanoseconds after the Unix epoch.
    pub open spec fn instant(self) -> int {
        self.secs * NANOS_PER_SEC + self.nanos
    }

    pub fn instant_nanos(&self) -> (r: i128)
        ensures
            r == self.instant(),
    {
        self.secs as i128 * 1_000_000_000i128 + self.nanos as i128
    }

    /// Whether this time is `other` or earlier.
    pub fn at_or_before(&self, other: &Timestamp) -> (r: bool)
        ensures
            r == (self.instant() <= other.instant()),
    {
        self.instant_nanos() <= other.instant_nanos()
    }

    /// How many whole milliseconds after the Unix epoch this is, or zero if it is earlier.
    pub open spec fn epoch_millis(self) -> int {
        if self.instant() < 0 {
            0
        } else {
            self.instant() / 1_000_000
        }
    }

    /// How many nanoseconds this time lies after `earlier`, or zero if it does not.
    pub open spec fn nanos_after(self, earlier: Timestamp) -> int {
        if self.instant() < earlier.instant() {
            0
        } else {
            self.instant() - earlier.instant()
        }
    }
}

impl TimeSpan {
    pub open spec fn length(self) -> int {
        self.secs * NANOS_PER_SEC + self.nanos
    }

    pub fn from_secs(secs: u64) -> (r: TimeSpan)
        ensures
            r.length() == secs * NANOS_PER_SEC,
    {
        TimeSpan { secs, nanos: 0 }
    }

    pub fn length_nanos(&self) -> (r: u128)
        ensures
            r == self.length(),
    {
        self.secs as u128 * 1_000_000_000u128 + self.nanos as u128
    }
}

} // verus!

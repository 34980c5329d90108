//! Locations from Core Location: which requests wait for the user, and which fixes are passed on.

use super::{Error, Pending};
use crate::time::Timestamp;
use vstd::prelude::*;

verus! {

/// What the user decided about this application.
#[derive(Clone, Copy, Debug, PartialEq, Eq, Structural)]
pub enum AuthorizationStatus {
    NotDetermined,
    Denied,
    Restricted,
    AuthorizedAlways,
    AuthorizedWhenInUse,
    Other,
}

impl AuthorizationStatus {
    pub open spec fn allows(self) -> bool {
        self == AuthorizationStatus::AuthorizedAlways || self
            == AuthorizationStatus::AuthorizedWhenInUse
    }

    pub open spec fn refuses(self) -> bool {
        self == AuthorizationStatus::Denied || self == AuthorizationStatus::Restricted
    }
}

/// The state of a location manager's delegate.
#[derive(Clone, Copy, Debug, PartialEq, Eq, Structural)]
pub struct DelegateState {
    pub pending: Pending,
    /// Only fixes newer than the last one are passed on, so a one-shot never goes backwards.
    pub one_shot: bool,
    /// When the last fix of this one-shot was acquired.
    pub last_delivered: Option<Timestamp>,
}

/// What has to be asked of the location manager, in this order.
#[derive(Clone, Copy, Debug, PartialEq, Eq, Structural)]
pub struct AuthorizationOutcome {
    /// Begin a one-shot and request a location.
    pub request_location: bool,
    /// Begin continuous updates and start them.
    pub start_updating: bool,
    pub error: Option<Error>,
}

impl DelegateState {
    pub fn new() -> (r: DelegateState)
        ensures
            r == (DelegateState {
                pending: Pending { update_once: false, start_updates: false },
                one_shot: false,
                last_delivered: None,
            }),
    {
        DelegateState { pending: Pending::none(), one_shot: false, last_delivered: None }
    }

    /// A fix newer than the last one.
    pub open spec fn is_newer(self, time: Timestamp) -> bool {
        match self.last_delivered {
            Some(last) => time.instant() > last.instant(),
            None => true,
        }
    }

    /// Asks for one fix. While the user has not decided, the request is held. Returns whether the
    /// one-shot is to begin now.
    pub fn update_once(&mut self, status: AuthorizationStatus) -> (begin: bool)
        ensures
            begin == (status != AuthorizationStatus::NotDetermined),
            *final(self) == if begin {
                *old(self)
            } else {
                DelegateState {
                    pending: Pending { update_once: true, ..old(self).pending },
                    ..*old(self)
                }
            },
    {
        if status == AuthorizationStatus::NotDetermined {
            self.pending = Pending { update_once: true, ..self.pending };
            false
        } else {
            true
        }
    }

    /// Asks for every fix. While the user has not decided, the request is held. Returns whether
    /// updates are to start now.
    pub fn start_updates(&mut self, status: AuthorizationStatus) -> (begin: bool)
        ensures
            begin == (status != AuthorizationStatus::NotDetermined),
            *final(self) == if begin {
                DelegateState { one_shot: false, ..*old(self) }
            } else {
                DelegateState {
                    pending: Pending { start_updates: true, ..old(self).pending },
                    ..*old(self)
                }
            },
    {
        if status == AuthorizationStatus::NotDetermined {
            self.pending = Pending { start_updates: true, ..self.pending };
            false
        } else {
            self.begin_continuous();
            true
        }
    }

    /// Cancels a held request for updates; a held one-shot stays.
    pub fn stop_updates(&mut self)
        ensures
            *final(self) == (DelegateState {
                pending: Pending { start_updates: false, ..old(self).pending },
                ..*old(self)
            }),
    {
        self.pending = Pending { start_updates: false, ..self.pending };
    }

    /// From here on every fix is passed along.
    pub fn begin_continuous(&mut self)
        ensures
            *final(self) == (DelegateState { one_shot: false, ..*old(self) }),
    {
        self.one_shot = false;
    }

    /// Begins a one-shot with the fix at hand, if there is one. Returns whether that is delivered,
    /// as a cached fix: it has to be recent.
    pub fn begin_one_shot(&mut self, cached: Option<Timestamp>, now: Timestamp) -> (deliver: bool)
        ensures
            deliver == super::is_recent(cached, now),
            *final(self) == (DelegateState {
                one_shot: true,
                last_delivered: if deliver {
                    cached
                } else {
                    None
                },
                ..*old(self)
            }),
    {
        self.one_shot = true;
        self.last_delivered = None;
        if super::cached_fix_is_recent(cached, now) {
            self.last_delivered = cached;
            true
        } else {
            false
        }
    }

    /// Whether a fix is passed on.
    pub fn location_updated(&mut self, time: Timestamp) -> (deliver: bool)
        ensures
            deliver == (!old(self).one_shot || old(self).is_newer(time)),
            *final(self) == if old(self).one_shot && deliver {
                DelegateState { last_delivered: Some(time), ..*old(self) }
            } else {
                *old(self)
            },
    {
        if !self.one_shot {
            return true;
        }
        if let Some(last) = self.last_delivered {
            if time.at_or_before(&last) {
                return false;
            }
        }
        self.last_delivered = Some(time);
        true
    }

    /// What is reported when the location manager fails. A one-shot that delivered something
    /// already is not overwritten with an error.
    pub fn failed(&self, code: i64) -> (r: Option<Error>)
        ensures
            r == if self.one_shot && self.last_delivered is Some {
                None
            } else {
                Some(
                    if code == 0 {
                        Error::TemporarilyUnavailable
                    } else if code == 1 {
                        Error::AuthorizationDenied
                    } else if code == 2 {
                        Error::Network
                    } else {
                        Error::Unknown
                    },
                )
            },
    {
        if self.one_shot && self.last_delivered.is_some() {
            return None;
        }
        Some(
            match code {
                0 => Error::TemporarilyUnavailable,
                1 => Error::AuthorizationDenied,
                2 => Error::Network,
                _ => Error::Unknown,
            },
        )
    }

    /// The user decided, or the system tells what they decided earlier. Held requests are served,
    /// the one-shot first, so that updates leave the delegate in continuous mode; or they are
    /// refused. Where nothing was held, a refusal is not reported.
    pub fn authorization_changed(&mut self, status: AuthorizationStatus) -> (r:
        AuthorizationOutcome)
        ensures
            r == (AuthorizationOutcome {
                request_location: status.allows() && old(self).pending.update_once,
                start_updating: status.allows() && old(self).pending.start_updates,
                error: if status.refuses() && (old(self).pending.update_once || old(
                    self,
                ).pending.start_updates) {
                    Some(Error::AuthorizationDenied)
                } else {
                    None
                },
            }),
            *final(self) == if status.allows() || status.refuses() {
                DelegateState {
                    pending: Pending { update_once: false, start_updates: false },
                    ..*old(self)
                }
            } else {
                *old(self)
            },
    {
        let held = self.pending;
        match status {
            AuthorizationStatus::AuthorizedAlways => {
                self.pending = Pending::none();
                AuthorizationOutcome {
                    request_location: held.update_once,
                    start_updating: held.start_updates,
                    error: None,
                }
            },
            AuthorizationStatus::AuthorizedWhenInUse => {
                self.pending = Pending::none();
                AuthorizationOutcome {
                    request_location: held.update_once,
                    start_updating: held.start_updates,
                    error: None,
                }
            },
            AuthorizationStatus::NotDetermined => AuthorizationOutcome {
                request_location: false,
                start_updating: false,
                error: None,
            },
            AuthorizationStatus::Other => AuthorizationOutcome {
                request_location: false,
                start_updating: false,
                error: None,
            },
            _ => {
                self.pending = Pending::none();
                AuthorizationOutcome {
                    request_location: false,
                    start_updating: false,
                    error: if held.update_once || held.start_updates {
                        Some(Error::AuthorizationDenied)
                    } else {
                        None
                    },
                }
            },
        }
    }
}

/// Within a one-shot, the fixes that are passed on only ever get newer.
pub proof fn one_shots_never_go_backwards(state: DelegateState, first: Timestamp, second: Timestamp)
    requires
        state.one_shot,
        state.is_newer(first),
        (DelegateState { last_delivered: Some(first), ..state }).is_newer(second),
    ensures
        second.instant() > first.instant(),
        state.is_newer(second),
{
}

} // verus!

//! Locations from Android's location manager: which requests wait for the user, and what is asked
//! of them.

use super::{Accuracy, Error, Pending, Result};
use crate::time::Timestamp;
use vstd::prelude::*;

verus! {

pub const COARSE_LOCATION_PERMISSION: &'static str = "android.permission.ACCESS_COARSE_LOCATION";

pub const FINE_LOCATION_PERMISSION: &'static str = "android.permission.ACCESS_FINE_LOCATION";

/// What `checkSelfPermission` answers where a permission is granted.
pub const PERMISSION_GRANTED: i32 = 0;

/// The state of a location manager.
#[derive(Clone, Copy, Debug, PartialEq, Eq, Structural)]
pub struct PermissionState {
    pub pending: Pending,
    /// From the last request for authorization; used when the user is asked on our own account.
    pub accuracy: Accuracy,
    /// The user is being asked.
    pub requesting: bool,
    /// Nobody listens any more.
    pub dropped: bool,
}

/// What to do about a request.
#[derive(Clone, Copy, Debug, PartialEq, Eq, Structural)]
pub enum PermissionStep {
    /// Nothing: it is allowed already, or the user is being asked.
    Settled,
    /// Carry the request out.
    Run,
    /// Ask the user for the permissions that this accuracy needs. If that fails, call
    /// [`PermissionState::prompt_failed`].
    Prompt(Accuracy),
}

/// What is done once the user has answered, in this order.
#[derive(Clone, Copy, Debug, PartialEq, Eq, Structural)]
pub struct PermissionOutcome {
    pub run_update_once: bool,
    pub run_start_updates: bool,
    pub error: Option<Error>,
}

/// Either permission is enough, even for a precise request: the user is not asked again and again.
pub fn has_location_permission(coarse: i32, fine: i32) -> (r: bool)
    ensures
        r == (coarse == PERMISSION_GRANTED || fine == PERMISSION_GRANTED),
{
    coarse == PERMISSION_GRANTED || fine == PERMISSION_GRANTED
}

/// The permissions that an accuracy needs. Newer systems ignore a request for the fine one alone,
/// so both are asked for and the user chooses.
pub open spec fn permissions_for(accuracy: Accuracy) -> Seq<&'static str> {
    match accuracy {
        Accuracy::Approximate => seq![COARSE_LOCATION_PERMISSION],
        Accuracy::Precise => seq![COARSE_LOCATION_PERMISSION, FINE_LOCATION_PERMISSION],
    }
}

pub fn requested_permissions(accuracy: Accuracy) -> (r: Vec<&'static str>)
    ensures
        r@ == permissions_for(accuracy),
{
    let mut permissions: Vec<&'static str> = Vec::new();
    permissions.push(COARSE_LOCATION_PERMISSION);
    if let Accuracy::Precise = accuracy {
        permissions.push(FINE_LOCATION_PERMISSION);
    }
    permissions
}

impl PermissionState {
    pub fn new() -> (r: PermissionState)
        ensures
            r == (PermissionState {
                pending: Pending { update_once: false, start_updates: false },
                accuracy: Accuracy::Precise,
                requesting: false,
                dropped: false,
            }),
    {
        PermissionState {
            pending: Pending::none(),
            accuracy: Accuracy::Precise,
            requesting: false,
            dropped: false,
        }
    }

    /// The user is asked, unless they are being asked already.
    pub open spec fn prompting(self, accuracy: Accuracy) -> (PermissionState, PermissionStep) {
        if self.requesting {
            (self, PermissionStep::Settled)
        } else {
            (
                PermissionState { requesting: true, ..self },
                PermissionStep::Prompt(accuracy),
            )
        }
    }

    fn launch_permission_request(&mut self, accuracy: Accuracy) -> (step: PermissionStep)
        ensures
            (*final(self), step) == old(self).prompting(accuracy),
    {
        if self.requesting {
            return PermissionStep::Settled;
        }
        self.requesting = true;
        PermissionStep::Prompt(accuracy)
    }

    /// Asks for permission to get locations of that accuracy.
    pub fn request_authorization(&mut self, accuracy: Accuracy, permitted: bool) -> (step:
        PermissionStep)
        ensures
            ({
                let tuned = PermissionState { accuracy, ..*old(self) };
                (*final(self), step) == if permitted {
                    (tuned, PermissionStep::Settled)
                } else {
                    tuned.prompting(accuracy)
                }
            }),
    {
        self.accuracy = accuracy;
        if permitted {
            return PermissionStep::Settled;
        }
        self.launch_permission_request(accuracy)
    }

    /// Asks for one fix. Without permission the request is held, and the user is asked again.
    pub fn update_once(&mut self, permitted: bool) -> (step: PermissionStep)
        ensures
            (*final(self), step) == if permitted {
                (*old(self), PermissionStep::Run)
            } else {
                PermissionState {
                    pending: Pending { update_once: true, ..old(self).pending },
                    ..*old(self)
                }.prompting(old(self).accuracy)
            },
    {
        if permitted {
            return PermissionStep::Run;
        }
        self.pending = Pending { update_once: true, ..self.pending };
        let accuracy = self.accuracy;
        self.launch_permission_request(accuracy)
    }

    /// Asks for every fix. Without permission the request is held, and the user is asked again.
    pub fn start_updates(&mut self, permitted: bool) -> (step: PermissionStep)
        ensures
            (*final(self), step) == if permitted {
                (*old(self), PermissionStep::Run)
            } else {
                PermissionState {
                    pending: Pending { start_updates: true, ..old(self).pending },
                    ..*old(self)
                }.prompting(old(self).accuracy)
            },
    {
        if permitted {
            return PermissionStep::Run;
        }
        self.pending = Pending { start_updates: true, ..self.pending };
        let accuracy = self.accuracy;
        self.launch_permission_request(accuracy)
    }

    /// Cancels a held request for updates, so that a later grant does not start them.
    pub fn stop_updates(&mut self)
        ensures
            *final(self) == (PermissionState {
                pending: Pending { start_updates: false, ..old(self).pending },
                ..*old(self)
            }),
    {
        self.pending = Pending { start_updates: false, ..self.pending };
    }

    /// The user could not be asked.
    pub fn prompt_failed(&mut self)
        ensures
            *final(self) == (PermissionState { requesting: false, ..*old(self) }),
    {
        self.requesting = false;
    }

    /// Nobody listens any more. Returns whether the question to the user has to be taken away.
    pub fn drop_listener(&mut self) -> (remove_prompt: bool)
        ensures
            *final(self) == (PermissionState { dropped: true, ..*old(self) }),
            remove_prompt == old(self).requesting,
    {
        self.dropped = true;
        self.requesting
    }

    /// The user answered. Held requests are carried out, the single fix first, so that the stream
    /// has the last word; a refusal is reported. Once nobody listens, nothing happens.
    pub fn handle_permission_result(&mut self, granted: bool) -> (r: PermissionOutcome)
        ensures
            old(self).dropped ==> *final(self) == *old(self) && r == (PermissionOutcome {
                run_update_once: false,
                run_start_updates: false,
                error: None,
            }),
            !old(self).dropped ==> *final(self) == (PermissionState {
                requesting: false,
                pending: Pending { update_once: false, start_updates: false },
                ..*old(self)
            }) && r == (PermissionOutcome {
                run_update_once: granted && old(self).pending.update_once,
                run_start_updates: granted && old(self).pending.start_updates,
                error: if granted {
                    None
                } else {
                    Some(Error::AuthorizationDenied)
                },
            }),
    {
        if self.dropped {
            return PermissionOutcome {
                run_update_once: false,
                run_start_updates: false,
                error: None,
            };
        }
        self.requesting = false;
        let held = self.pending;
        self.pending = Pending::none();
        if granted {
            PermissionOutcome {
                run_update_once: held.update_once,
                run_start_updates: held.start_updates,
                error: None,
            }
        } else {
            PermissionOutcome {
                run_update_once: false,
                run_start_updates: false,
                error: Some(Error::AuthorizationDenied),
            }
        }
    }
}

/// A request that the location manager did not take has no provider that is enabled.
pub fn started_result(started: bool) -> (r: Result<()>)
    ensures
        r == if started {
            Ok::<(), Error>(())
        } else {
            Err(Error::TemporarilyUnavailable)
        },
{
    if started {
        Ok(())
    } else {
        Err(Error::TemporarilyUnavailable)
    }
}

/// How a call into Java failed.
#[derive(Clone, Copy, Debug, PartialEq, Eq, Structural)]
pub enum JavaFailure {
    /// It threw a `SecurityException`.
    SecurityException,
    /// It threw something else.
    Exception,
    /// The call itself could not be made.
    Other,
}

pub fn map_android_error(failure: JavaFailure) -> (r: Error)
    ensures
        r == if failure == JavaFailure::SecurityException {
            Error::AuthorizationDenied
        } else {
            Error::Unknown
        },
{
    match failure {
        JavaFailure::SecurityException => Error::AuthorizationDenied,
        JavaFailure::Exception => Error::Unknown,
        JavaFailure::Other => Error::Unknown,
    }
}

/// What happens to the answer to a request for a fresh fix.
#[derive(Clone, Copy, Debug, PartialEq, Eq, Structural)]
pub enum Delivery {
    /// Hand the live fix over.
    Live,
    /// Hand the last known fix over, as a cached one.
    LastKnown,
    Fail(Error),
}

/// A fresh fix is delivered. Without one, the last known fix takes its place if it is recent.
pub fn choose_delivery(fresh: bool, last_known: Result<Option<i64>>, now: Timestamp) -> (r:
    Delivery)
    ensures
        r == if fresh {
            Delivery::Live
        } else if last_known matches Ok(Some(millis)) && super::is_recent(
            Some(millis_time(millis)),
            now,
        ) {
            Delivery::LastKnown
        } else {
            Delivery::Fail(Error::TemporarilyUnavailable)
        },
{
    if fresh {
        return Delivery::Live;
    }
    if let Ok(known) = last_known {
        if let Some(millis) = known {
            if super::cached_fix_is_recent(Some(time_from_millis(millis)), now) {
                return Delivery::LastKnown;
            }
        }
    }
    Delivery::Fail(Error::TemporarilyUnavailable)
}

/// Milliseconds since the Unix epoch as a time. A negative count is a time before it.
pub open spec fn millis_time(millis: i64) -> Timestamp {
    Timestamp {
        secs: (millis as int / 1000) as i64,
        nanos: (millis as int % 1000 * 1_000_000) as u32,
    }
}

pub fn time_from_millis(millis: i64) -> (r: Timestamp)
    ensures
        r == millis_time(millis),
        r.instant() == millis * 1_000_000,
        r.nanos < 1_000_000_000,
{
    let (secs, rest): (i64, i64) = if millis >= 0 {
        (millis / 1000, millis % 1000)
    } else {
        // Whole seconds are counted downwards, and what is left upwards.
        let below: i64 = -(millis + 1);
        (-(below / 1000) - 1, 999 - below % 1000)
    };
    Timestamp { secs, nanos: rest as u32 * 1_000_000 }
}

/// The providers whose last known fix is looked at.
pub open spec fn known_providers() -> Seq<&'static str> {
    seq!["fused", "gps", "network"]
}

pub fn last_known_providers() -> (r: Vec<&'static str>)
    ensures
        r@ == known_providers(),
{
    let mut providers: Vec<&'static str> = Vec::new();
    providers.push("fused");
    providers.push("gps");
    providers.push("network");
    providers
}

/// The fix to fall back on, by when each provider last knew one: the most recent, and of several as
/// recent the first.
pub fn pick_last_known(times: &Vec<Option<i64>>) -> (r: Option<usize>)
    ensures
        r is None <==> forall|i: int| 0 <= i < times@.len() ==> (#[trigger] times@[i]) is None,
        r matches Some(best) ==> {
            &&& best < times@.len()
            &&& times@[best as int] is Some
            &&& forall|i: int|
                0 <= i < times@.len() && (#[trigger] times@[i]) is Some ==> times@[i]->0
                    <= times@[best as int]->0
            &&& forall|i: int|
                0 <= i < best && (#[trigger] times@[i]) is Some ==> times@[i]->0
                    < times@[best as int]->0
        },
{
    let mut best: Option<usize> = None;
    for i in 0..times.len()
        invariant
            best is None <==> forall|k: int| 0 <= k < i ==> (#[trigger] times@[k]) is None,
            best matches Some(at) ==> {
                &&& at < i
                &&& times@[at as int] is Some
                &&& forall|k: int|
                    0 <= k < i && (#[trigger] times@[k]) is Some ==> times@[k]->0
                        <= times@[at as int]->0
                &&& forall|k: int|
                    0 <= k < at && (#[trigger] times@[k]) is Some ==> times@[k]->0
                        < times@[at as int]->0
            },
    {
        if let Some(time) = times[i] {
            let newer = match best {
                Some(at) => match times[at] {
                    Some(known) => time > known,
                    None => true,
                },
                None => true,
            };
            if newer {
                best = Some(i);
            }
        }
    }
    best
}

/// Two requests at once show the user one question.
pub proof fn the_user_is_asked_once(state: PermissionState, first: Accuracy, second: Accuracy)
    ensures
        state.prompting(first).0.prompting(second).1 == PermissionStep::Settled,
{
}

} // verus!

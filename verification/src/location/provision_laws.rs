//! How each system's location service is set up and asked.

use super::android;
use super::android::{PermissionState, PermissionStep};
use super::apple::{AuthorizationStatus, DelegateState};
use super::backend;
use super::backend::{BackendKind, BackendStep, WorkerAction};
use super::bus_errors::PortalInitError;
use super::{Accuracy, Error};
use crate::time::Timestamp;
use vstd::prelude::*;

verus! {

/// GeoClue is set up where it was chosen before and may be asked directly. Where it may not, there is
/// nothing else; in every other case the portal comes first.
pub proof fn the_portal_comes_first(pinned: Option<BackendKind>, direct_allowed: bool)
    ensures
        backend::first_step(pinned, direct_allowed) == BackendStep::TryGeoClue <==> pinned == Some(
            BackendKind::GeoClue,
        ) && direct_allowed,
        backend::first_step(pinned, direct_allowed) == BackendStep::TryPortal <==> pinned != Some(
            BackendKind::GeoClue,
        ),
        pinned == Some(BackendKind::GeoClue) && !direct_allowed ==> backend::first_step(
            pinned,
            direct_allowed,
        ) == BackendStep::Fail(Error::PermanentlyUnavailable),
{
}

/// GeoClue is tried after the portal only where the portal is missing, GeoClue may be asked directly,
/// and nothing was chosen before. Otherwise the portal's own failure is what is told.
pub proof fn geoclue_stands_in_for_a_missing_portal(
    pinned: Option<BackendKind>,
    failure: PortalInitError,
    direct_allowed: bool,
)
    ensures
        backend::second_step(pinned, failure, direct_allowed) == BackendStep::TryGeoClue <==> {
            &&& pinned is None
            &&& failure.fallback_allowed
            &&& direct_allowed
        },
        backend::second_step(pinned, failure, direct_allowed) != BackendStep::TryGeoClue
            ==> backend::second_step(pinned, failure, direct_allowed) == BackendStep::Fail(
            failure.error,
        ),
{
}

/// A worker that was cancelled or told to stop does nothing more, and confirms only the latter. A lost
/// provider is rebuilt as the kind it was.
pub proof fn workers_serve_while_they_are_wanted(
    cancelled: bool,
    shutdown: bool,
    usable: bool,
    pinned: BackendKind,
)
    ensures
        ({
            let action = backend::worker_action_for(cancelled, shutdown, usable, pinned);
            &&& action == WorkerAction::Serve <==> !cancelled && !shutdown && usable
            &&& action == WorkerAction::Rebuild(pinned) <==> !cancelled && !shutdown && !usable
            &&& action == (WorkerAction::Quit { confirm: true }) <==> shutdown
            &&& action == (WorkerAction::Quit { confirm: false }) <==> cancelled && !shutdown
        }),
{
}

/// An approximate location takes the coarse permission alone. A precise one takes the fine one as well.
pub proof fn permissions_fit_the_accuracy(accuracy: Accuracy)
    ensures
        ({
            let asked = android::permissions_for(accuracy);
            &&& asked.len() == if accuracy == Accuracy::Precise {
                2nat
            } else {
                1nat
            }
            &&& asked[0]@ == "android.permission.ACCESS_COARSE_LOCATION"@
            &&& accuracy == Accuracy::Precise ==> asked[1]@
                == "android.permission.ACCESS_FINE_LOCATION"@
        }),
{
}

/// The user is asked for the accuracy that is wanted, unless they are being asked already. What waits
/// for the answer stays as it was.
pub proof fn the_user_is_asked_for_what_is_wanted(state: PermissionState, accuracy: Accuracy)
    ensures
        ({
            let (after, step) = state.prompting(accuracy);
            &&& after.requesting
            &&& after.pending == state.pending
            &&& after.accuracy == state.accuracy
            &&& after.dropped == state.dropped
            &&& state.requesting ==> step == PermissionStep::Settled
            &&& !state.requesting ==> step == PermissionStep::Prompt(accuracy)
        }),
{
}

/// Milliseconds after the epoch are just that much time after it, before it where there are fewer than
/// none.
pub proof fn milliseconds_are_times(millis: i64)
    ensures
        ({
            let time = android::millis_time(millis);
            &&& time.secs * 1000 * 1_000_000 + time.nanos == millis * 1_000_000
            &&& time.nanos < 1_000_000_000
        }),
{
    let whole = millis as int / 1000;
    let rest = millis as int % 1000;
    assert(whole * 1000 + rest == millis);
    assert(0 <= rest < 1000);
}

/// The last fixes are looked for in this order.
pub proof fn providers_are_asked_in_order()
    ensures
        android::known_providers().len() == 3,
        android::known_providers()[0]@ == "fused"@,
        android::known_providers()[1]@ == "gps"@,
        android::known_providers()[2]@ == "network"@,
{
}

/// Some answers allow locations, some refuse them, and none does both. Before the user has answered,
/// nothing is allowed and nothing refused.
pub proof fn answers_allow_or_refuse(status: AuthorizationStatus)
    ensures
        status.allows() <==> status == AuthorizationStatus::AuthorizedAlways || status
            == AuthorizationStatus::AuthorizedWhenInUse,
        status.refuses() <==> status == AuthorizationStatus::Denied || status
            == AuthorizationStatus::Restricted,
        !(status.allows() && status.refuses()),
{
}

/// Once a fix was delivered, only a later one is new.
pub proof fn only_later_fixes_are_new(state: DelegateState, time: Timestamp)
    ensures
        state.last_delivered is None ==> state.is_newer(time),
        state.last_delivered matches Some(last) ==> (state.is_newer(time) <==> time.secs
            * 1_000_000_000 + time.nanos > last.secs * 1_000_000_000 + last.nanos),
{
}

} // verus!

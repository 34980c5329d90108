//! Which provider a manager uses, and what its worker does with each command.

use super::bus_errors::PortalInitError;
use super::{Error, Result};
use vstd::prelude::*;

verus! {

#[derive(Clone, Copy, Debug, PartialEq, Eq, Structural)]
pub enum BackendKind {
    Portal,
    GeoClue,
}

/// Whether GeoClue may be asked directly. A sandboxed application has to stay with the portal, so
/// that its permission decision cannot be bypassed.
pub fn direct_fallback_allowed(
    flatpak_info_exists: bool,
    flatpak_id_set: bool,
    snap_set: bool,
    snap_name_set: bool,
) -> (r: bool)
    ensures
        r == !(flatpak_info_exists || flatpak_id_set || snap_set || snap_name_set),
{
    !flatpak_info_exists && !flatpak_id_set && !snap_set && !snap_name_set
}

/// Which provider to try first.
#[derive(Clone, Copy, Debug, PartialEq, Eq, Structural)]
pub enum BackendStep {
    /// Set up the portal, then call [`after_portal`] if that fails.
    TryPortal,
    /// Set up GeoClue.
    TryGeoClue,
    Fail(Error),
}

/// A manager starts with the portal. A later rebuild is pinned to what was chosen first: a provider
/// that never saw the user's refusal must not take the place of one that did.
pub open spec fn first_step(pinned: Option<BackendKind>, direct_allowed: bool) -> BackendStep {
    match pinned {
        Some(BackendKind::GeoClue) => if direct_allowed {
            BackendStep::TryGeoClue
        } else {
            BackendStep::Fail(Error::PermanentlyUnavailable)
        },
        _ => BackendStep::TryPortal,
    }
}

pub fn choose_backend(pinned: Option<BackendKind>, direct_allowed: bool) -> (r: BackendStep)
    ensures
        r == first_step(pinned, direct_allowed),
{
    match pinned {
        Some(BackendKind::GeoClue) => if direct_allowed {
            BackendStep::TryGeoClue
        } else {
            BackendStep::Fail(Error::PermanentlyUnavailable)
        },
        _ => BackendStep::TryPortal,
    }
}

/// GeoClue takes the portal's place only where no choice was made before, the portal is proved
/// absent, and the application is not sandboxed.
pub open spec fn second_step(
    pinned: Option<BackendKind>,
    failure: PortalInitError,
    direct_allowed: bool,
) -> BackendStep {
    if pinned is None && failure.fallback_allowed && direct_allowed {
        BackendStep::TryGeoClue
    } else {
        BackendStep::Fail(failure.error)
    }
}

pub fn after_portal(
    pinned: Option<BackendKind>,
    failure: PortalInitError,
    direct_allowed: bool,
) -> (r: BackendStep)
    ensures
        r == second_step(pinned, failure, direct_allowed),
{
    if pinned.is_none() && failure.fallback_allowed && direct_allowed {
        BackendStep::TryGeoClue
    } else {
        BackendStep::Fail(failure.error)
    }
}

/// A manager that started with the portal never gets to GeoClue, whatever becomes of the portal;
/// and without proof that the portal is absent, no manager does.
pub proof fn portal_users_never_bypass_it(failure: PortalInitError, direct_allowed: bool)
    ensures
        first_step(Some(BackendKind::Portal), direct_allowed) == BackendStep::TryPortal,
        second_step(Some(BackendKind::Portal), failure, direct_allowed) == BackendStep::Fail(
            failure.error,
        ),
        first_step(None, direct_allowed) == BackendStep::TryPortal,
        !failure.fallback_allowed ==> second_step(None, failure, direct_allowed)
            == BackendStep::Fail(failure.error),
{
}

/// A sandboxed application never gets to GeoClue.
pub proof fn sandboxed_applications_stay_with_the_portal(
    pinned: Option<BackendKind>,
    failure: PortalInitError,
)
    ensures
        first_step(pinned, false) != BackendStep::TryGeoClue,
        second_step(pinned, failure, false) != BackendStep::TryGeoClue,
{
}

/// What the worker waits for.
#[derive(Clone, Copy, Debug, PartialEq, Eq, Structural)]
pub enum WorkerWait {
    /// A request for a single fix has run out of time.
    ExpireNow,
    /// The next command, but no longer than this many nanoseconds; then the request has run out of
    /// time.
    CommandFor(u64),
    /// The next command, however long it takes.
    Command,
}

pub fn worker_wait(deadline: Option<u64>, now: u64) -> (r: WorkerWait)
    ensures
        r == match deadline {
            Some(deadline) => if deadline <= now {
                WorkerWait::ExpireNow
            } else {
                WorkerWait::CommandFor((deadline - now) as u64)
            },
            None => WorkerWait::Command,
        },
{
    match deadline {
        Some(deadline) => if deadline <= now {
            WorkerWait::ExpireNow
        } else {
            WorkerWait::CommandFor(deadline - now)
        },
        None => WorkerWait::Command,
    }
}

/// What the worker does with a command.
#[derive(Clone, Copy, Debug, PartialEq, Eq, Structural)]
pub enum WorkerAction {
    /// End. Where the command asked for that, it is confirmed once everything is released.
    Quit { confirm: bool },
    /// Retire the lost provider's senders, and rebuild it, of the kind it was; then serve the
    /// command, or answer it with the error.
    Rebuild(BackendKind),
    /// Serve the command.
    Serve,
}

/// A cancelled worker serves nothing. A provider that was lost is rebuilt before a command is
/// served, so that its being unavailable is only temporary.
pub open spec fn worker_action_for(
    cancelled: bool,
    shutdown: bool,
    usable: bool,
    pinned: BackendKind,
) -> WorkerAction {
    if cancelled || shutdown {
        WorkerAction::Quit { confirm: shutdown }
    } else if !usable {
        WorkerAction::Rebuild(pinned)
    } else {
        WorkerAction::Serve
    }
}

pub fn worker_action(cancelled: bool, shutdown: bool, usable: bool, pinned: BackendKind) -> (r:
    WorkerAction)
    ensures
        r == worker_action_for(cancelled, shutdown, usable, pinned),
{
    if cancelled {
        return WorkerAction::Quit { confirm: shutdown };
    }
    if !shutdown && !usable {
        return WorkerAction::Rebuild(pinned);
    }
    if shutdown {
        WorkerAction::Quit { confirm: true }
    } else {
        WorkerAction::Serve
    }
}

/// How the worker's setup went, as the constructor sees it.
#[derive(Clone, Copy, Debug, PartialEq, Eq, Structural)]
pub enum Readiness {
    Ready,
    Failed(Error),
    /// The worker ended without a word.
    Gone,
    /// The worker did not answer in time.
    TimedOut,
}

/// What constructing a manager comes to. A worker that is late is cancelled.
pub fn construction_outcome(readiness: Readiness) -> (r: (Result<()>, bool))
    ensures
        r == match readiness {
            Readiness::Ready => (Ok::<(), Error>(()), false),
            Readiness::Failed(error) => (Err(error), false),
            Readiness::Gone => (Err(Error::PermanentlyUnavailable), false),
            Readiness::TimedOut => (Err(Error::TemporarilyUnavailable), true),
        },
{
    match readiness {
        Readiness::Ready => (Ok(()), false),
        Readiness::Failed(error) => (Err(error), false),
        Readiness::Gone => (Err(Error::PermanentlyUnavailable), false),
        Readiness::TimedOut => (Err(Error::TemporarilyUnavailable), true),
    }
}

} // verus!

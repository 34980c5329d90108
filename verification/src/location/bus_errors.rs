//! What a failure on the bus means for getting the location.

use super::Error;
use crate::bus;
use crate::bus::{BusError, BusFailure, IoFailure};
use vstd::prelude::*;

verus! {

/// Error names that mean the user, or the system for them, said no.
pub open spec fn portal_denials() -> Seq<&'static str> {
    seq![
        "org.freedesktop.DBus.Error.AccessDenied",
        "org.freedesktop.DBus.Error.AuthFailed",
        "org.freedesktop.portal.Error.NotAllowed",
        "org.freedesktop.portal.Error.Cancelled",
    ]
}

/// As [`portal_denials`], from GeoClue.
pub open spec fn geoclue_denials() -> Seq<&'static str> {
    seq![
        "org.freedesktop.DBus.Error.AccessDenied",
        "org.freedesktop.DBus.Error.AuthFailed",
        "org.freedesktop.GeoClue2.Error.AccessDenied",
        "org.freedesktop.GeoClue2.Error.NotAuthorized",
        "org.freedesktop.GeoClue2.Error.PermissionDenied",
    ]
}

/// As [`portal_denials`], from the bus itself.
pub open spec fn standard_denials() -> Seq<&'static str> {
    seq![
        "org.freedesktop.DBus.Error.AccessDenied",
        "org.freedesktop.DBus.Error.AuthFailed",
        "org.freedesktop.DBus.Error.InteractiveAuthorizationRequired",
    ]
}

/// Error names that mean there is no such service.
pub open spec fn absences() -> Seq<&'static str> {
    seq![
        "org.freedesktop.DBus.Error.ServiceUnknown",
        "org.freedesktop.DBus.Error.NameHasNoOwner",
        "org.freedesktop.DBus.Error.NoServer",
        "org.freedesktop.DBus.Error.UnknownInterface",
        "org.freedesktop.DBus.Error.UnknownMethod",
        "org.freedesktop.DBus.Error.UnknownObject",
        "org.freedesktop.DBus.Error.UnknownProperty",
    ]
}

/// Error names that mean the service could not be started.
pub open spec fn activation_failures() -> Seq<&'static str> {
    seq![
        "org.freedesktop.DBus.Error.Spawn.ServiceNotFound",
        "org.freedesktop.DBus.Error.Spawn.ExecFailed",
        "org.freedesktop.DBus.Error.Spawn.ChildExited",
        "org.freedesktop.DBus.Error.Spawn.ChildSignaled",
        "org.freedesktop.DBus.Error.Spawn.Failed",
    ]
}

/// Error names that leave open whether the call was carried out.
pub open spec fn lost_replies() -> Seq<&'static str> {
    seq![
        "org.freedesktop.DBus.Error.NoReply",
        "org.freedesktop.DBus.Error.Timeout",
        "org.freedesktop.DBus.Error.TimedOut",
        "org.freedesktop.DBus.Error.Disconnected",
        "org.freedesktop.DBus.Error.IOError",
    ]
}

/// GeoClue's names for having no fix yet.
pub open spec fn geoclue_delays() -> Seq<&'static str> {
    seq![
        "org.freedesktop.GeoClue2.Error.NotAvailable",
        "org.freedesktop.GeoClue2.Error.NoLocation",
    ]
}

fn is_absence(name: &str) -> (r: bool)
    ensures
        r == bus::listed(name@, absences()),
{
    let names = [
        "org.freedesktop.DBus.Error.ServiceUnknown",
        "org.freedesktop.DBus.Error.NameHasNoOwner",
        "org.freedesktop.DBus.Error.NoServer",
        "org.freedesktop.DBus.Error.UnknownInterface",
        "org.freedesktop.DBus.Error.UnknownMethod",
        "org.freedesktop.DBus.Error.UnknownObject",
        "org.freedesktop.DBus.Error.UnknownProperty",
    ];
    assert(names@ == absences());
    bus::is_listed(name, &names)
}

fn is_activation_failure(name: &str) -> (r: bool)
    ensures
        r == bus::listed(name@, activation_failures()),
{
    let names = [
        "org.freedesktop.DBus.Error.Spawn.ServiceNotFound",
        "org.freedesktop.DBus.Error.Spawn.ExecFailed",
        "org.freedesktop.DBus.Error.Spawn.ChildExited",
        "org.freedesktop.DBus.Error.Spawn.ChildSignaled",
        "org.freedesktop.DBus.Error.Spawn.Failed",
    ];
    assert(names@ == activation_failures());
    bus::is_listed(name, &names)
}

fn is_lost_reply(name: &str) -> (r: bool)
    ensures
        r == bus::listed(name@, lost_replies()),
{
    let names = [
        "org.freedesktop.DBus.Error.NoReply",
        "org.freedesktop.DBus.Error.Timeout",
        "org.freedesktop.DBus.Error.TimedOut",
        "org.freedesktop.DBus.Error.Disconnected",
        "org.freedesktop.DBus.Error.IOError",
    ];
    assert(names@ == lost_replies());
    bus::is_listed(name, &names)
}

/// What an error name that the portal answers with means.
pub open spec fn portal_method_error(name: Seq<char>) -> Error {
    if bus::listed(name, portal_denials()) {
        Error::AuthorizationDenied
    } else if bus::listed(name, absences()) || bus::listed(name, activation_failures()) {
        Error::PermanentlyUnavailable
    } else if name == "org.freedesktop.DBus.Error.NoNetwork"@ {
        Error::Network
    } else if bus::listed(name, lost_replies()) {
        Error::TemporarilyUnavailable
    } else {
        Error::Unknown
    }
}

fn map_portal_method_error(name: &str) -> (r: Error)
    ensures
        r == portal_method_error(name@),
{
    let denials = [
        "org.freedesktop.DBus.Error.AccessDenied",
        "org.freedesktop.DBus.Error.AuthFailed",
        "org.freedesktop.portal.Error.NotAllowed",
        "org.freedesktop.portal.Error.Cancelled",
    ];
    assert(denials@ == portal_denials());
    if bus::is_listed(name, &denials) {
        Error::AuthorizationDenied
    } else if is_absence(name) || is_activation_failure(name) {
        Error::PermanentlyUnavailable
    } else if crate::text::same(name, "org.freedesktop.DBus.Error.NoNetwork") {
        Error::Network
    } else if is_lost_reply(name) {
        Error::TemporarilyUnavailable
    } else {
        Error::Unknown
    }
}

/// What an error name that GeoClue answers with means.
pub open spec fn geoclue_method_error(name: Seq<char>) -> Error {
    if bus::listed(name, geoclue_denials()) {
        Error::AuthorizationDenied
    } else if bus::listed(name, absences()) || bus::listed(name, activation_failures()) {
        Error::PermanentlyUnavailable
    } else if name == "org.freedesktop.DBus.Error.NoNetwork"@ {
        Error::Network
    } else if bus::listed(name, lost_replies()) || bus::listed(name, geoclue_delays()) {
        Error::TemporarilyUnavailable
    } else {
        Error::Unknown
    }
}

/// What an error name that GeoClue answers with means.
pub fn map_method_error_name(name: &str) -> (r: Error)
    ensures
        r == geoclue_method_error(name@),
{
    let denials = [
        "org.freedesktop.DBus.Error.AccessDenied",
        "org.freedesktop.DBus.Error.AuthFailed",
        "org.freedesktop.GeoClue2.Error.AccessDenied",
        "org.freedesktop.GeoClue2.Error.NotAuthorized",
        "org.freedesktop.GeoClue2.Error.PermissionDenied",
    ];
    assert(denials@ == geoclue_denials());
    let delays = [
        "org.freedesktop.GeoClue2.Error.NotAvailable",
        "org.freedesktop.GeoClue2.Error.NoLocation",
    ];
    assert(delays@ == geoclue_delays());
    if bus::is_listed(name, &denials) {
        Error::AuthorizationDenied
    } else if is_absence(name) || is_activation_failure(name) {
        Error::PermanentlyUnavailable
    } else if crate::text::same(name, "org.freedesktop.DBus.Error.NoNetwork") {
        Error::Network
    } else if is_lost_reply(name) || bus::is_listed(name, &delays) {
        Error::TemporarilyUnavailable
    } else {
        Error::Unknown
    }
}

/// What a standard error of the bus means.
pub open spec fn standard_error(name: Seq<char>) -> Error {
    if bus::listed(name, standard_denials()) {
        Error::AuthorizationDenied
    } else if bus::listed(name, absences()) {
        Error::PermanentlyUnavailable
    } else if name == "org.freedesktop.DBus.Error.NoNetwork"@ {
        Error::Network
    } else if bus::listed(name, lost_replies()) {
        Error::TemporarilyUnavailable
    } else {
        Error::Unknown
    }
}

fn map_standard_error(name: &str) -> (r: Error)
    ensures
        r == standard_error(name@),
{
    let denials = [
        "org.freedesktop.DBus.Error.AccessDenied",
        "org.freedesktop.DBus.Error.AuthFailed",
        "org.freedesktop.DBus.Error.InteractiveAuthorizationRequired",
    ];
    assert(denials@ == standard_denials());
    if bus::is_listed(name, &denials) {
        Error::AuthorizationDenied
    } else if is_absence(name) {
        Error::PermanentlyUnavailable
    } else if crate::text::same(name, "org.freedesktop.DBus.Error.NoNetwork") {
        Error::Network
    } else if is_lost_reply(name) {
        Error::TemporarilyUnavailable
    } else {
        Error::Unknown
    }
}

/// What a failed call to the portal means to the application.
pub open spec fn portal_error(error: BusFailure) -> Error {
    match error {
        BusFailure::InterfaceNotFound | BusFailure::Address | BusFailure::Handshake
        | BusFailure::Unsupported => Error::PermanentlyUnavailable,
        BusFailure::InputOutput(_) => Error::TemporarilyUnavailable,
        BusFailure::Method(name) => portal_method_error(name),
        BusFailure::Standard(name) => standard_error(name),
        BusFailure::Other => Error::Unknown,
    }
}

/// What a failed call to GeoClue means to the application.
pub open spec fn geoclue_error(error: BusFailure) -> Error {
    match error {
        BusFailure::Method(name) => geoclue_method_error(name),
        _ => portal_error(error),
    }
}

pub fn map_portal_error(error: &BusError) -> (r: Error)
    ensures
        r == portal_error(error@),
{
    match error {
        BusError::InterfaceNotFound => Error::PermanentlyUnavailable,
        BusError::Address => Error::PermanentlyUnavailable,
        BusError::Handshake => Error::PermanentlyUnavailable,
        BusError::Unsupported => Error::PermanentlyUnavailable,
        BusError::InputOutput(_) => Error::TemporarilyUnavailable,
        BusError::Method(name) => map_portal_method_error(name),
        BusError::Standard(name) => map_standard_error(name),
        BusError::Other => Error::Unknown,
    }
}

pub fn map_geoclue_error(error: &BusError) -> (r: Error)
    ensures
        r == geoclue_error(error@),
{
    match error {
        BusError::Method(name) => map_method_error_name(name),
        _ => map_portal_error(error),
    }
}

/// What a failed call to the portal means to the application.
pub fn map_zbus_error(error: zbus::Error) -> (r: Error)
    ensures
        r == portal_error(bus::described(error)),
{
    let described = bus::describe(error);
    map_portal_error(&described)
}

/// Why the portal could not be set up, and whether GeoClue may be tried in its place.
///
/// The public error is separate from the decision to try GeoClue directly: only failures that
/// prove the portal absent allow it.
#[derive(Clone, Copy, Debug, PartialEq, Eq, Structural)]
pub struct PortalInitError {
    pub error: Error,
    pub fallback_allowed: bool,
}

impl PortalInitError {
    pub fn unavailable(error: Error) -> (r: PortalInitError)
        ensures
            r == (PortalInitError { error, fallback_allowed: true }),
    {
        PortalInitError { error, fallback_allowed: true }
    }

    pub fn other(error: Error) -> (r: PortalInitError)
        ensures
            r == (PortalInitError { error, fallback_allowed: false }),
    {
        PortalInitError { error, fallback_allowed: false }
    }
}

/// Failures to connect that prove there is no session bus.
pub open spec fn session_bus_absent(error: BusFailure) -> bool {
    match error {
        BusFailure::Address | BusFailure::Unsupported => true,
        BusFailure::InputOutput(kind) => kind != IoFailure::Other,
        _ => false,
    }
}

pub fn classify_connection_failure(error: &BusError) -> (r: PortalInitError)
    ensures
        r == (PortalInitError {
            error: portal_error(error@),
            fallback_allowed: session_bus_absent(error@),
        }),
{
    let absent = match error {
        BusError::Address => true,
        BusError::Unsupported => true,
        BusError::InputOutput(kind) => *kind != IoFailure::Other,
        _ => false,
    };
    let public = map_portal_error(error);
    if absent {
        PortalInitError::unavailable(public)
    } else {
        PortalInitError::other(public)
    }
}

/// Whether the session bus can be reached at all.
pub fn classify_session_connection_error(error: zbus::Error) -> (r: PortalInitError)
    ensures
        r == (PortalInitError {
            error: portal_error(bus::described(error)),
            fallback_allowed: session_bus_absent(bus::described(error)),
        }),
{
    let described = bus::describe(error);
    classify_connection_failure(&described)
}

/// Error names that prove the portal cannot give locations. A `.service` file that exists but does
/// not start, or a name that nobody owns this second, proves nothing.
pub open spec fn capability_absences() -> Seq<&'static str> {
    seq![
        "org.freedesktop.DBus.Error.ServiceUnknown",
        "org.freedesktop.DBus.Error.NoServer",
        "org.freedesktop.DBus.Error.UnknownInterface",
        "org.freedesktop.DBus.Error.UnknownMethod",
        "org.freedesktop.DBus.Error.UnknownObject",
        "org.freedesktop.DBus.Error.UnknownProperty",
        "org.freedesktop.DBus.Error.InvalidArgs",
    ]
}

/// Whether a failed probe means that the portal has no location capability, as opposed to being
/// unhealthy right now.
pub open spec fn capability_absent(error: BusFailure) -> bool {
    match error {
        BusFailure::InterfaceNotFound => true,
        BusFailure::Method(name) => bus::listed(name, capability_absences()) || name
            == "org.freedesktop.DBus.Error.Spawn.ServiceNotFound"@,
        BusFailure::Standard(name) => bus::listed(name, capability_absences()),
        _ => false,
    }
}

fn is_capability_absence(name: &str) -> (r: bool)
    ensures
        r == bus::listed(name@, capability_absences()),
{
    let names = [
        "org.freedesktop.DBus.Error.ServiceUnknown",
        "org.freedesktop.DBus.Error.NoServer",
        "org.freedesktop.DBus.Error.UnknownInterface",
        "org.freedesktop.DBus.Error.UnknownMethod",
        "org.freedesktop.DBus.Error.UnknownObject",
        "org.freedesktop.DBus.Error.UnknownProperty",
        "org.freedesktop.DBus.Error.InvalidArgs",
    ];
    assert(names@ == capability_absences());
    bus::is_listed(name, &names)
}

pub fn classify_probe_failure(error: &BusError) -> (r: PortalInitError)
    ensures
        r == (PortalInitError {
            error: portal_error(error@),
            fallback_allowed: capability_absent(error@),
        }),
{
    let absent = match error {
        BusError::InterfaceNotFound => true,
        BusError::Method(name) => is_capability_absence(name) || crate::text::same(
            name,
            "org.freedesktop.DBus.Error.Spawn.ServiceNotFound",
        ),
        BusError::Standard(name) => is_capability_absence(name),
        _ => false,
    };
    let public = map_portal_error(error);
    if absent {
        PortalInitError::unavailable(public)
    } else {
        PortalInitError::other(public)
    }
}

/// Whether the portal can give locations at all.
pub fn classify_portal_capability_error(error: zbus::Error) -> (r: PortalInitError)
    ensures
        r == (PortalInitError {
            error: portal_error(bus::described(error)),
            fallback_allowed: capability_absent(bus::described(error)),
        }),
{
    let described = bus::describe(error);
    classify_probe_failure(&described)
}

/// Error names that mean the object we addressed is gone already. Daemons that cannot delete a
/// client on request say that the method is unknown.
pub open spec fn departures() -> Seq<&'static str> {
    seq![
        "org.freedesktop.DBus.Error.UnknownObject",
        "org.freedesktop.DBus.Error.NameHasNoOwner",
        "org.freedesktop.DBus.Error.ServiceUnknown",
        "org.freedesktop.DBus.Error.UnknownMethod",
        "org.freedesktop.DBus.Error.UnknownInterface",
    ]
}

pub open spec fn gone(error: BusFailure) -> bool {
    match error {
        BusFailure::Method(name) | BusFailure::Standard(name) => bus::listed(name, departures()),
        _ => false,
    }
}

fn is_departure(name: &str) -> (r: bool)
    ensures
        r == bus::listed(name@, departures()),
{
    let names = [
        "org.freedesktop.DBus.Error.UnknownObject",
        "org.freedesktop.DBus.Error.NameHasNoOwner",
        "org.freedesktop.DBus.Error.ServiceUnknown",
        "org.freedesktop.DBus.Error.UnknownMethod",
        "org.freedesktop.DBus.Error.UnknownInterface",
    ];
    assert(names@ == departures());
    bus::is_listed(name, &names)
}

/// Whether an error means the object we addressed is already gone, so tearing our own state down
/// is the correct and complete response.
pub fn is_gone_error(error: &BusError) -> (r: bool)
    ensures
        r == gone(error@),
{
    match error {
        BusError::Method(name) => is_departure(name),
        BusError::Standard(name) => is_departure(name),
        _ => false,
    }
}

/// The service answered, and the answer was an error.
pub open spec fn definitive(error: BusFailure) -> bool {
    match error {
        BusFailure::Method(name) | BusFailure::Standard(name) => !bus::listed(name, lost_replies()),
        _ => false,
    }
}

/// Whether starting definitively failed. Transport and no-reply failures are ambiguous.
pub fn is_definitive_start_error(error: &BusError) -> (r: bool)
    ensures
        r == definitive(error@),
{
    match error {
        BusError::Method(name) => !is_lost_reply(name),
        BusError::Standard(name) => !is_lost_reply(name),
        _ => false,
    }
}

/// The portal may have closed a session or request just before it is asked to: that is no failure.
pub open spec fn already_closed(error: BusFailure) -> bool {
    error matches BusFailure::Method(name) && name == "org.freedesktop.DBus.Error.UnknownObject"@
}

/// What asking the portal to close a session or a request came to.
pub fn close_outcome(result: std::result::Result<(), BusError>) -> (r: super::Result<()>)
    ensures
        r == match result {
            Ok(_) => Ok::<(), Error>(()),
            Err(error) => if already_closed(error@) {
                Ok(())
            } else {
                Err(portal_error(error@))
            },
        },
{
    match result {
        Ok(_) => Ok(()),
        Err(error) => {
            if let BusError::Method(name) = &error {
                if crate::text::same(name, "org.freedesktop.DBus.Error.UnknownObject") {
                    return Ok(());
                }
            }
            Err(map_portal_error(&error))
        },
    }
}

} // verus!

//! What each error name of the bus means, name by name.

use super::bus_errors;
use super::Error;
use crate::bus;
use crate::bus::{BusFailure, IoFailure};
use vstd::prelude::*;

verus! {

proof fn portal_denials_are_listed(name: Seq<char>)
    ensures
        bus::listed(name, bus_errors::portal_denials()) <==> {
            ||| name == "org.freedesktop.DBus.Error.AccessDenied"@
            ||| name == "org.freedesktop.DBus.Error.AuthFailed"@
            ||| name == "org.freedesktop.portal.Error.NotAllowed"@
            ||| name == "org.freedesktop.portal.Error.Cancelled"@
        },
{
    let names = bus_errors::portal_denials();
    assert(names[0]@ == "org.freedesktop.DBus.Error.AccessDenied"@);
    assert(names[1]@ == "org.freedesktop.DBus.Error.AuthFailed"@);
    assert(names[2]@ == "org.freedesktop.portal.Error.NotAllowed"@);
    assert(names[3]@ == "org.freedesktop.portal.Error.Cancelled"@);
}

proof fn geoclue_denials_are_listed(name: Seq<char>)
    ensures
        bus::listed(name, bus_errors::geoclue_denials()) <==> {
            ||| name == "org.freedesktop.DBus.Error.AccessDenied"@
            ||| name == "org.freedesktop.DBus.Error.AuthFailed"@
            ||| name == "org.freedesktop.GeoClue2.Error.AccessDenied"@
            ||| name == "org.freedesktop.GeoClue2.Error.NotAuthorized"@
            ||| name == "org.freedesktop.GeoClue2.Error.PermissionDenied"@
        },
{
    let names = bus_errors::geoclue_denials();
    assert(names[0]@ == "org.freedesktop.DBus.Error.AccessDenied"@);
    assert(names[1]@ == "org.freedesktop.DBus.Error.AuthFailed"@);
    assert(names[2]@ == "org.freedesktop.GeoClue2.Error.AccessDenied"@);
    assert(names[3]@ == "org.freedesktop.GeoClue2.Error.NotAuthorized"@);
    assert(names[4]@ == "org.freedesktop.GeoClue2.Error.PermissionDenied"@);
}

proof fn standard_denials_are_listed(name: Seq<char>)
    ensures
        bus::listed(name, bus_errors::standard_denials()) <==> {
            ||| name == "org.freedesktop.DBus.Error.AccessDenied"@
            ||| name == "org.freedesktop.DBus.Error.AuthFailed"@
            ||| name == "org.freedesktop.DBus.Error.InteractiveAuthorizationRequired"@
        },
{
    let names = bus_errors::standard_denials();
    assert(names[0]@ == "org.freedesktop.DBus.Error.AccessDenied"@);
    assert(names[1]@ == "org.freedesktop.DBus.Error.AuthFailed"@);
    assert(names[2]@ == "org.freedesktop.DBus.Error.InteractiveAuthorizationRequired"@);
}

proof fn absences_are_listed(name: Seq<char>)
    ensures
        bus::listed(name, bus_errors::absences()) <==> {
            ||| name == "org.freedesktop.DBus.Error.ServiceUnknown"@
            ||| name == "org.freedesktop.DBus.Error.NameHasNoOwner"@
            ||| name == "org.freedesktop.DBus.Error.NoServer"@
            ||| name == "org.freedesktop.DBus.Error.UnknownInterface"@
            ||| name == "org.freedesktop.DBus.Error.UnknownMethod"@
            ||| name == "org.freedesktop.DBus.Error.UnknownObject"@
            ||| name == "org.freedesktop.DBus.Error.UnknownProperty"@
        },
{
    let names = bus_errors::absences();
    assert(names[0]@ == "org.freedesktop.DBus.Error.ServiceUnknown"@);
    assert(names[1]@ == "org.freedesktop.DBus.Error.NameHasNoOwner"@);
    assert(names[2]@ == "org.freedesktop.DBus.Error.NoServer"@);
    assert(names[3]@ == "org.freedesktop.DBus.Error.UnknownInterface"@);
    assert(names[4]@ == "org.freedesktop.DBus.Error.UnknownMethod"@);
    assert(names[5]@ == "org.freedesktop.DBus.Error.UnknownObject"@);
    assert(names[6]@ == "org.freedesktop.DBus.Error.UnknownProperty"@);
}

proof fn activation_failures_are_listed(name: Seq<char>)
    ensures
        bus::listed(name, bus_errors::activation_failures()) <==> {
            ||| name == "org.freedesktop.DBus.Error.Spawn.ServiceNotFound"@
            ||| name == "org.freedesktop.DBus.Error.Spawn.ExecFailed"@
            ||| name == "org.freedesktop.DBus.Error.Spawn.ChildExited"@
            ||| name == "org.freedesktop.DBus.Error.Spawn.ChildSignaled"@
            ||| name == "org.freedesktop.DBus.Error.Spawn.Failed"@
        },
{
    let names = bus_errors::activation_failures();
    assert(names[0]@ == "org.freedesktop.DBus.Error.Spawn.ServiceNotFound"@);
    assert(names[1]@ == "org.freedesktop.DBus.Error.Spawn.ExecFailed"@);
    assert(names[2]@ == "org.freedesktop.DBus.Error.Spawn.ChildExited"@);
    assert(names[3]@ == "org.freedesktop.DBus.Error.Spawn.ChildSignaled"@);
    assert(names[4]@ == "org.freedesktop.DBus.Error.Spawn.Failed"@);
}

proof fn lost_replies_are_listed(name: Seq<char>)
    ensures
        bus::listed(name, bus_errors::lost_replies()) <==> {
            ||| name == "org.freedesktop.DBus.Error.NoReply"@
            ||| name == "org.freedesktop.DBus.Error.Timeout"@
            ||| name == "org.freedesktop.DBus.Error.TimedOut"@
            ||| name == "org.freedesktop.DBus.Error.Disconnected"@
            ||| name == "org.freedesktop.DBus.Error.IOError"@
        },
{
    let names = bus_errors::lost_replies();
    assert(names[0]@ == "org.freedesktop.DBus.Error.NoReply"@);
    assert(names[1]@ == "org.freedesktop.DBus.Error.Timeout"@);
    assert(names[2]@ == "org.freedesktop.DBus.Error.TimedOut"@);
    assert(names[3]@ == "org.freedesktop.DBus.Error.Disconnected"@);
    assert(names[4]@ == "org.freedesktop.DBus.Error.IOError"@);
}

proof fn geoclue_delays_are_listed(name: Seq<char>)
    ensures
        bus::listed(name, bus_errors::geoclue_delays()) <==> {
            ||| name == "org.freedesktop.GeoClue2.Error.NotAvailable"@
            ||| name == "org.freedesktop.GeoClue2.Error.NoLocation"@
        },
{
    let names = bus_errors::geoclue_delays();
    assert(names[0]@ == "org.freedesktop.GeoClue2.Error.NotAvailable"@);
    assert(names[1]@ == "org.freedesktop.GeoClue2.Error.NoLocation"@);
}

proof fn capability_absences_are_listed(name: Seq<char>)
    ensures
        bus::listed(name, bus_errors::capability_absences()) <==> {
            ||| name == "org.freedesktop.DBus.Error.ServiceUnknown"@
            ||| name == "org.freedesktop.DBus.Error.NoServer"@
            ||| name == "org.freedesktop.DBus.Error.UnknownInterface"@
            ||| name == "org.freedesktop.DBus.Error.UnknownMethod"@
            ||| name == "org.freedesktop.DBus.Error.UnknownObject"@
            ||| name == "org.freedesktop.DBus.Error.UnknownProperty"@
            ||| name == "org.freedesktop.DBus.Error.InvalidArgs"@
        },
{
    let names = bus_errors::capability_absences();
    assert(names[0]@ == "org.freedesktop.DBus.Error.ServiceUnknown"@);
    assert(names[1]@ == "org.freedesktop.DBus.Error.NoServer"@);
    assert(names[2]@ == "org.freedesktop.DBus.Error.UnknownInterface"@);
    assert(names[3]@ == "org.freedesktop.DBus.Error.UnknownMethod"@);
    assert(names[4]@ == "org.freedesktop.DBus.Error.UnknownObject"@);
    assert(names[5]@ == "org.freedesktop.DBus.Error.UnknownProperty"@);
    assert(names[6]@ == "org.freedesktop.DBus.Error.InvalidArgs"@);
}

proof fn departures_are_listed(name: Seq<char>)
    ensures
        bus::listed(name, bus_errors::departures()) <==> {
            ||| name == "org.freedesktop.DBus.Error.UnknownObject"@
            ||| name == "org.freedesktop.DBus.Error.NameHasNoOwner"@
            ||| name == "org.freedesktop.DBus.Error.ServiceUnknown"@
            ||| name == "org.freedesktop.DBus.Error.UnknownMethod"@
            ||| name == "org.freedesktop.DBus.Error.UnknownInterface"@
        },
{
    let names = bus_errors::departures();
    assert(names[0]@ == "org.freedesktop.DBus.Error.UnknownObject"@);
    assert(names[1]@ == "org.freedesktop.DBus.Error.NameHasNoOwner"@);
    assert(names[2]@ == "org.freedesktop.DBus.Error.ServiceUnknown"@);
    assert(names[3]@ == "org.freedesktop.DBus.Error.UnknownMethod"@);
    assert(names[4]@ == "org.freedesktop.DBus.Error.UnknownInterface"@);
}

/// What the portal's answers mean. A refusal is a refusal; a service that is not there or does not start is
/// missing for good; a reply that got lost may come another time.
pub proof fn portal_answers_mean(name: Seq<char>)
    ensures
        ({
            let error = bus_errors::portal_error(BusFailure::Method(name));
            &&& error == Error::AuthorizationDenied <==> {
                ||| name == "org.freedesktop.DBus.Error.AccessDenied"@
                ||| name == "org.freedesktop.DBus.Error.AuthFailed"@
                ||| name == "org.freedesktop.portal.Error.NotAllowed"@
                ||| name == "org.freedesktop.portal.Error.Cancelled"@
            }
            &&& error != Error::AuthorizationDenied
                ==> (error == Error::PermanentlyUnavailable <==> {
                ||| name == "org.freedesktop.DBus.Error.ServiceUnknown"@
                ||| name == "org.freedesktop.DBus.Error.NameHasNoOwner"@
                ||| name == "org.freedesktop.DBus.Error.NoServer"@
                ||| name == "org.freedesktop.DBus.Error.UnknownInterface"@
                ||| name == "org.freedesktop.DBus.Error.UnknownMethod"@
                ||| name == "org.freedesktop.DBus.Error.UnknownObject"@
                ||| name == "org.freedesktop.DBus.Error.UnknownProperty"@
                ||| name == "org.freedesktop.DBus.Error.Spawn.ServiceNotFound"@
                ||| name == "org.freedesktop.DBus.Error.Spawn.ExecFailed"@
                ||| name == "org.freedesktop.DBus.Error.Spawn.ChildExited"@
                ||| name == "org.freedesktop.DBus.Error.Spawn.ChildSignaled"@
                ||| name == "org.freedesktop.DBus.Error.Spawn.Failed"@
            })
            &&& error != Error::AuthorizationDenied
                && error != Error::PermanentlyUnavailable
                ==> (error == Error::Network <==> {
                ||| name == "org.freedesktop.DBus.Error.NoNetwork"@
            })
            &&& error != Error::AuthorizationDenied
                && error != Error::PermanentlyUnavailable
                && error != Error::Network
                ==> (error == Error::TemporarilyUnavailable <==> {
                ||| name == "org.freedesktop.DBus.Error.NoReply"@
                ||| name == "org.freedesktop.DBus.Error.Timeout"@
                ||| name == "org.freedesktop.DBus.Error.TimedOut"@
                ||| name == "org.freedesktop.DBus.Error.Disconnected"@
                ||| name == "org.freedesktop.DBus.Error.IOError"@
            })
            &&& error != Error::AuthorizationDenied
                && error != Error::PermanentlyUnavailable
                && error != Error::Network
                && error != Error::TemporarilyUnavailable
                ==> error == Error::Unknown
        }),
{
    portal_denials_are_listed(name);
    absences_are_listed(name);
    activation_failures_are_listed(name);
    lost_replies_are_listed(name);
}

/// What GeoClue's answers mean. To have no fix yet is a matter of time.
pub proof fn geoclue_answers_mean(name: Seq<char>)
    ensures
        ({
            let error = bus_errors::geoclue_error(BusFailure::Method(name));
            &&& error == Error::AuthorizationDenied <==> {
                ||| name == "org.freedesktop.DBus.Error.AccessDenied"@
                ||| name == "org.freedesktop.DBus.Error.AuthFailed"@
                ||| name == "org.freedesktop.GeoClue2.Error.AccessDenied"@
                ||| name == "org.freedesktop.GeoClue2.Error.NotAuthorized"@
                ||| name == "org.freedesktop.GeoClue2.Error.PermissionDenied"@
            }
            &&& error != Error::AuthorizationDenied
                ==> (error == Error::PermanentlyUnavailable <==> {
                ||| name == "org.freedesktop.DBus.Error.ServiceUnknown"@
                ||| name == "org.freedesktop.DBus.Error.NameHasNoOwner"@
                ||| name == "org.freedesktop.DBus.Error.NoServer"@
                ||| name == "org.freedesktop.DBus.Error.UnknownInterface"@
                ||| name == "org.freedesktop.DBus.Error.UnknownMethod"@
                ||| name == "org.freedesktop.DBus.Error.UnknownObject"@
                ||| name == "org.freedesktop.DBus.Error.UnknownProperty"@
                ||| name == "org.freedesktop.DBus.Error.Spawn.ServiceNotFound"@
                ||| name == "org.freedesktop.DBus.Error.Spawn.ExecFailed"@
                ||| name == "org.freedesktop.DBus.Error.Spawn.ChildExited"@
                ||| name == "org.freedesktop.DBus.Error.Spawn.ChildSignaled"@
                ||| name == "org.freedesktop.DBus.Error.Spawn.Failed"@
            })
            &&& error != Error::AuthorizationDenied
                && error != Error::PermanentlyUnavailable
                ==> (error == Error::Network <==> {
                ||| name == "org.freedesktop.DBus.Error.NoNetwork"@
            })
            &&& error != Error::AuthorizationDenied
                && error != Error::PermanentlyUnavailable
                && error != Error::Network
                ==> (error == Error::TemporarilyUnavailable <==> {
                ||| name == "org.freedesktop.DBus.Error.NoReply"@
                ||| name == "org.freedesktop.DBus.Error.Timeout"@
                ||| name == "org.freedesktop.DBus.Error.TimedOut"@
                ||| name == "org.freedesktop.DBus.Error.Disconnected"@
                ||| name == "org.freedesktop.DBus.Error.IOError"@
                ||| name == "org.freedesktop.GeoClue2.Error.NotAvailable"@
                ||| name == "org.freedesktop.GeoClue2.Error.NoLocation"@
            })
            &&& error != Error::AuthorizationDenied
                && error != Error::PermanentlyUnavailable
                && error != Error::Network
                && error != Error::TemporarilyUnavailable
                ==> error == Error::Unknown
        }),
{
    geoclue_denials_are_listed(name);
    absences_are_listed(name);
    activation_failures_are_listed(name);
    lost_replies_are_listed(name);
    geoclue_delays_are_listed(name);
}

/// What the bus itself answers means.
pub proof fn bus_answers_mean(name: Seq<char>)
    ensures
        ({
            let error = bus_errors::portal_error(BusFailure::Standard(name));
            &&& error == Error::AuthorizationDenied <==> {
                ||| name == "org.freedesktop.DBus.Error.AccessDenied"@
                ||| name == "org.freedesktop.DBus.Error.AuthFailed"@
                ||| name == "org.freedesktop.DBus.Error.InteractiveAuthorizationRequired"@
            }
            &&& error != Error::AuthorizationDenied
                ==> (error == Error::PermanentlyUnavailable <==> {
                ||| name == "org.freedesktop.DBus.Error.ServiceUnknown"@
                ||| name == "org.freedesktop.DBus.Error.NameHasNoOwner"@
                ||| name == "org.freedesktop.DBus.Error.NoServer"@
                ||| name == "org.freedesktop.DBus.Error.UnknownInterface"@
                ||| name == "org.freedesktop.DBus.Error.UnknownMethod"@
                ||| name == "org.freedesktop.DBus.Error.UnknownObject"@
                ||| name == "org.freedesktop.DBus.Error.UnknownProperty"@
            })
            &&& error != Error::AuthorizationDenied
                && error != Error::PermanentlyUnavailable
                ==> (error == Error::Network <==> {
                ||| name == "org.freedesktop.DBus.Error.NoNetwork"@
            })
            &&& error != Error::AuthorizationDenied
                && error != Error::PermanentlyUnavailable
                && error != Error::Network
                ==> (error == Error::TemporarilyUnavailable <==> {
                ||| name == "org.freedesktop.DBus.Error.NoReply"@
                ||| name == "org.freedesktop.DBus.Error.Timeout"@
                ||| name == "org.freedesktop.DBus.Error.TimedOut"@
                ||| name == "org.freedesktop.DBus.Error.Disconnected"@
                ||| name == "org.freedesktop.DBus.Error.IOError"@
            })
            &&& error != Error::AuthorizationDenied
                && error != Error::PermanentlyUnavailable
                && error != Error::Network
                && error != Error::TemporarilyUnavailable
                ==> error == Error::Unknown
        }),
{
    standard_denials_are_listed(name);
    absences_are_listed(name);
    lost_replies_are_listed(name);
}

/// A bus that cannot be talked to is missing for good, and one that broke off may come back. GeoClue's
/// failures differ from the portal's only in what it answers itself.
pub proof fn broken_buses_mean(error: BusFailure)
    ensures
        error is InterfaceNotFound || error is Address || error is Handshake || error is Unsupported
            ==> bus_errors::portal_error(error) == Error::PermanentlyUnavailable,
        error is InputOutput ==> bus_errors::portal_error(error) == Error::TemporarilyUnavailable,
        error is Other ==> bus_errors::portal_error(error) == Error::Unknown,
        !(error is Method) ==> bus_errors::geoclue_error(error) == bus_errors::portal_error(error),
{
}

/// There is no session bus where it has no address, or one of an unknown kind, or one that nobody answers
/// at.
pub proof fn missing_buses_are_known(error: BusFailure)
    ensures
        bus_errors::session_bus_absent(error) <==> {
            ||| error is Address
            ||| error is Unsupported
            ||| error matches BusFailure::InputOutput(kind) && kind != IoFailure::Other
        },
{
}

/// A portal without locations is told by these names. A service that exists and does not start proves
/// nothing.
pub proof fn missing_capabilities_are_known(name: Seq<char>)
    ensures
        bus_errors::capability_absent(BusFailure::Standard(name)) <==> {
            ||| name == "org.freedesktop.DBus.Error.ServiceUnknown"@
            ||| name == "org.freedesktop.DBus.Error.NoServer"@
            ||| name == "org.freedesktop.DBus.Error.UnknownInterface"@
            ||| name == "org.freedesktop.DBus.Error.UnknownMethod"@
            ||| name == "org.freedesktop.DBus.Error.UnknownObject"@
            ||| name == "org.freedesktop.DBus.Error.UnknownProperty"@
            ||| name == "org.freedesktop.DBus.Error.InvalidArgs"@
        },
        bus_errors::capability_absent(BusFailure::Method(name)) <==> {
            ||| name == "org.freedesktop.DBus.Error.ServiceUnknown"@
            ||| name == "org.freedesktop.DBus.Error.NoServer"@
            ||| name == "org.freedesktop.DBus.Error.UnknownInterface"@
            ||| name == "org.freedesktop.DBus.Error.UnknownMethod"@
            ||| name == "org.freedesktop.DBus.Error.UnknownObject"@
            ||| name == "org.freedesktop.DBus.Error.UnknownProperty"@
            ||| name == "org.freedesktop.DBus.Error.InvalidArgs"@
            ||| name == "org.freedesktop.DBus.Error.Spawn.ServiceNotFound"@
        },
        bus_errors::capability_absent(BusFailure::InterfaceNotFound),
        forall|error: BusFailure|
            !(error is Method) && !(error is Standard) && !(error is InterfaceNotFound)
                ==> !#[trigger] bus_errors::capability_absent(error),
{
    capability_absences_are_listed(name);
}

/// What is gone already is told by these names, whoever says them; and it may have been gone before it was
/// to be closed.
pub proof fn departures_are_known(name: Seq<char>)
    ensures
        bus_errors::gone(BusFailure::Method(name)) <==> {
            ||| name == "org.freedesktop.DBus.Error.UnknownObject"@
            ||| name == "org.freedesktop.DBus.Error.NameHasNoOwner"@
            ||| name == "org.freedesktop.DBus.Error.ServiceUnknown"@
            ||| name == "org.freedesktop.DBus.Error.UnknownMethod"@
            ||| name == "org.freedesktop.DBus.Error.UnknownInterface"@
        },
        bus_errors::gone(BusFailure::Standard(name)) <==> bus_errors::gone(BusFailure::Method(name)),
        bus_errors::already_closed(BusFailure::Method(name)) <==> name
            == "org.freedesktop.DBus.Error.UnknownObject"@,
        forall|error: BusFailure|
            !(error is Method) && !(error is Standard) ==> !#[trigger] bus_errors::gone(error),
        forall|error: BusFailure|
            !(error is Method) ==> !#[trigger] bus_errors::already_closed(error),
{
    departures_are_listed(name);
}

/// An answer settles whether something was started, unless it only says that the answer got lost.
pub proof fn answers_settle_a_start(name: Seq<char>)
    ensures
        !bus_errors::definitive(BusFailure::Method(name)) <==> {
            ||| name == "org.freedesktop.DBus.Error.NoReply"@
            ||| name == "org.freedesktop.DBus.Error.Timeout"@
            ||| name == "org.freedesktop.DBus.Error.TimedOut"@
            ||| name == "org.freedesktop.DBus.Error.Disconnected"@
            ||| name == "org.freedesktop.DBus.Error.IOError"@
        },
        bus_errors::definitive(BusFailure::Standard(name)) <==> bus_errors::definitive(
            BusFailure::Method(name),
        ),
        forall|error: BusFailure|
            !(error is Method) && !(error is Standard) ==> !#[trigger] bus_errors::definitive(error),
{
    lost_replies_are_listed(name);
}

} // verus!

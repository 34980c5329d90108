//! How operations on the providers go on and what they leave behind.

use super::geoclue::{ClientModel, GeoLink, GeoModel, GeoOperation, GeoStepModel};
use super::portal;
use super::portal::{CleanupModel, Link, PortalModel, PortalOperation, SessionModel, SessionPhase};
use super::Error;
use crate::time::Timestamp;
use vstd::prelude::*;

verus! {

/// An operation that fails takes back what it asked for and nothing else; a failed authorization takes
/// back everything.
pub proof fn portal_failures_take_back_what_was_asked(
    portal: PortalModel,
    operation: PortalOperation,
)
    ensures
        ({
            let after = portal.after_failure(operation);
            &&& operation == PortalOperation::Authorize ==> after == (PortalModel {
                authorization_pending: false,
                continuous: false,
                one_shot: None,
                ..portal
            })
            &&& operation matches PortalOperation::UpdateOnce { had_one_shot } ==> after == (
            PortalModel {
                one_shot: if had_one_shot {
                    portal.one_shot
                } else {
                    None
                },
                ..portal
            })
            &&& operation == (PortalOperation::StartUpdates { was_continuous: true }) ==> after
                == portal
            &&& operation == (PortalOperation::StartUpdates { was_continuous: false }) ==> after == (
            PortalModel { continuous: false, ..portal })
        }),
{
}

/// A session is active once the user agreed to it. Where a handle is asked about, it has to be that
/// session's.
pub proof fn sessions_are_known_by_their_handle(portal: PortalModel, handle: Seq<char>)
    ensures
        portal.session_active(None) <==> (portal.session matches Some(session) && session.phase
            == SessionPhase::Active),
        portal.session_active(Some(handle)) <==> (portal.session matches Some(session)
            && session.phase == SessionPhase::Active && session.handle == handle),
{
}

/// To end a session is to close it, and to cancel its request as well where that has no answer yet.
pub proof fn sessions_end_with_their_request(session: SessionModel)
    ensures
        session.cleanup().handle == session.handle,
        session.phase == SessionPhase::Starting ==> session.cleanup().request == Some(
            session.request,
        ),
        session.phase == SessionPhase::Active ==> session.cleanup().request is None,
{
}

/// A refusal ends the session that was asked for, and no other.
pub proof fn refused_sessions_are_closed(link: Link, request: Seq<char>, response: u32)
    ensures
        link.portal.session is None ==> link.answered(request, response) == (
            link,
            None::<CleanupModel>,
        ),
        link.portal.session matches Some(session) ==> {
            &&& session.request != request ==> link.answered(request, response) == (
                link,
                None::<CleanupModel>,
            )
            &&& session.request == request && response != 0 ==> {
                let (after, closed) = link.answered(request, response);
                &&& after.portal.session is None
                &&& closed matches Some(cleanup) && cleanup.handle == session.handle
                    && cleanup.request == if session.phase == SessionPhase::Starting {
                    Some(request)
                } else {
                    None
                }
            }
        },
{
}

/// Generations are numbered one after another, and start over after the last.
pub proof fn generations_are_numbered(n: u64)
    ensures
        n < u64::MAX ==> portal::next_generation(n) == n + 1,
        portal::next_generation(u64::MAX) == 0,
{
}

/// An operation on GeoClue that fails takes back what it asked for and nothing else; a failed
/// authorization takes back everything, and setting up nothing.
pub proof fn geoclue_failures_take_back_what_was_asked(geo: GeoModel, operation: GeoOperation)
    ensures
        ({
            let after = geo.after_failure(operation);
            &&& operation == GeoOperation::Construct ==> after == geo
            &&& operation == GeoOperation::Authorize || operation == GeoOperation::Replace ==> after
                == (GeoModel {
                authorization_pending: false,
                continuous: false,
                one_shot: None,
                ..geo
            })
            &&& operation == (GeoOperation::UpdateOnce { had_one_shot: true }) ==> after == geo
            &&& operation == (GeoOperation::UpdateOnce { had_one_shot: false }) ==> after == (
            GeoModel { one_shot: None, ..geo })
            &&& operation == (GeoOperation::StartUpdates { was_continuous: true }) ==> after == geo
            &&& operation == (GeoOperation::StartUpdates { was_continuous: false }) ==> after == (
            GeoModel { continuous: false, ..geo })
        }),
{
}

/// A client is the one in use if its path and its owner are, whatever its accuracy.
pub proof fn clients_are_known_by_path_and_owner(geo: GeoModel, client: ClientModel)
    ensures
        geo.is_current(client) <==> (geo.client matches Some(current) && current.path == client.path
            && current.owner == client.owner),
{
}

/// An authorization that went well is no longer waited for. A client that nobody else needs is told to
/// stop.
pub proof fn authorized_clients_stop_when_unneeded(link: GeoLink, now: Timestamp)
    requires
        link.geo.started,
        link.geo.client is Some,
    ensures
        ({
            let after = link.operation_succeeded(GeoOperation::Authorize, now);
            let needed = link.geo.continuous || link.geo.one_shot is Some;
            &&& !after.link.geo.authorization_pending
            &&& after.link.queue == link.queue
            &&& after.link.geo.client == link.geo.client
            &&& needed ==> after.step == GeoStepModel::Finished(Ok::<(), Error>(()))
                && after.link.geo.started
            &&& !needed ==> after.step == GeoStepModel::Stop(link.geo.client->Some_0)
                && !after.link.geo.started
        }),
{
}

/// Asking for authorization again starts a client, unless one runs: then there is nothing to do.
pub proof fn authorizing_starts_a_client(link: GeoLink, now: Timestamp)
    requires
        link.geo.available,
        !link.geo.dropped,
    ensures
        ({
            let after = link.authorizing(now);
            &&& link.geo.started ==> after.link == link && after.step == GeoStepModel::Finished(
                Ok::<(), Error>(()),
            )
            &&& !link.geo.started && link.geo.client is None ==> after.step
                == GeoStepModel::GetClient(GeoOperation::Authorize)
                && after.link.geo.authorization_pending
        }),
{
}

/// A client of another accuracy is stopped first where it runs, and deleted. It and its last fix are
/// forgotten at once.
pub proof fn retired_clients_are_forgotten(link: GeoLink, now: Timestamp)
    ensures
        link.geo.client matches Some(client) ==> {
            let after = link.retiring(now);
            &&& after.link.geo.client is None
            &&& after.link.geo.last_location is None
            &&& !after.link.geo.started
            &&& !after.link.geo.starting
            &&& after.link.queue == link.queue
            &&& after.link.geo.one_shot == link.geo.one_shot
            &&& after.link.geo.continuous == link.geo.continuous
            &&& link.geo.started || link.geo.starting ==> after.step == GeoStepModel::StopRetired(
                client,
            )
            &&& !link.geo.started && !link.geo.starting ==> after.step == GeoStepModel::Delete(
                client,
            )
        },
        link.geo.client is None && link.geo.available && !link.geo.dropped ==> link.retiring(
            now,
        ).step == GeoStepModel::GetClient(GeoOperation::Replace),
        link.geo.client is None && !(link.geo.available && !link.geo.dropped) ==> link.retiring(
            now,
        ).step == GeoStepModel::Finished(Err::<(), Error>(Error::TemporarilyUnavailable)),
{
}

/// A client that runs is told to stop, and is kept. One that does not run needs nothing.
pub proof fn running_clients_are_stopped(link: GeoLink)
    ensures
        ({
            let after = link.stopping();
            &&& after.link.geo == (GeoModel { started: false, starting: false, ..link.geo })
            &&& after.link.queue == link.queue
            &&& link.geo.client is Some && (link.geo.started || link.geo.starting)
                ==> after.step == GeoStepModel::Stop(link.geo.client->Some_0)
            &&& link.geo.client is None || !(link.geo.started || link.geo.starting) ==> after.step
                == GeoStepModel::Finished(Ok::<(), Error>(()))
        }),
{
}

} // verus!

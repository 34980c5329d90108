//! What holds of a connection to GeoClue whatever happens to it.

use super::callback_laws;
use super::callbacks::CallbackEvent;
use super::geoclue;
use super::geoclue::{ClientModel, GeoLink, GeoModel, GeoOperation, GeoStepModel};
use super::one_shot;
use super::portal;
use super::portal_laws;
use super::{Accuracy, Error, Freshness, LocationData};
use crate::time::Timestamp;
use vstd::prelude::*;

verus! {

/// As long as the connection's sender is not retired, the queue takes exactly the fixes that the
/// connection sends now.
pub open spec fn in_step(link: GeoLink) -> bool {
    link.queue.epoch == link.geo.sender.epoch ==> link.queue.accepted_generation
        == link.geo.callback_generation
}

/// Every request, signal and loss keeps the connection and the queue in step.
pub proof fn operations_keep_in_step(
    link: GeoLink,
    client: ClientModel,
    location: LocationData,
    accuracy: Accuracy,
    operation: GeoOperation,
    error: Error,
    now: u64,
    wall: Timestamp,
)
    requires
        in_step(link),
    ensures
        in_step(link.lost()),
        in_step(link.failed_closed()),
        in_step(link.revoked()),
        in_step(link.retuned(accuracy, now)),
        in_step(link.served(client, location).link),
        in_step(link.expired(now).link),
        in_step(link.disappointed(client, error).link),
        in_step(link.operation_succeeded(operation, wall).link),
        in_step(link.start_wanted(operation, wall).link),
        in_step(link.authorizing(wall).link),
        in_step(link.retiring(wall).link),
{
}

/// Once a connection is lost, nothing of it is left, and nothing is reported a second time.
pub proof fn loss_clears_everything_and_is_reported_once(link: GeoLink)
    ensures
        ({
            let after = link.failed_closed();
            &&& !after.geo.available
            &&& after.failed_closed() == after
            &&& link.geo.available ==> {
                &&& after.geo.client is None
                &&& !after.geo.running()
                &&& !after.geo.expectant()
                &&& after.geo.last_location is None
            }
            &&& link.geo.available && link.geo.expectant() && !link.queue.shutdown
                && callback_laws::well_formed(link.queue) ==> after.queue.events.contains(
                CallbackEvent::Error(Error::TemporarilyUnavailable),
            )
        }),
{
    if link.geo.available && link.geo.expectant() && !link.queue.shutdown
        && callback_laws::well_formed(link.queue) {
        portal_laws::told_errors_wait(
            link.queue,
            link.geo.sender.epoch,
            portal::next_generation(link.geo.callback_generation),
            Error::TemporarilyUnavailable,
        );
    }
}

/// What is replayed is marked as cached and is at most an hour old.
pub proof fn replays_are_cached_and_recent(link: GeoLink, wall: Timestamp)
    ensures
        link.geo.replay(wall) matches Some(location) ==> {
            &&& location.freshness == Freshness::Cached
            &&& super::is_recent(location.time, wall)
        },
{
}

/// Stopping keeps the client, and with it the user's authorization; only the collecting ends.
pub proof fn stopping_keeps_the_client(link: GeoLink)
    ensures
        link.stopping().link.geo.client == link.geo.client,
        link.stopping().link.geo.last_location == link.geo.last_location,
        !link.stopping().link.geo.running(),
        link.geo.client is Some && link.geo.running() <==> link.stopping().step is Stop,
{
}

/// A client of the wrong accuracy is never started: the connection is given up instead.
pub proof fn only_the_requested_accuracy_is_started(
    link: GeoLink,
    operation: GeoOperation,
    client: ClientModel,
    wall: Timestamp,
)
    ensures
        link.launched(operation, client, wall).step matches GeoStepModel::Start { client: started, .. }
            ==> started.configured_accuracy == geoclue::accuracy_level(link.geo.accuracy),
{
}

/// A fix from a client that was replaced changes nothing, and neither does its error.
pub proof fn replaced_clients_are_ignored(
    link: GeoLink,
    client: ClientModel,
    location: LocationData,
    error: Error,
)
    requires
        !link.geo.is_current(client),
    ensures
        link.served(client, location).link == link,
        link.disappointed(client, error).link == link,
{
}

/// When the permission is taken back, no fix acquired under it is delivered or replayed.
pub proof fn revocation_stops_deliveries(link: GeoLink)
    requires
        in_step(link),
        link.queue.epoch == link.geo.sender.epoch,
    ensures
        ({
            let after = link.revoked();
            &&& after.geo.last_location is None
            &&& !after.geo.continuous
            &&& after.geo.one_shot is None
            &&& forall|i: int|
                0 <= i < after.queue.events.len() ==> !(#[trigger] after.queue.events[i]).is_stale(
                    after.geo.callback_generation,
                )
            &&& link.queue.pending_fix() && link.queue.in_flight->0.generation
                == link.geo.callback_generation ==> !after.queue.may_invoke()
        }),
{
    let generation = portal::next_generation(link.geo.callback_generation);
    callback_laws::stale_fixes_are_not_delivered(link.queue, generation);
    callback_laws::errors_bring_no_fixes(
        link.queue.generation_advanced(link.queue.epoch, generation),
        link.geo.sender.epoch,
        Error::AuthorizationDenied,
        generation,
    );
}

/// A failed operation takes its own wish back and no other.
pub proof fn failures_restore_earlier_wishes(geo: GeoModel, now: u64)
    ensures
        ({
            let once = GeoModel {
                one_shot: if geo.one_shot is Some {
                    geo.one_shot
                } else {
                    Some(one_shot::fresh_request(now))
                },
                ..geo
            };
            once.after_failure(GeoOperation::UpdateOnce { had_one_shot: geo.one_shot is Some })
                == geo
        }),
        ({
            let streaming = GeoModel { continuous: true, ..geo };
            streaming.after_failure(GeoOperation::StartUpdates { was_continuous: geo.continuous })
                == geo
        }),
{
}

/// A fix that answers a request for a single fix gets into the queue as that answer.
pub proof fn one_shot_answers_are_queued(link: GeoLink, client: ClientModel, location: LocationData)
    requires
        in_step(link),
        link.queue.epoch == link.geo.sender.epoch,
        callback_laws::well_formed(link.queue),
        !link.queue.shutdown,
        link.geo.is_current(client),
        link.geo.one_shot matches Some(request) && one_shot::is_fresher(request, location.time),
    ensures
        ({
            let after = link.served(client, location).link;
            &&& after.geo.one_shot is None
            &&& after.queue.events.len() > 0
            &&& after.queue.events.last().is_one_shot()
        }),
{
    let event = CallbackEvent::Location {
        location,
        one_shot: true,
        generation: link.geo.callback_generation,
    };
    callback_laws::nothing_is_evicted(link.queue, link.geo.sender.epoch, event);
}

/// A request for a single fix ends when its time is over. Whoever got nothing until then is told;
/// before that, nothing happens to it.
pub proof fn expired_requests_are_reported(link: GeoLink, now: u64)
    requires
        link.geo.usable(),
        link.geo.one_shot is Some,
        callback_laws::well_formed(link.queue),
        !link.queue.shutdown,
    ensures
        ({
            let request = link.geo.one_shot->0;
            let after = link.expired(now).link;
            &&& now < request.deadline ==> after == link
            &&& now >= request.deadline ==> after.geo.one_shot is None
            &&& now >= request.deadline && !request.delivered_cached ==> after.queue.events.contains(
                CallbackEvent::Error(Error::TemporarilyUnavailable),
            )
            &&& now >= request.deadline && request.delivered_cached ==> after.queue == link.queue
        }),
{
    let event = CallbackEvent::Error(Error::TemporarilyUnavailable);
    let epoch = link.geo.sender.epoch;
    if link.queue.admits(epoch, event) {
        callback_laws::nothing_is_evicted(link.queue, epoch, event);
        assert(link.queue.enqueued(epoch, event).events.last() == event);
    }
}

} // verus!

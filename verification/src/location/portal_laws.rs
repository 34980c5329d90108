//! What holds of a connection to the portal whatever happens to it.

use super::callback_laws;
use super::callbacks::{CallbackEvent, QueueState};
use super::one_shot;
use super::portal;
use super::portal::{Link, PortalModel, PortalOperation, SessionPhase};
use super::{Accuracy, Error, Freshness, LocationData};
use crate::time::Timestamp;
use vstd::prelude::*;

verus! {

/// As long as the connection's sender is not retired, the queue takes exactly the fixes that the
/// connection sends now.
pub open spec fn in_step(link: Link) -> bool {
    link.queue.epoch == link.portal.sender.epoch ==> link.queue.accepted_generation
        == link.portal.callback_generation
}

/// Every request, signal and loss keeps the connection and the queue in step.
pub proof fn operations_keep_in_step(
    link: Link,
    accuracy: Accuracy,
    operation: PortalOperation,
    error: Error,
    location: LocationData,
    request: Seq<char>,
    response: u32,
    now: u64,
    wall: Timestamp,
)
    requires
        in_step(link),
    ensures
        in_step(link.lost()),
        in_step(link.failed_closed()),
        in_step(link.told(error)),
        in_step(link.retuned(accuracy, now)),
        in_step(link.replayed(wall)),
        in_step(link.disappointed(error).0),
        in_step(link.served(location).0),
        in_step(link.expired(now).0),
        in_step(link.answered(request, response).0),
        in_step(link.session_wanted(operation, wall).link),
{
}

/// Once a connection is lost, nothing of it is left: no session, no wish, no remembered fix.
/// Whoever waited is told exactly once, and never again after that.
pub proof fn loss_clears_everything_and_is_reported_once(link: Link)
    ensures
        ({
            let after = link.failed_closed();
            &&& !after.portal.available
            &&& after.failed_closed() == after
            &&& link.portal.available ==> {
                &&& after.portal.session is None
                &&& !after.portal.authorization_pending
                &&& !after.portal.continuous
                &&& after.portal.one_shot is None
                &&& after.portal.last_location is None
            }
            &&& link.portal.available && link.portal.expectant() && !link.queue.shutdown
                && callback_laws::well_formed(link.queue)
                ==> after.queue.events.contains(
                CallbackEvent::Error(Error::TemporarilyUnavailable),
            )
        }),
{
    if link.portal.available && link.portal.expectant() && !link.queue.shutdown
        && callback_laws::well_formed(link.queue) {
        told_errors_wait(
            link.queue,
            link.portal.sender.epoch,
            portal::next_generation(link.portal.callback_generation),
            Error::TemporarilyUnavailable,
        );
    }
}

/// An error that is told while deliveries go on is waiting afterwards.
pub proof fn told_errors_wait(queue: QueueState, epoch: u64, generation: u64, error: Error)
    requires
        callback_laws::well_formed(queue),
        !queue.shutdown,
    ensures
        queue.generation_advanced(epoch, generation).enqueued(
            epoch,
            CallbackEvent::Error(error),
        ).events.contains(CallbackEvent::Error(error)),
{
    let advanced = queue.generation_advanced(epoch, generation);
    let event = CallbackEvent::Error(error);
    callback_laws::operations_keep_well_formed(queue, epoch, generation);
    if advanced.admits(epoch, event) {
        callback_laws::nothing_is_evicted(advanced, epoch, event);
        assert(advanced.enqueued(epoch, event).events.last() == event);
    }
}

/// When the connection is lost, a fix that was queued for a one-shot request is replaced with an
/// error: the application hears one or the other, never nothing.
pub proof fn loss_replaces_a_queued_one_shot_with_an_error(link: Link, at: int)
    requires
        link.portal.available,
        in_step(link),
        link.queue.epoch == link.portal.sender.epoch,
        callback_laws::well_formed(link.queue),
        !link.queue.shutdown,
        0 <= at < link.queue.events.len(),
        link.queue.events[at].is_one_shot(),
    ensures
        ({
            let after = link.failed_closed().queue;
            &&& forall|i: int| 0 <= i < after.events.len() ==> #[trigger] after.events[i] is Error
            &&& after.events.contains(CallbackEvent::Error(Error::TemporarilyUnavailable))
        }),
{
    let epoch = link.portal.sender.epoch;
    let generation = portal::next_generation(link.portal.callback_generation);
    assert(link.queue.events[at].is_stale(generation)) by {
        assert(!link.queue.events[at].is_stale(link.queue.accepted_generation));
    }
    assert(link.queue.discards_one_shot(epoch, generation));
    told_errors_wait(link.queue, epoch, generation, Error::TemporarilyUnavailable);
    callback_laws::stale_fixes_are_not_delivered(link.queue, generation);
    let advanced = link.queue.generation_advanced(epoch, generation);
    let event = CallbackEvent::Error(Error::TemporarilyUnavailable);
    callback_laws::operations_keep_well_formed(link.queue, epoch, generation);
    assert forall|i: int| 0 <= i < advanced.events.len() implies #[trigger] advanced.events[i] is Error by {
        assert(!advanced.events[i].is_stale(generation));
        callback_laws::without_is_exact(
            link.queue.events,
            |event: CallbackEvent| event.is_stale(generation),
        );
        assert(advanced.events.contains(advanced.events[i]));
        let source = link.queue.events.index_of(advanced.events[i]);
        assert(!link.queue.events[source].is_stale(link.queue.accepted_generation));
    }
    if advanced.admits(epoch, event) {
        callback_laws::nothing_is_evicted(advanced, epoch, event);
    }
}

/// What is replayed is marked as cached, is at most an hour old, and comes from a session that the
/// user has agreed to and that is still there.
pub proof fn replays_are_cached_recent_and_authorized(link: Link, wall: Timestamp)
    ensures
        link.portal.replay(wall) matches Some(location) ==> {
            &&& location.freshness == Freshness::Cached
            &&& super::is_recent(location.time, wall)
            &&& link.portal.session matches Some(session)
            &&& session.phase == SessionPhase::Active
        },
{
}

/// A new session starts out without any fix of an earlier one, and before the user has answered
/// nothing can be replayed from it.
pub proof fn sessions_share_no_fixes(link: Link, operation: PortalOperation, wall: Timestamp)
    ensures
        link.session_wanted(operation, wall).step is CreateSession ==> {
            let after = link.session_wanted(operation, wall).link.portal;
            &&& after.last_location is None
            &&& after.replay(wall) is None
        },
{
}

/// A different accuracy never sees fixes of the previous one: none is remembered, none waits, and
/// the one in flight is not invoked any more.
pub proof fn accuracies_share_no_fixes(link: Link, accuracy: Accuracy, now: u64)
    requires
        in_step(link),
        link.queue.epoch == link.portal.sender.epoch,
        portal::accuracy_level(accuracy) != portal::accuracy_level(link.portal.accuracy),
    ensures
        ({
            let after = link.retuned(accuracy, now);
            &&& after.portal.last_location is None
            &&& forall|i: int|
                0 <= i < after.queue.events.len() ==> !(#[trigger] after.queue.events[i]).is_stale(
                    after.portal.callback_generation,
                )
            &&& link.queue.pending_fix() && link.queue.in_flight->0.generation
                == link.portal.callback_generation ==> !after.queue.may_invoke()
        }),
{
    callback_laws::stale_fixes_are_not_delivered(
        link.queue,
        portal::next_generation(link.portal.callback_generation),
    );
}

/// A request for a single fix survives a change of accuracy, and is given its full time again.
pub proof fn one_shot_requests_survive_retuning(link: Link, accuracy: Accuracy, now: u64)
    requires
        link.portal.one_shot is Some,
    ensures
        link.retuned(accuracy, now).portal.one_shot is Some,
        portal::accuracy_level(accuracy) != portal::accuracy_level(link.portal.accuracy)
            ==> link.retuned(accuracy, now).portal.one_shot == Some(one_shot::fresh_request(now)),
{
}

/// A failed operation takes its own wish back and no other: what the application had asked for
/// before, apart from authorization, stands as it was.
pub proof fn failures_restore_earlier_wishes(portal: PortalModel, now: u64)
    ensures
        ({
            let once = PortalModel {
                one_shot: if portal.one_shot is Some {
                    portal.one_shot
                } else {
                    Some(one_shot::fresh_request(now))
                },
                ..portal
            };
            once.after_failure(
                PortalOperation::UpdateOnce { had_one_shot: portal.one_shot is Some },
            ) == portal
        }),
        ({
            let streaming = PortalModel { continuous: true, ..portal };
            streaming.after_failure(
                PortalOperation::StartUpdates { was_continuous: portal.continuous },
            ) == portal
        }),
{
}

/// A live fix that the connection sends while it is in step always gets into the queue.
pub proof fn live_fixes_are_admitted(link: Link, location: LocationData, one_shot: bool)
    requires
        in_step(link),
        link.queue.epoch == link.portal.sender.epoch,
        callback_laws::well_formed(link.queue),
        !link.queue.shutdown,
    ensures
        ({
            let event = CallbackEvent::Location {
                location,
                one_shot,
                generation: link.portal.callback_generation,
            };
            let after = link.queue.enqueued(link.portal.sender.epoch, event);
            &&& after.events.len() > 0
            &&& after.events.last() is Location
            &&& one_shot ==> after.events.last().is_one_shot()
        }),
{
    let event = CallbackEvent::Location {
        location,
        one_shot,
        generation: link.portal.callback_generation,
    };
    callback_laws::nothing_is_evicted(link.queue, link.portal.sender.epoch, event);
}

/// A request for a single fix ends when its time is over. Whoever got nothing until then is told;
/// before that, nothing happens to it.
pub proof fn expired_requests_are_reported(link: Link, now: u64)
    requires
        link.portal.usable(),
        link.portal.one_shot is Some,
        callback_laws::well_formed(link.queue),
        !link.queue.shutdown,
    ensures
        ({
            let request = link.portal.one_shot->0;
            let after = link.expired(now).0;
            &&& now < request.deadline ==> after == link
            &&& now >= request.deadline ==> after.portal.one_shot is None
            &&& now >= request.deadline && !request.delivered_cached ==> after.queue.events.contains(
                CallbackEvent::Error(Error::TemporarilyUnavailable),
            )
            &&& now >= request.deadline && request.delivered_cached ==> after.queue == link.queue
        }),
{
    let event = CallbackEvent::Error(Error::TemporarilyUnavailable);
    let epoch = link.portal.sender.epoch;
    if link.queue.admits(epoch, event) {
        callback_laws::nothing_is_evicted(link.queue, epoch, event);
        assert(link.queue.enqueued(epoch, event).events.last() == event);
    }
}

/// While the portal's question is before the user, neither the end of a request nor a fix takes it
/// away: the session stays.
pub proof fn questions_stay_before_the_user(link: Link, location: LocationData, now: u64)
    requires
        link.portal.authorization_pending,
    ensures
        link.expired(now).0.portal.session == link.portal.session,
        link.expired(now).1 is None,
        link.served(location).0.portal.session == link.portal.session,
        link.served(location).1 is None,
{
}

/// A refusal ends everything that was asked for, leaves no fix to be delivered or replayed, and is
/// reported.
pub proof fn refusals_are_final_and_reported(link: Link, response: u32)
    requires
        link.portal.session is Some,
        response != 0,
        callback_laws::well_formed(link.queue),
        !link.queue.shutdown,
    ensures
        ({
            let after = link.answered(link.portal.session->0.request, response).0;
            &&& after.portal.session is None
            &&& !after.portal.expectant()
            &&& after.portal.last_location is None
            &&& after.queue.events.contains(
                CallbackEvent::Error(portal::response_error(response)->0),
            )
            &&& link.queue.epoch == link.portal.sender.epoch ==> forall|i: int|
                0 <= i < after.queue.events.len() ==> !(#[trigger] after.queue.events[i]).is_stale(
                    after.portal.callback_generation,
                )
        }),
{
    let epoch = link.portal.sender.epoch;
    let generation = portal::next_generation(link.portal.callback_generation);
    let error = portal::response_error(response)->0;
    told_errors_wait(link.queue, epoch, generation, error);
    if link.queue.epoch == epoch {
        callback_laws::stale_fixes_are_not_delivered(link.queue, generation);
        callback_laws::errors_bring_no_fixes(
            link.queue.generation_advanced(epoch, generation),
            epoch,
            error,
            generation,
        );
    }
}

/// A fix reaches whoever waits for it: the stream, and a request for a single fix that it is news
/// to. That request is then complete.
pub proof fn fixes_reach_whoever_waits(link: Link, location: LocationData)
    requires
        in_step(link),
        link.queue.epoch == link.portal.sender.epoch,
        callback_laws::well_formed(link.queue),
        !link.queue.shutdown,
    ensures
        ({
            let after = link.served(location).0;
            let answers = link.portal.one_shot matches Some(request) && one_shot::is_fresher(
                request,
                location.time,
            );
            &&& after.portal.one_shot is None
            &&& after.portal.last_location == Some(location)
            &&& link.portal.continuous || answers ==> after.queue.events.len() > 0
                && after.queue.events.last() is Location
            &&& answers ==> after.queue.events.last().is_one_shot()
        }),
{
    let answers = link.portal.one_shot matches Some(request) && one_shot::is_fresher(
        request,
        location.time,
    );
    live_fixes_are_admitted(link, location, answers);
}

} // verus!

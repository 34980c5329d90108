//! What the providers of locations are for, in terms of what goes in and what comes out: the fix that
//! was sent is the fix that is handed over, and whoever waits hears of it.

use super::callbacks::{CallbackEvent, CallbackPhase, InFlightCallback, QueueState};
use super::fix;
use super::fix::{FixField, FixValue};
use super::geoclue;
use super::geoclue::{ClientModel, GeoLink, GeoModel, GeoOperation, GeoSignal, GeoStepModel};
use super::one_shot;
use super::one_shot::OneShot;
use super::portal;
use super::portal::{
    Link, PortalModel, PortalOperation, PortalSignal, SessionModel, SessionPhase, StepModel,
};
use super::{Accuracy, Error, Freshness, LocationData};
use crate::time::Timestamp;
use vstd::prelude::*;

verus! {

/// A fix that may be delivered waits at the end of the queue, as it is. It takes the place of the fix
/// that waits there already, unless that one answers a request and is as new; and whatever answers a
/// request goes on doing so. Everything before it stays.
pub proof fn fixes_wait_as_they_are(queue: QueueState, location: LocationData, one_shot: bool)
    requires
        !queue.shutdown,
        queue.events.len() < 64,
    ensures
        ({
            let event = CallbackEvent::Location {
                location,
                one_shot,
                generation: queue.accepted_generation,
            };
            let after = queue.enqueued(queue.epoch, event);
            &&& queue.events.len() == 0 ==> after.events == seq![event]
            &&& queue.events.len() > 0 && queue.events.last() is Error ==> after.events
                == queue.events.push(event)
            &&& queue.events.len() > 0 ==> (queue.events.last() matches CallbackEvent::Location {
                location: waiting,
                one_shot: promised,
                generation,
            } ==> {
                if generation != queue.accepted_generation {
                    after.events == queue.events.push(event)
                } else {
                    let outdated = promised && !one_shot && (waiting.time matches Some(old)
                        && location.time matches Some(new) && new.secs * 1_000_000_000 + new.nanos
                        <= old.secs * 1_000_000_000 + old.nanos);
                    after.events == queue.events.drop_last().push(
                        CallbackEvent::Location {
                            location: if outdated {
                                waiting
                            } else {
                                location
                            },
                            one_shot: promised || one_shot,
                            generation,
                        },
                    )
                }
            })
            &&& after.in_flight == queue.in_flight
            &&& after.accepted_generation == queue.accepted_generation
            &&& after.epoch == queue.epoch
            &&& !after.shutdown
        }),
{
}

/// An error waits at the end of the queue, whoever sends it, unless the same error waits already.
pub proof fn errors_wait_once(queue: QueueState, epoch: u64, error: Error)
    requires
        !queue.shutdown,
        queue.events.len() < 64,
    ensures
        queue.enqueued(epoch, CallbackEvent::Error(error)).events == if exists|i: int|
            0 <= i < queue.events.len() && #[trigger] queue.events[i] == CallbackEvent::Error(
                error,
            ) {
            queue.events
        } else {
            queue.events.push(CallbackEvent::Error(error))
        },
{
    let event = CallbackEvent::Error(error);
    if exists|i: int| 0 <= i < queue.events.len() && #[trigger] queue.events[i] == event {
        let i = choose|i: int| 0 <= i < queue.events.len() && #[trigger] queue.events[i] == event;
        assert(queue.events.contains(event));
    }
}

/// Nothing gets into a queue that is shut down, and no fix of another generation or of a sender that
/// was retired gets into any.
pub proof fn nothing_else_gets_in(
    queue: QueueState,
    epoch: u64,
    event: CallbackEvent,
    location: LocationData,
    one_shot: bool,
    generation: u64,
)
    ensures
        queue.shutdown ==> queue.enqueued(epoch, event) == queue,
        epoch != queue.epoch || generation != queue.accepted_generation ==> queue.enqueued(
            epoch,
            CallbackEvent::Location { location, one_shot, generation },
        ) == queue,
{
}

/// What waits longest is handled first, and what is handled is what waited.
pub proof fn events_leave_in_order(queue: QueueState)
    requires
        !queue.shutdown,
        queue.events.len() > 0,
    ensures
        ({
            let after = queue.taken();
            &&& after.events == queue.events.subrange(1, queue.events.len() as int)
            &&& after.in_flight matches Some(callback)
            &&& callback.phase == CallbackPhase::Pending
            &&& !callback.cancelled
            &&& callback.location == (queue.events[0] is Location)
            &&& queue.events[0] matches CallbackEvent::Location { one_shot, generation, .. }
                ==> callback.one_shot == one_shot && callback.generation == generation
            &&& after.may_invoke()
            &&& after.invocation_begun().in_flight == Some(
                InFlightCallback { phase: CallbackPhase::Invoking, ..callback },
            )
        }),
{
}

/// The value that counts is the first of its name, and there is none only where no value has the
/// name.
pub proof fn the_first_value_of_a_name_counts(fields: Seq<FixField>, name: Seq<char>)
    ensures
        match fix::lookup(fields, name) {
            Some(value) => exists|i: int|
                0 <= i < fields.len() && (#[trigger] fields[i]).name@ == name && fields[i].value
                    == value && forall|j: int|
                    0 <= j < i ==> (#[trigger] fields[j]).name@ != name,
            None => forall|i: int| 0 <= i < fields.len() ==> (#[trigger] fields[i]).name@ != name,
        },
    decreases fields.len(),
{
    if fields.len() > 0 {
        let rest = fields.drop_first();
        the_first_value_of_a_name_counts(rest, name);
        if fields[0].name@ != name {
            match fix::lookup(rest, name) {
                Some(value) => {
                    let i = choose|i: int|
                        0 <= i < rest.len() && (#[trigger] rest[i]).name@ == name && rest[i].value
                            == value && forall|j: int|
                            0 <= j < i ==> (#[trigger] rest[j]).name@ != name;
                    assert(fields[i + 1].name@ == name && fields[i + 1].value == value);
                    assert forall|j: int| 0 <= j < i + 1 implies (#[trigger] fields[j]).name@
                        != name by {
                        if j > 0 {
                            assert(rest[j - 1].name@ != name);
                        }
                    }
                },
                None => {
                    assert forall|i: int| 0 <= i < fields.len() implies (
                    #[trigger] fields[i]).name@ != name by {
                        if i > 0 {
                            assert(rest[i - 1].name@ != name);
                        }
                    }
                },
            }
        } else {
            assert(fields[0].name@ == name && fields[0].value == fix::lookup(fields, name)->0);
        }
    }
}

/// A fix that is read holds just what was sent under each name, bit for bit, and the time to the
/// microsecond; numbers that are marked as unknown are left out.
pub proof fn fixes_hold_what_was_sent(fields: Seq<FixField>)
    ensures
        fix::parsed(fields) matches Some(fix) ==> {
            &&& fix::lookup(fields, "Latitude"@) == Some(
                FixValue::Double(fix.coordinates.latitude),
            )
            &&& fix::lookup(fields, "Longitude"@) == Some(
                FixValue::Double(fix.coordinates.longitude),
            )
            &&& match fix::lookup(fields, "Altitude"@) {
                Some(FixValue::Double(bits)) => fix.altitude == if bits == 0xffef_ffff_ffff_ffff {
                    None
                } else {
                    Some(bits)
                },
                other => other is None && fix.altitude is None,
            }
            &&& match fix::lookup(fields, "Speed"@) {
                Some(FixValue::Double(bits)) => fix.speed == if bits == 0xbff0_0000_0000_0000 {
                    None
                } else {
                    Some(bits)
                },
                other => other is None && fix.speed is None,
            }
            &&& match fix::lookup(fields, "Heading"@) {
                Some(FixValue::Double(bits)) => fix.bearing == if bits == 0xbff0_0000_0000_0000 {
                    None
                } else {
                    Some(bits)
                },
                other => other is None && fix.bearing is None,
            }
            &&& match fix::lookup(fields, "Timestamp"@) {
                Some(FixValue::Pair(seconds, microseconds)) => fix.time matches Some(time)
                    && time.secs == seconds && time.nanos == microseconds * 1000,
                other => other is None && fix.time is None,
            }
            &&& fix.freshness == Freshness::Live
        },
{
}

/// A fix is read exactly where its coordinates are on the globe and nothing else in it makes no
/// sense. The patterns are those of 90, 180 and 360 degrees, of -1, of the least double and of
/// infinity; the top bit is the sign.
pub proof fn fixes_are_read_where_they_make_sense(fields: Seq<FixField>)
    ensures
        fix::parsed(fields) is Some <==> {
            &&& fix::lookup(fields, "Latitude"@) matches Some(FixValue::Double(latitude))
            &&& latitude <= 0x4056_8000_0000_0000 || 0x8000_0000_0000_0000 <= latitude
                <= 0xc056_8000_0000_0000
            &&& fix::lookup(fields, "Longitude"@) matches Some(FixValue::Double(longitude))
            &&& longitude <= 0x4066_8000_0000_0000 || 0x8000_0000_0000_0000 <= longitude
                <= 0xc066_8000_0000_0000
            &&& match fix::lookup(fields, "Altitude"@) {
                None => true,
                Some(FixValue::Double(altitude)) => altitude < 0x7ff0_0000_0000_0000
                    || 0x8000_0000_0000_0000 <= altitude < 0xfff0_0000_0000_0000,
                Some(_) => false,
            }
            &&& match fix::lookup(fields, "Speed"@) {
                None => true,
                Some(FixValue::Double(speed)) => speed < 0x7ff0_0000_0000_0000 || speed
                    == 0x8000_0000_0000_0000 || speed == 0xbff0_0000_0000_0000,
                Some(_) => false,
            }
            &&& match fix::lookup(fields, "Heading"@) {
                None => true,
                Some(FixValue::Double(bearing)) => bearing < 0x4076_8000_0000_0000 || bearing
                    == 0x8000_0000_0000_0000 || bearing == 0xbff0_0000_0000_0000,
                Some(_) => false,
            }
            &&& match fix::lookup(fields, "Timestamp"@) {
                None => true,
                Some(FixValue::Pair(seconds, microseconds)) => microseconds < 1_000_000 && seconds
                    <= 0x7fff_ffff_ffff_ffff,
                Some(_) => false,
            }
        },
{
}

/// A request for a single fix has a minute, and nothing has answered it yet.
pub proof fn requests_have_a_minute(now: u64)
    requires
        now + 60_000_000_000 <= u64::MAX,
    ensures
        one_shot::fresh_request(now).deadline == now + 60_000_000_000,
        !one_shot::fresh_request(now).delivered_cached,
        one_shot::fresh_request(now).newer_than is None,
{
}

/// A fix answers a request unless the request was answered with one that is as new. Fixes without a
/// date always do.
pub proof fn newer_fixes_answer(request: OneShot, time: Option<Timestamp>)
    ensures
        one_shot::is_fresher(request, time) <==> !(request.newer_than matches Some(previous)
            && time matches Some(current) && current.secs * 1_000_000_000 + current.nanos
            <= previous.secs * 1_000_000_000 + previous.nanos),
{
}

/// A cached fix is recent exactly where it is dated, not from the future, and no more than an hour
/// old.
pub proof fn recent_means_an_hour(time: Option<Timestamp>, now: Timestamp)
    ensures
        super::is_recent(time, now) <==> (time matches Some(time) && 0 <= (now.secs
            * 1_000_000_000 + now.nanos) - (time.secs * 1_000_000_000 + time.nanos)
            <= 3_600_000_000_000),
{
}

/// The portal's fix is handed over as it arrived: to a stream that runs, and to a request for a
/// single fix that it is news to. It is the very fix that arrived, not an earlier one; and it is what
/// is remembered.
pub proof fn portal_fixes_are_handed_over(link: Link, location: LocationData)
    requires
        !link.queue.shutdown,
        link.queue.events.len() == 0,
        link.queue.epoch == link.portal.sender.epoch,
        link.queue.accepted_generation == link.portal.callback_generation,
    ensures
        ({
            let after = link.served(location).0;
            let answers = link.portal.one_shot matches Some(request)
                && !(request.newer_than matches Some(previous) && location.time matches Some(current)
                && current.secs * 1_000_000_000 + current.nanos <= previous.secs * 1_000_000_000
                + previous.nanos);
            &&& after.queue.events == if link.portal.continuous || answers {
                seq![
                    CallbackEvent::Location {
                        location,
                        one_shot: answers,
                        generation: link.portal.callback_generation,
                    },
                ]
            } else {
                Seq::empty()
            }
            &&& after.portal.last_location == Some(location)
            &&& after.portal.one_shot is None
            &&& after.portal.continuous == link.portal.continuous
            &&& after.portal.authorization_pending == link.portal.authorization_pending
            &&& after.portal.accuracy == link.portal.accuracy
            &&& after.portal.callback_generation == link.portal.callback_generation
            &&& after.portal.available == link.portal.available
        }),
{
}

/// Whatever waits, the last fix in the queue after a fix arrived for a running stream is that fix,
/// unless a newer one waits there for a request.
pub proof fn streams_are_never_behind(link: Link, location: LocationData)
    requires
        !link.queue.shutdown,
        link.queue.events.len() < 64,
        link.queue.epoch == link.portal.sender.epoch,
        link.queue.accepted_generation == link.portal.callback_generation,
        link.portal.continuous,
        !(link.queue.events.len() > 0 && link.queue.events.last().is_one_shot()),
    ensures
        ({
            let after = link.served(location).0.queue.events;
            &&& after.len() > 0
            &&& after.last() matches CallbackEvent::Location { location: last, .. }
            &&& last == location
        }),
{
}

/// Two fixes of a stream, the first handled before the second arrives, reach the handler each in its
/// turn.
pub proof fn streams_bring_each_fix(link: Link, first: LocationData, second: LocationData)
    requires
        !link.queue.shutdown,
        link.queue.events.len() == 0,
        link.queue.epoch == link.portal.sender.epoch,
        link.queue.accepted_generation == link.portal.callback_generation,
        link.portal.continuous,
        link.portal.one_shot is None,
    ensures
        ({
            let after_first = link.served(first).0;
            let handled = portal::link(after_first.portal, after_first.queue.taken());
            let after_second = handled.served(second).0;
            let generation = link.portal.callback_generation;
            &&& after_first.queue.events == seq![
                CallbackEvent::Location { location: first, one_shot: false, generation },
            ]
            &&& handled.queue.events.len() == 0
            &&& after_second.queue.events == seq![
                CallbackEvent::Location { location: second, one_shot: false, generation },
            ]
        }),
{
    let after_first = link.served(first).0;
    assert(after_first.queue.taken().events == Seq::<CallbackEvent>::empty());
}

/// The session is kept as long as somebody needs it: the stream, a question to the user, or whoever
/// had it before without a request for a single fix. Otherwise it is closed, and it is the one that
/// was there.
pub proof fn portal_sessions_end_when_unneeded(link: Link, location: LocationData, error: Error)
    ensures
        ({
            let needed = link.portal.continuous || link.portal.authorization_pending
                || link.portal.one_shot is None;
            &&& link.served(location).0.portal.session == if needed {
                link.portal.session
            } else {
                None
            }
            &&& link.disappointed(error).0.portal.session == if needed {
                link.portal.session
            } else {
                None
            }
            &&& (link.served(location).1 is Some) == (!needed && link.portal.session is Some)
            &&& (link.disappointed(error).1 is Some) == (!needed && link.portal.session is Some)
            &&& link.served(location).1 matches Some(cleanup) ==> cleanup.handle
                == link.portal.session->0.handle
        }),
{
}

/// What went wrong is what is told, and only to whoever waits.
pub proof fn portal_failures_are_told(link: Link, error: Error, now: u64, response: u32)
    requires
        !link.queue.shutdown,
        link.queue.events.len() == 0,
        link.queue.in_flight is None,
    ensures
        link.disappointed(error).0.queue.events == if link.portal.continuous
            || link.portal.one_shot is Some {
            seq![CallbackEvent::Error(error)]
        } else {
            Seq::<CallbackEvent>::empty()
        },
        link.disappointed(error).0.portal.one_shot is None,
        link.lost().queue.events == if link.portal.continuous || link.portal.one_shot is Some
            || link.portal.authorization_pending {
            seq![CallbackEvent::Error(Error::TemporarilyUnavailable)]
        } else {
            Seq::<CallbackEvent>::empty()
        },
        link.portal.available && !link.portal.dropped ==> (link.portal.one_shot matches Some(
            request,
        ) ==> link.expired(now).0.queue.events == if now >= request.deadline
            && !request.delivered_cached {
            seq![CallbackEvent::Error(Error::TemporarilyUnavailable)]
        } else {
            Seq::<CallbackEvent>::empty()
        }),
        link.portal.session matches Some(session) ==> link.answered(
            session.request,
            response,
        ).0.queue.events == if response == 0 {
            Seq::<CallbackEvent>::empty()
        } else if response == 1 {
            seq![CallbackEvent::Error(Error::AuthorizationDenied)]
        } else if response == 2 {
            seq![CallbackEvent::Error(Error::TemporarilyUnavailable)]
        } else {
            seq![CallbackEvent::Error(Error::Unknown)]
        },
{
    let epoch = link.portal.sender.epoch;
    let generation = portal::next_generation(link.portal.callback_generation);
    let gone = |event: CallbackEvent| event.is_stale(generation);
    nothing_is_left_of_nothing(gone);
    assert(link.queue.events == Seq::<CallbackEvent>::empty());
    assert(link.queue.generation_advanced(epoch, generation).events == Seq::<
        CallbackEvent,
    >::empty());
}

proof fn nothing_is_left_of_nothing(gone: spec_fn(CallbackEvent) -> bool)
    ensures
        super::callbacks::without(Seq::empty(), gone) == Seq::<CallbackEvent>::empty(),
{
    super::callback_laws::without_is_exact(Seq::empty(), gone);
    let left = super::callbacks::without(Seq::empty(), gone);
    if left.len() > 0 {
        assert(left.contains(left[0]));
        assert(Seq::<CallbackEvent>::empty().contains(left[0]));
    }
    assert(left =~= Seq::<CallbackEvent>::empty());
}

/// The user's consent makes the session that was asked for active, and changes nothing else but that
/// there is no question any more. An answer to another request changes nothing.
pub proof fn consent_activates_the_session(link: Link, request: Seq<char>, response: u32)
    ensures
        link.portal.session matches Some(session) ==> {
            let after = link.answered(request, response);
            &&& session.request != request ==> after.0 == link && after.1 is None
            &&& session.request == request && response == 0 && (link.portal.continuous
                || link.portal.one_shot is Some) ==> {
                &&& after.0.portal.session == Some(
                    SessionModel { phase: SessionPhase::Active, ..session },
                )
                &&& !after.0.portal.authorization_pending
                &&& after.0.portal.continuous == link.portal.continuous
                &&& after.0.portal.one_shot == link.portal.one_shot
                &&& after.0.portal.last_location == link.portal.last_location
                &&& after.0.queue == link.queue
                &&& after.1 is None
            }
            &&& session.request == request && response != 0 ==> {
                &&& after.0.portal.session is None
                &&& after.1 matches Some(cleanup)
                &&& cleanup.handle == session.handle
            }
        },
{
}

/// A request for a single fix is answered at once with the fix that is remembered, marked as cached
/// and otherwise as it is, where that is recent and the session active; the request then waits for
/// newer ones. Otherwise nothing happens.
pub proof fn portal_replays_are_what_is_remembered(link: Link, now: Timestamp)
    requires
        !link.queue.shutdown,
        link.queue.events.len() == 0,
        link.queue.epoch == link.portal.sender.epoch,
        link.queue.accepted_generation == link.portal.callback_generation,
        link.portal.one_shot is Some,
    ensures
        ({
            let after = link.replayed(now);
            let recent = link.portal.last_location matches Some(known) && (known.time matches Some(
                time,
            ) && 0 <= (now.secs * 1_000_000_000 + now.nanos) - (time.secs * 1_000_000_000
                + time.nanos) <= 3_600_000_000_000) && (link.portal.session matches Some(session)
                && session.phase == SessionPhase::Active);
            if recent {
                let known = link.portal.last_location->0;
                &&& after.queue.events == seq![
                    CallbackEvent::Location {
                        location: LocationData { freshness: Freshness::Cached, ..known },
                        one_shot: true,
                        generation: link.portal.callback_generation,
                    },
                ]
                &&& after.portal.one_shot == Some(
                    OneShot {
                        deadline: link.portal.one_shot->0.deadline,
                        delivered_cached: true,
                        newer_than: known.time,
                    },
                )
                &&& after.portal == (PortalModel {
                    one_shot: after.portal.one_shot,
                    ..link.portal
                })
            } else {
                after == link
            }
        }),
{
}

/// The accuracy that is asked for is the one that is used. Another one than before forgets what was
/// measured; the same one changes nothing. A session is asked for in the portal's numbers: 2 for an
/// area, 5 for a place.
pub proof fn accuracy_is_what_was_asked_for(
    link: Link,
    accuracy: Accuracy,
    operation: PortalOperation,
    now: u64,
    wall: Timestamp,
)
    ensures
        link.retuned(accuracy, now).portal.accuracy == accuracy,
        link.retuned(accuracy, now).portal.continuous == link.portal.continuous,
        link.retuned(accuracy, now).portal.session == link.portal.session,
        accuracy == link.portal.accuracy ==> link.retuned(accuracy, now) == link,
        accuracy != link.portal.accuracy ==> {
            &&& link.retuned(accuracy, now).portal.last_location is None
            &&& link.retuned(accuracy, now).portal.callback_generation
                != link.portal.callback_generation
        },
        portal::accuracy_level(Accuracy::Approximate) == 2,
        portal::accuracy_level(Accuracy::Precise) == 5,
        geoclue::accuracy_level(Accuracy::Approximate) == 4,
        geoclue::accuracy_level(Accuracy::Precise) == 8,
        link.session_wanted(operation, wall).step matches StepModel::CreateSession {
            accuracy: asked,
            ..
        } ==> asked == match link.portal.accuracy {
            Accuracy::Approximate => 2u32,
            Accuracy::Precise => 5,
        },
{
}

/// A session is created exactly where the connection is usable, there is none, and there is a name
/// left for it. With a session the operation is done at once; without the portal it fails, and the
/// wish it brought is taken back.
pub proof fn sessions_are_created_when_needed(
    link: Link,
    operation: PortalOperation,
    wall: Timestamp,
)
    ensures
        ({
            let after = link.session_wanted(operation, wall);
            let usable = link.portal.available && !link.portal.dropped;
            &&& (after.step is CreateSession) == (usable && link.portal.session is None
                && link.portal.next_token < u64::MAX)
            &&& after.step is CreateSession ==> after.link.portal.next_token
                == link.portal.next_token + 1
            &&& !usable ==> after.step == StepModel::Finished(Err(Error::TemporarilyUnavailable))
            &&& usable && link.portal.session is Some ==> after.step == StepModel::Finished(Ok(()))
            &&& after.link.portal.session == link.portal.session
            &&& after.step is Finished && !usable && operation == (PortalOperation::StartUpdates {
                was_continuous: false,
            }) ==> !after.link.portal.continuous
            &&& after.step is Finished && !usable && operation == (PortalOperation::UpdateOnce {
                had_one_shot: false,
            }) ==> after.link.portal.one_shot is None
        }),
{
}

/// Signals of the portal that was probed are told apart by what they are called; those of anybody
/// else, and any once the connection is gone, are ignored.
pub proof fn portal_signals_are_told_apart(
    usable: bool,
    owner: Seq<char>,
    sender: Option<Seq<char>>,
    interface: Option<Seq<char>>,
    member: Option<Seq<char>>,
)
    ensures
        ({
            let kind = portal::signal_kind(usable, owner, sender, interface, member);
            let ours = usable && sender == Some(owner);
            &&& !ours ==> kind == PortalSignal::Ignored
            &&& kind == PortalSignal::LocationUpdated <==> ours && interface == Some(
                "org.freedesktop.portal.Location"@,
            ) && member == Some("LocationUpdated"@)
            &&& kind == PortalSignal::Response ==> interface == Some(
                "org.freedesktop.portal.Request"@,
            ) && member == Some("Response"@)
            &&& kind == PortalSignal::SessionClosed ==> interface == Some(
                "org.freedesktop.portal.Session"@,
            ) && member == Some("Closed"@)
            &&& ours && interface == Some("org.freedesktop.portal.Request"@) && member == Some(
                "Response"@,
            ) ==> kind == PortalSignal::Response
            &&& ours && interface == Some("org.freedesktop.portal.Session"@) && member == Some(
                "Closed"@,
            ) ==> kind == PortalSignal::SessionClosed
        }),
{
    reveal_strlit("org.freedesktop.portal.Location");
    reveal_strlit("org.freedesktop.portal.Request");
    reveal_strlit("org.freedesktop.portal.Session");
    reveal_strlit("LocationUpdated");
    reveal_strlit("Response");
    reveal_strlit("Closed");
    assert("LocationUpdated"@.len() != "Response"@.len());
    assert("LocationUpdated"@.len() != "Closed"@.len());
    assert("Response"@.len() != "Closed"@.len());
}

/// GeoClue's fix is handed over as it arrived: to a stream that runs, and to a request for a single
/// fix that it is news to. It is the very fix that arrived; and it is what is remembered.
pub proof fn geoclue_fixes_are_handed_over(
    link: GeoLink,
    client: ClientModel,
    location: LocationData,
)
    requires
        !link.queue.shutdown,
        link.queue.events.len() == 0,
        link.queue.epoch == link.geo.sender.epoch,
        link.queue.accepted_generation == link.geo.callback_generation,
        link.geo.client matches Some(current) && current.path == client.path && current.owner
            == client.owner,
    ensures
        ({
            let after = link.served(client, location).link;
            let answers = link.geo.one_shot matches Some(request)
                && !(request.newer_than matches Some(previous) && location.time matches Some(current)
                && current.secs * 1_000_000_000 + current.nanos <= previous.secs * 1_000_000_000
                + previous.nanos);
            &&& after.queue.events == if link.geo.continuous || answers {
                seq![
                    CallbackEvent::Location {
                        location,
                        one_shot: answers,
                        generation: link.geo.callback_generation,
                    },
                ]
            } else {
                Seq::empty()
            }
            &&& after.geo.last_location == Some(location)
            &&& after.geo.one_shot is None
            &&& after.geo.continuous == link.geo.continuous
            &&& after.geo.client == link.geo.client
            &&& after.geo.accuracy == link.geo.accuracy
            &&& after.geo.callback_generation == link.geo.callback_generation
        }),
{
}

/// Two fixes of a stream, the first handled before the second arrives, reach the handler each in its
/// turn.
pub proof fn geoclue_streams_bring_each_fix(
    link: GeoLink,
    client: ClientModel,
    first: LocationData,
    second: LocationData,
)
    requires
        !link.queue.shutdown,
        link.queue.events.len() == 0,
        link.queue.epoch == link.geo.sender.epoch,
        link.queue.accepted_generation == link.geo.callback_generation,
        link.geo.client == Some(client),
        link.geo.continuous,
        link.geo.one_shot is None,
    ensures
        ({
            let after_first = link.served(client, first).link;
            let handled = geoclue::link(after_first.geo, after_first.queue.taken());
            let after_second = handled.served(client, second).link;
            let generation = link.geo.callback_generation;
            &&& after_first.queue.events == seq![
                CallbackEvent::Location { location: first, one_shot: false, generation },
            ]
            &&& handled.queue.events.len() == 0
            &&& after_second.queue.events == seq![
                CallbackEvent::Location { location: second, one_shot: false, generation },
            ]
        }),
{
    let after_first = link.served(client, first).link;
    assert(after_first.queue.taken().events == Seq::<CallbackEvent>::empty());
}

/// What went wrong with GeoClue is what is told, and only to whoever waits.
pub proof fn geoclue_failures_are_told(
    link: GeoLink,
    client: ClientModel,
    error: Error,
    now: u64,
)
    requires
        !link.queue.shutdown,
        link.queue.events.len() == 0,
        link.queue.in_flight is None,
        link.geo.client == Some(client),
    ensures
        link.disappointed(client, error).link.queue.events == if link.geo.continuous
            || link.geo.one_shot is Some {
            seq![CallbackEvent::Error(error)]
        } else {
            Seq::<CallbackEvent>::empty()
        },
        link.lost().queue.events == if link.geo.continuous || link.geo.one_shot is Some
            || link.geo.authorization_pending {
            seq![CallbackEvent::Error(Error::TemporarilyUnavailable)]
        } else {
            Seq::<CallbackEvent>::empty()
        },
        link.revoked().queue.events == if link.geo.continuous || link.geo.one_shot is Some {
            seq![CallbackEvent::Error(Error::AuthorizationDenied)]
        } else {
            Seq::<CallbackEvent>::empty()
        },
        link.geo.available && !link.geo.dropped ==> (link.geo.one_shot matches Some(request)
            ==> link.expired(now).link.queue.events == if now >= request.deadline
            && !request.delivered_cached {
            seq![CallbackEvent::Error(Error::TemporarilyUnavailable)]
        } else {
            Seq::<CallbackEvent>::empty()
        }),
{
    let epoch = link.geo.sender.epoch;
    let generation = portal::next_generation(link.geo.callback_generation);
    let gone = |event: CallbackEvent| event.is_stale(generation);
    nothing_is_left_of_nothing(gone);
    assert(link.queue.events == Seq::<CallbackEvent>::empty());
    assert(link.queue.generation_advanced(epoch, generation).events == Seq::<
        CallbackEvent,
    >::empty());
}

/// A request for a single fix is answered at once with the fix that is remembered, marked as cached
/// and otherwise as it is, where that is recent.
pub proof fn geoclue_replays_are_what_is_remembered(link: GeoLink, now: Timestamp)
    requires
        !link.queue.shutdown,
        link.queue.events.len() == 0,
        link.queue.epoch == link.geo.sender.epoch,
        link.queue.accepted_generation == link.geo.callback_generation,
        link.geo.one_shot is Some,
    ensures
        ({
            let after = link.replayed(now);
            let recent = link.geo.last_location matches Some(known) && (known.time matches Some(time)
                && 0 <= (now.secs * 1_000_000_000 + now.nanos) - (time.secs * 1_000_000_000
                + time.nanos) <= 3_600_000_000_000);
            if recent {
                let known = link.geo.last_location->0;
                &&& after.queue.events == seq![
                    CallbackEvent::Location {
                        location: LocationData { freshness: Freshness::Cached, ..known },
                        one_shot: true,
                        generation: link.geo.callback_generation,
                    },
                ]
                &&& after.geo.one_shot == Some(
                    OneShot {
                        deadline: link.geo.one_shot->0.deadline,
                        delivered_cached: true,
                        newer_than: known.time,
                    },
                )
                &&& after.geo == (GeoModel { one_shot: after.geo.one_shot, ..link.geo })
            } else {
                after == link
            }
        }),
{
}

/// The accuracy that is asked for is the one that is used, what was measured before is forgotten, and
/// only a client of that accuracy is started.
pub proof fn geoclue_accuracy_is_what_was_asked_for(
    link: GeoLink,
    accuracy: Accuracy,
    operation: GeoOperation,
    client: ClientModel,
    now: u64,
    wall: Timestamp,
)
    ensures
        link.retuned(accuracy, now).geo.accuracy == accuracy,
        link.retuned(accuracy, now).geo.last_location is None,
        link.retuned(accuracy, now).geo.continuous == link.geo.continuous,
        link.retuned(accuracy, now).geo.callback_generation != link.geo.callback_generation,
        !link.geo.started ==> ((link.launched(operation, client, wall).step is Start) == (
        client.configured_accuracy == match link.geo.accuracy {
            Accuracy::Approximate => 4u32,
            Accuracy::Precise => 8,
        })),
        link.launched(operation, client, wall).step matches GeoStepModel::Start {
            client: started,
            ..
        } ==> started == client,
{
}

/// A client is started where the connection is usable and none runs: the one at hand, or else a new
/// one. Without the daemon the operation fails.
pub proof fn clients_are_started_when_needed(
    link: GeoLink,
    operation: GeoOperation,
    wall: Timestamp,
)
    ensures
        ({
            let after = link.start_wanted(operation, wall);
            let usable = link.geo.available && !link.geo.dropped;
            &&& !usable ==> after.step == GeoStepModel::Finished(
                Err(Error::TemporarilyUnavailable),
            )
            &&& usable && !link.geo.started && link.geo.client is None ==> after.step
                == GeoStepModel::GetClient(operation)
            &&& after.step is GetClient ==> usable && link.geo.client is None
            &&& usable && link.geo.started && !(operation is Authorize) ==> after.step
                == GeoStepModel::Finished(Ok(()))
            &&& after.step matches GeoStepModel::Start { client, .. } ==> link.geo.client == Some(
                client,
            )
        }),
{
}

/// Whoever is done stops the client that runs; the client that is retired is stopped or deleted, and
/// is the one that was there.
pub proof fn the_client_at_hand_is_stopped(link: GeoLink, wall: Timestamp)
    ensures
        link.stopping().step matches GeoStepModel::Stop(client) ==> link.geo.client == Some(client),
        link.geo.client is Some && (link.geo.started || link.geo.starting) ==> link.stopping().step
            is Stop,
        link.geo.client matches Some(client) ==> link.retiring(wall).step == if link.geo.started
            || link.geo.starting {
            GeoStepModel::StopRetired(client)
        } else {
            GeoStepModel::Delete(client)
        },
        link.retiring(wall).link.geo.client is None || link.geo.client is None,
{
}

/// Signals of our client are told apart by what they are called; those of any other object or daemon
/// are ignored.
pub proof fn geoclue_signals_are_told_apart(
    client: Option<ClientModel>,
    path: Option<Seq<char>>,
    sender: Option<Seq<char>>,
    interface: Option<Seq<char>>,
    member: Option<Seq<char>>,
)
    ensures
        ({
            let kind = geoclue::signal_kind(client, path, sender, interface, member);
            let ours = client matches Some(client) && path == Some(client.path) && sender == Some(
                client.owner,
            );
            &&& !ours ==> kind == GeoSignal::Ignored
            &&& kind == GeoSignal::LocationUpdated <==> ours && interface == Some(
                "org.freedesktop.GeoClue2.Client"@,
            ) && member == Some("LocationUpdated"@)
            &&& kind == GeoSignal::PropertiesChanged <==> ours && interface == Some(
                "org.freedesktop.DBus.Properties"@,
            ) && member == Some("PropertiesChanged"@)
        }),
{
    reveal_strlit("LocationUpdated");
    reveal_strlit("PropertiesChanged");
    assert("LocationUpdated"@.len() != "PropertiesChanged"@.len());
}

} // verus!

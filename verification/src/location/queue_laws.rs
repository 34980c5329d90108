//! What leaves the queue before it is delivered, and what stays.

use super::callbacks;
use super::callbacks::{CallbackEvent, CallbackPhase, InFlightCallback, QueueState};
use super::LocationData;
use vstd::prelude::*;

verus! {

/// After a shutdown nothing waits any more, and what has not reached its handler never will.
pub proof fn nothing_waits_after_a_shutdown(queue: QueueState)
    ensures
        ({
            let after = queue.shut_down();
            &&& after.shutdown
            &&& after.events.len() == 0
            &&& after.epoch == queue.epoch
            &&& after.accepted_generation == queue.accepted_generation
            &&& queue.in_flight is None ==> after.in_flight is None
            &&& queue.in_flight matches Some(callback) ==> {
                &&& callback.phase == CallbackPhase::Pending ==> after.in_flight == Some(
                    InFlightCallback { cancelled: true, ..callback },
                )
                &&& callback.phase != CallbackPhase::Pending ==> after.in_flight == queue.in_flight
            }
            &&& !after.may_invoke()
        }),
{
}

/// When senders are retired, all their fixes go and every error stays, in its order. Their number is
/// never used again until the count comes round.
pub proof fn fixes_go_with_their_senders(queue: QueueState, next: CallbackEvent)
    ensures
        ({
            let after = queue.senders_retired();
            let longer = QueueState { events: queue.events.push(next), ..queue };
            &&& queue.events.len() == 0 ==> after.events.len() == 0
            &&& next is Location ==> longer.senders_retired().events == after.events
            &&& next is Error ==> longer.senders_retired().events == after.events.push(next)
            &&& after.accepted_generation == 0
            &&& after.shutdown == queue.shutdown
            &&& queue.epoch < u64::MAX ==> after.epoch == queue.epoch + 1
            &&& queue.epoch == u64::MAX ==> after.epoch == 0
            &&& queue.in_flight is None ==> after.in_flight is None
            &&& queue.in_flight matches Some(callback) ==> {
                if callback.location && callback.phase == CallbackPhase::Pending {
                    after.in_flight == Some(InFlightCallback { cancelled: true, ..callback })
                } else {
                    after.in_flight == queue.in_flight
                }
            }
        }),
{
    reveal(Seq::filter);
    assert(queue.events.push(next).drop_last() =~= queue.events);
}

/// When a new generation begins, the fixes of every other go and all else stays, in its order. A sender
/// that was retired cannot begin one.
pub proof fn fixes_go_with_their_generation(
    queue: QueueState,
    generation: u64,
    epoch: u64,
    next: CallbackEvent,
)
    ensures
        epoch != queue.epoch ==> queue.generation_advanced(epoch, generation) == queue,
        ({
            let after = queue.generation_advanced(queue.epoch, generation);
            let longer = QueueState { events: queue.events.push(next), ..queue };
            let stays = next matches CallbackEvent::Location { generation: own, .. } ==> own
                == generation;
            &&& queue.events.len() == 0 ==> after.events.len() == 0
            &&& stays ==> longer.generation_advanced(queue.epoch, generation).events
                == after.events.push(next)
            &&& !stays ==> longer.generation_advanced(queue.epoch, generation).events
                == after.events
            &&& after.accepted_generation == generation
            &&& after.epoch == queue.epoch
            &&& after.shutdown == queue.shutdown
            &&& queue.in_flight is None ==> after.in_flight is None
            &&& queue.in_flight matches Some(callback) ==> {
                if callback.location && callback.phase == CallbackPhase::Pending
                    && callback.generation != generation {
                    after.in_flight == Some(InFlightCallback { cancelled: true, ..callback })
                } else {
                    after.in_flight == queue.in_flight
                }
            }
        }),
{
    reveal(Seq::filter);
    assert(queue.events.push(next).drop_last() =~= queue.events);
}

/// A request for one fix loses its answer to a new generation just where such an answer of another
/// generation waits, or is on its way and can still be held back.
pub proof fn lost_answers_are_known(queue: QueueState, generation: u64)
    ensures
        queue.discards_one_shot(queue.epoch, generation) <==> {
            ||| exists|i: int|
                0 <= i < queue.events.len() && (
                #[trigger] queue.events[i] matches CallbackEvent::Location {
                    one_shot: true,
                    generation: own,
                    ..
                } && own != generation)
            ||| queue.in_flight matches Some(callback) && callback.location && callback.phase
                == CallbackPhase::Pending && callback.generation != generation && callback.one_shot
        },
{
    if queue.discards_one_shot(queue.epoch, generation) && !(queue.pending_stale(generation)
        && queue.in_flight->Some_0.one_shot) {
        let i = choose|i: int|
            0 <= i < queue.events.len() && (#[trigger] queue.events[i]).is_stale(generation)
                && queue.events[i].is_one_shot();
        assert(queue.events[i] matches CallbackEvent::Location {
            one_shot: true,
            generation: own,
            ..
        } && own != generation);
    }
    if exists|i: int|
        0 <= i < queue.events.len() && (#[trigger] queue.events[i] matches CallbackEvent::Location {
            one_shot: true,
            generation: own,
            ..
        } && own != generation) {
        let i = choose|i: int|
            0 <= i < queue.events.len() && (
            #[trigger] queue.events[i] matches CallbackEvent::Location {
                one_shot: true,
                generation: own,
                ..
            } && own != generation);
        assert(queue.events[i].is_stale(generation) && queue.events[i].is_one_shot());
    }
}

/// When a stream ends, its fixes go. The answer to a request for one fix stays, and so does every error.
pub proof fn streamed_fixes_go_with_the_stream(
    queue: QueueState,
    epoch: u64,
    next: CallbackEvent,
)
    ensures
        epoch != queue.epoch ==> queue.continuous_discarded(epoch) == queue,
        ({
            let after = queue.continuous_discarded(queue.epoch);
            let longer = QueueState { events: queue.events.push(next), ..queue };
            let stays = next matches CallbackEvent::Location { one_shot, .. } ==> one_shot;
            &&& queue.events.len() == 0 ==> after.events.len() == 0
            &&& stays ==> longer.continuous_discarded(queue.epoch).events == after.events.push(next)
            &&& !stays ==> longer.continuous_discarded(queue.epoch).events == after.events
            &&& after.accepted_generation == queue.accepted_generation
            &&& after.epoch == queue.epoch
            &&& after.shutdown == queue.shutdown
            &&& queue.in_flight is None ==> after.in_flight is None
            &&& queue.in_flight matches Some(callback) ==> {
                if callback.location && callback.phase == CallbackPhase::Pending
                    && !callback.one_shot {
                    after.in_flight == Some(InFlightCallback { cancelled: true, ..callback })
                } else {
                    after.in_flight == queue.in_flight
                }
            }
        }),
{
    reveal(Seq::filter);
    assert(queue.events.push(next).drop_last() =~= queue.events);
}

proof fn the_first_to_give_way(events: Seq<CallbackEvent>, at: int)
    requires
        0 <= at < events.len(),
        !events[at].is_one_shot(),
        forall|i: int| 0 <= i < at ==> (#[trigger] events[i]).is_one_shot(),
    ensures
        callbacks::first_evictable(events) == Some(at),
    decreases events.len(),
{
    let rest = events.drop_last();
    if at < rest.len() {
        assert forall|i: int| 0 <= i < at implies (#[trigger] rest[i]).is_one_shot() by {
            assert(rest[i] == events[i]);
        }
        the_first_to_give_way(rest, at);
    } else {
        assert forall|i: int| 0 <= i < rest.len() implies (#[trigger] rest[i]).is_one_shot() by {
            assert(rest[i] == events[i]);
        }
        none_gives_way(rest);
    }
}

proof fn none_gives_way(events: Seq<CallbackEvent>)
    requires
        forall|i: int| 0 <= i < events.len() ==> (#[trigger] events[i]).is_one_shot(),
    ensures
        callbacks::first_evictable(events) is None,
    decreases events.len(),
{
    if events.len() > 0 {
        let rest = events.drop_last();
        assert forall|i: int| 0 <= i < rest.len() implies (#[trigger] rest[i]).is_one_shot() by {
            assert(rest[i] == events[i]);
        }
        none_gives_way(rest);
        assert(events[events.len() - 1].is_one_shot());
    }
}

/// In a full queue the first event that answers no request for one fix gives way to a new error. Answers
/// never do.
pub proof fn full_queues_keep_answers(queue: QueueState, epoch: u64, error: super::Error, at: int)
    requires
        !queue.shutdown,
        queue.events.len() == 64,
        forall|i: int|
            0 <= i < queue.events.len() ==> #[trigger] queue.events[i] != CallbackEvent::Error(
                error,
            ),
        0 <= at < 64,
        !(queue.events[at] matches CallbackEvent::Location { one_shot: true, .. }),
        forall|i: int|
            0 <= i < at ==> (#[trigger] queue.events[i] matches CallbackEvent::Location {
                one_shot: true,
                ..
            }),
    ensures
        queue.enqueued(epoch, CallbackEvent::Error(error)).events == queue.events.subrange(0, at)
            + queue.events.subrange(at + 1, 64) + seq![CallbackEvent::Error(error)],
{
    let event = CallbackEvent::Error(error);
    assert(!queue.events.contains(event));
    assert forall|i: int| 0 <= i < at implies (#[trigger] queue.events[i]).is_one_shot() by {}
    the_first_to_give_way(queue.events, at);
    assert(queue.events.remove(at).push(event) =~= queue.events.subrange(0, at)
        + queue.events.subrange(at + 1, 64) + seq![event]);
}

/// The same goes for a fix that cannot join the one that waits last.
pub proof fn full_queues_keep_answers_from_fixes(
    queue: QueueState,
    location: LocationData,
    one_shot: bool,
    at: int,
)
    requires
        !queue.shutdown,
        queue.events.len() == 64,
        queue.events[63] matches CallbackEvent::Location { generation, .. } ==> generation
            != queue.accepted_generation,
        0 <= at < 64,
        !(queue.events[at] matches CallbackEvent::Location { one_shot: true, .. }),
        forall|i: int|
            0 <= i < at ==> (#[trigger] queue.events[i] matches CallbackEvent::Location {
                one_shot: true,
                ..
            }),
    ensures
        ({
            let event = CallbackEvent::Location {
                location,
                one_shot,
                generation: queue.accepted_generation,
            };
            queue.enqueued(queue.epoch, event).events == queue.events.subrange(0, at)
                + queue.events.subrange(at + 1, 64) + seq![event]
        }),
{
    let event = CallbackEvent::Location {
        location,
        one_shot,
        generation: queue.accepted_generation,
    };
    assert forall|i: int| 0 <= i < at implies (#[trigger] queue.events[i]).is_one_shot() by {}
    the_first_to_give_way(queue.events, at);
    assert(queue.events.remove(at).push(event) =~= queue.events.subrange(0, at)
        + queue.events.subrange(at + 1, 64) + seq![event]);
}

} // verus!

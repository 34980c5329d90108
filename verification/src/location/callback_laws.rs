//! What holds of the callback queue whatever happens to it.

use super::callbacks;
use super::callbacks::{CallbackEvent, CallbackPhase, QueueState, CALLBACK_QUEUE_CAPACITY};
use super::{Error, ERROR_KINDS};
use vstd::prelude::*;

verus! {

/// How every queue looks that started empty: each waiting fix is of the accepted generation, no
/// fix waits right behind another, and no error waits twice.
pub open spec fn well_formed(queue: QueueState) -> bool {
    &&& current(queue)
    &&& spaced(queue.events)
    &&& distinct_errors(queue.events)
}

/// Each waiting fix is of the accepted generation.
pub open spec fn current(queue: QueueState) -> bool {
    forall|i: int|
        0 <= i < queue.events.len() ==> !(#[trigger] queue.events[i]).is_stale(
            queue.accepted_generation,
        )
}

/// No fix waits right behind another.
pub open spec fn spaced(events: Seq<CallbackEvent>) -> bool {
    forall|i: int, j: int|
        0 <= i < events.len() && j == i + 1 && j < events.len() ==> !(#[trigger] events[i] is Location
            && #[trigger] events[j] is Location)
}

/// No error waits twice.
pub open spec fn distinct_errors(events: Seq<CallbackEvent>) -> bool {
    forall|i: int, j: int|
        0 <= i < j < events.len() && #[trigger] events[i] is Error ==> events[i]
            != #[trigger] events[j]
}

/// The errors that wait.
spec fn errors_of(events: Seq<CallbackEvent>) -> Set<Error> {
    Set::new(|error: Error| events.contains(CallbackEvent::Error(error)))
}

spec fn every_error() -> Set<Error> {
    set![
        Error::AndroidEnvironment,
        Error::AuthorizationDenied,
        Error::Network,
        Error::NotMainThread,
        Error::TemporarilyUnavailable,
        Error::PermanentlyUnavailable,
        Error::Unknown,
    ]
}

proof fn errors_are_few(events: Seq<CallbackEvent>)
    ensures
        errors_of(events).finite(),
        errors_of(events).len() <= ERROR_KINDS,
{
    assert(errors_of(events).subset_of(every_error()));
    vstd::set_lib::lemma_len_subset(errors_of(events), every_error());
    assert(every_error().len() == 7);
}

/// What waits before the last event keeps its order.
proof fn shorter_queues_keep_order(events: Seq<CallbackEvent>)
    requires
        events.len() > 0,
        spaced(events),
        distinct_errors(events),
    ensures
        spaced(events.drop_last()),
        distinct_errors(events.drop_last()),
{
    let rest = events.drop_last();
    assert forall|i: int, j: int|
        0 <= i < rest.len() && j == i + 1 && j < rest.len() implies !(
    #[trigger] rest[i] is Location && #[trigger] rest[j] is Location) by {
        assert(rest[i] == events[i] && rest[j] == events[j]);
    }
    assert forall|i: int, j: int|
        0 <= i < j < rest.len() && #[trigger] rest[i] is Error implies rest[i]
        != #[trigger] rest[j] by {
        assert(rest[i] == events[i] && rest[j] == events[j]);
    }
}

/// Between two waiting fixes an error waits, so fixes are at most one more than errors.
proof fn length_by_errors(events: Seq<CallbackEvent>)
    requires
        spaced(events),
        distinct_errors(events),
    ensures
        errors_of(events).finite(),
        events.len() <= 2 * errors_of(events).len() + 1,
        events.len() > 0 && events.last() is Error ==> events.len() <= 2 * errors_of(events).len(),
    decreases events.len(),
{
    errors_are_few(events);
    if events.len() > 0 {
        let rest = events.drop_last();
        shorter_queues_keep_order(events);
        length_by_errors(rest);
        errors_are_few(rest);
        match events.last() {
            CallbackEvent::Error(error) => {
                assert(!rest.contains(CallbackEvent::Error(error))) by {
                    if rest.contains(CallbackEvent::Error(error)) {
                        let i = rest.index_of(CallbackEvent::Error(error));
                        assert(rest[i] == events[i]);
                        assert(events[i] != events[events.len() - 1]);
                    }
                }
                assert(errors_of(events) == errors_of(rest).insert(error)) by {
                    assert forall|e: Error|
                        errors_of(events).contains(e) == errors_of(rest).insert(error).contains(
                            e,
                        ) by {
                        if events.contains(CallbackEvent::Error(e)) && e != error {
                            let i = events.index_of(CallbackEvent::Error(e));
                            assert(rest[i] == events[i]);
                        }
                        if rest.contains(CallbackEvent::Error(e)) {
                            let i = rest.index_of(CallbackEvent::Error(e));
                            assert(events[i] == rest[i]);
                        }
                        if e == error {
                            assert(events[events.len() - 1] == CallbackEvent::Error(e));
                        }
                    }
                }
            },
            CallbackEvent::Location { .. } => {
                assert(errors_of(events) == errors_of(rest)) by {
                    assert forall|e: Error|
                        errors_of(events).contains(e) == errors_of(rest).contains(e) by {
                        if events.contains(CallbackEvent::Error(e)) {
                            let i = events.index_of(CallbackEvent::Error(e));
                            assert(rest[i] == events[i]);
                        }
                        if rest.contains(CallbackEvent::Error(e)) {
                            let i = rest.index_of(CallbackEvent::Error(e));
                            assert(events[i] == rest[i]);
                        }
                    }
                }
                if rest.len() > 0 {
                    assert(events[events.len() - 2] == rest.last());
                    assert(!(events[events.len() - 2] is Location && events[events.len()
                        - 1] is Location));
                }
            },
        }
    }
}

/// The queue never fills up: far fewer events than its capacity can wait at once.
pub proof fn queue_stays_bounded(queue: QueueState)
    requires
        well_formed(queue),
    ensures
        queue.events.len() <= 2 * ERROR_KINDS + 1,
        queue.events.len() < CALLBACK_QUEUE_CAPACITY,
{
    length_by_errors(queue.events);
    errors_are_few(queue.events);
}

/// So an admitted event always gets in, next to everything that waits already: nothing is ever
/// evicted for it.
pub proof fn nothing_is_evicted(queue: QueueState, epoch: u64, event: CallbackEvent)
    requires
        well_formed(queue),
        queue.admits(epoch, event),
    ensures
        queue.enqueued(epoch, event).events == if queue.coalesces(event) {
            queue.events.drop_last().push(callbacks::coalesced(queue.events.last(), event))
        } else {
            queue.events.push(event)
        },
{
    queue_stays_bounded(queue);
}

/// A new queue is well formed.
pub proof fn empty_queue_is_well_formed(queue: QueueState)
    requires
        queue.events.len() == 0,
    ensures
        well_formed(queue),
{
}

/// Enqueueing keeps the queue well formed.
pub proof fn enqueue_keeps_well_formed(queue: QueueState, epoch: u64, event: CallbackEvent)
    requires
        well_formed(queue),
    ensures
        well_formed(queue.enqueued(epoch, event)),
{
    let after = queue.enqueued(epoch, event);
    if queue.admits(epoch, event) {
        nothing_is_evicted(queue, epoch, event);
        if queue.coalesces(event) {
            let n = queue.events.len() - 1;
            assert forall|i: int, j: int|
                0 <= i < after.events.len() && j == i + 1 && j < after.events.len() implies !(
            #[trigger] after.events[i] is Location && #[trigger] after.events[j] is Location) by {
                assert(!(queue.events[i] is Location && queue.events[j] is Location));
            }
            assert forall|i: int, j: int|
                0 <= i < j < after.events.len() && #[trigger] after.events[i] is Error implies after.events[i]
                != #[trigger] after.events[j] by {
                if j < n {
                    assert(queue.events[i] != queue.events[j]);
                }
            }
        } else {
            let n = queue.events.len() as int;
            assert forall|i: int, j: int|
                0 <= i < after.events.len() && j == i + 1 && j < after.events.len() implies !(
            #[trigger] after.events[i] is Location && #[trigger] after.events[j] is Location) by {
                if j < n {
                    assert(!(queue.events[i] is Location && queue.events[j] is Location));
                } else if event is Location {
                    assert(queue.events.last() == queue.events[i]);
                    assert(!queue.events[i].is_stale(queue.accepted_generation));
                }
            }
            assert forall|i: int, j: int|
                0 <= i < j < after.events.len() && #[trigger] after.events[i] is Error implies after.events[i]
                != #[trigger] after.events[j] by {
                if j < n {
                    assert(queue.events[i] != queue.events[j]);
                } else if after.events[i] == event {
                    assert(queue.events[i] == event);
                    assert(queue.events.contains(event));
                }
            }
        }
    }
}

/// Removing events removes those that were picked out, and no others.
pub proof fn without_is_exact(events: Seq<CallbackEvent>, gone: spec_fn(CallbackEvent) -> bool)
    ensures
        forall|event: CallbackEvent|
            #[trigger] callbacks::without(events, gone).contains(event) <==> events.contains(event)
                && !gone(event),
    decreases events.len(),
{
    reveal(Seq::filter);
    if events.len() > 0 {
        let rest = events.drop_last();
        without_is_exact(rest, gone);
        let kept = callbacks::without(events, gone);
        let kept_rest = callbacks::without(rest, gone);
        assert forall|event: CallbackEvent|
            #[trigger] kept.contains(event) <==> events.contains(event) && !gone(event) by {
            if kept.contains(event) {
                let i = kept.index_of(event);
                if i < kept_rest.len() {
                    assert(kept_rest[i] == event);
                    assert(kept_rest.contains(event));
                    let j = rest.index_of(event);
                    assert(events[j] == event);
                } else {
                    assert(events[events.len() - 1] == event);
                }
            }
            if events.contains(event) && !gone(event) {
                let i = events.index_of(event);
                if i < rest.len() {
                    assert(rest[i] == event);
                    assert(kept_rest.contains(event));
                    let j = kept_rest.index_of(event);
                    assert(kept[j] == event);
                } else {
                    assert(kept[kept.len() - 1] == event);
                }
            }
        }
    }
}

/// What is left of a well-formed queue once some of its fixes are gone is well formed.
proof fn without_keeps_order(
    events: Seq<CallbackEvent>,
    gone: spec_fn(CallbackEvent) -> bool,
)
    requires
        spaced(events),
        distinct_errors(events),
        forall|event: CallbackEvent| #[trigger] gone(event) ==> event is Location,
    ensures
        spaced(callbacks::without(events, gone)),
        distinct_errors(callbacks::without(events, gone)),
        events.len() > 0 && events.last() is Error ==> callbacks::without(events, gone).len() > 0
            && callbacks::without(events, gone).last() == events.last(),
    decreases events.len(),
{
    reveal(Seq::filter);
    let kept = callbacks::without(events, gone);
    if events.len() > 0 {
        let rest = events.drop_last();
        let last = events.last();
        shorter_queues_keep_order(events);
        without_keeps_order(rest, gone);
        let kept_rest = callbacks::without(rest, gone);
        assert(kept == if gone(last) {
            kept_rest
        } else {
            kept_rest.push(last)
        });
        without_is_exact(rest, gone);
        if !gone(last) {
            assert forall|i: int, j: int|
                0 <= i < kept.len() && j == i + 1 && j < kept.len() implies !(
            #[trigger] kept[i] is Location && #[trigger] kept[j] is Location) by {
                if j < kept_rest.len() {
                    assert(kept_rest[i] == kept[i] && kept_rest[j] == kept[j]);
                } else if last is Location {
                    assert(rest.len() > 0) by {
                        assert(kept_rest.contains(kept_rest[i]));
                    }
                    assert(!(events[events.len() - 2] is Location && events[events.len()
                        - 1] is Location));
                    assert(rest.last() is Error);
                    assert(kept_rest.last() == rest.last());
                }
            }
            assert forall|i: int, j: int|
                0 <= i < j < kept.len() && #[trigger] kept[i] is Error implies kept[i]
                != #[trigger] kept[j] by {
                if j < kept_rest.len() {
                    assert(kept_rest[i] == kept[i] && kept_rest[j] == kept[j]);
                } else if kept[i] == last {
                    assert(kept_rest[i] == last);
                    assert(kept_rest.contains(last));
                    assert(rest.contains(last));
                    let at = rest.index_of(last);
                    assert(events[at] != events[events.len() - 1]);
                }
            }
        } else {
            assert(kept == kept_rest);
        }
    }
}

/// Everything else that happens to a queue keeps it well formed too.
pub proof fn operations_keep_well_formed(queue: QueueState, epoch: u64, generation: u64)
    requires
        well_formed(queue),
    ensures
        well_formed(queue.shut_down()),
        well_formed(queue.senders_retired()),
        well_formed(queue.generation_advanced(epoch, generation)),
        well_formed(queue.continuous_discarded(epoch)),
        well_formed(queue.taken()),
        well_formed(queue.invocation_begun()),
{
    let fixes = |event: CallbackEvent| event is Location;
    without_keeps_order(queue.events, fixes);
    without_is_exact(queue.events, fixes);
    let retired = queue.senders_retired();
    assert forall|i: int| 0 <= i < retired.events.len() implies !(
    #[trigger] retired.events[i]).is_stale(retired.accepted_generation) by {
        assert(retired.events.contains(retired.events[i]));
    }
    let stale = |event: CallbackEvent| event.is_stale(generation);
    without_keeps_order(queue.events, stale);
    without_is_exact(queue.events, stale);
    let advanced = queue.generation_advanced(epoch, generation);
    if queue.epoch == epoch {
        assert forall|i: int| 0 <= i < advanced.events.len() implies !(
        #[trigger] advanced.events[i]).is_stale(advanced.accepted_generation) by {
            assert(advanced.events.contains(advanced.events[i]));
        }
    }
    let continuous = |event: CallbackEvent| event.is_continuous();
    without_keeps_order(queue.events, continuous);
    without_is_exact(queue.events, continuous);
    let stopped = queue.continuous_discarded(epoch);
    if queue.epoch == epoch {
        assert forall|i: int| 0 <= i < stopped.events.len() implies !(
        #[trigger] stopped.events[i]).is_stale(stopped.accepted_generation) by {
            assert(stopped.events.contains(stopped.events[i]));
            assert(queue.events.contains(stopped.events[i]));
        }
    }
    let taken = queue.taken();
    if !queue.shutdown && queue.events.len() > 0 {
        assert forall|i: int| 0 <= i < taken.events.len() implies !(
        #[trigger] taken.events[i]).is_stale(taken.accepted_generation) by {
            assert(taken.events[i] == queue.events[i + 1]);
        }
        assert forall|i: int, j: int|
            0 <= i < taken.events.len() && j == i + 1 && j < taken.events.len() implies !(
        #[trigger] taken.events[i] is Location && #[trigger] taken.events[j] is Location) by {
            assert(!(queue.events[i + 1] is Location && queue.events[j + 1] is Location));
        }
        assert forall|i: int, j: int|
            0 <= i < j < taken.events.len() && #[trigger] taken.events[i] is Error implies taken.events[i]
            != #[trigger] taken.events[j] by {
            assert(queue.events[i + 1] != queue.events[j + 1]);
        }
    }
}

/// Once the generation has advanced, no fix of another generation reaches the handler: none waits,
/// and the one in flight is not invoked unless its handler runs already.
pub proof fn stale_fixes_are_not_delivered(queue: QueueState, generation: u64)
    ensures
        ({
            let after = queue.generation_advanced(queue.epoch, generation);
            &&& forall|i: int|
                0 <= i < after.events.len() ==> !(#[trigger] after.events[i]).is_stale(generation)
            &&& queue.pending_stale(generation) ==> !after.may_invoke()
            &&& forall|event: CallbackEvent, epoch: u64|
                event.is_stale(generation) ==> #[trigger] after.enqueued(epoch, event) == after
        }),
{
    let after = queue.generation_advanced(queue.epoch, generation);
    without_is_exact(queue.events, |event: CallbackEvent| event.is_stale(generation));
    assert forall|i: int| 0 <= i < after.events.len() implies !(
    #[trigger] after.events[i]).is_stale(generation) by {
        assert(after.events.contains(after.events[i]));
    }
}

/// Once its provider is retired, a sender delivers no fix any more, and none of its fixes waits or
/// is still to be invoked. Its errors still get through.
pub proof fn retired_senders_are_inert(queue: QueueState, event: CallbackEvent)
    ensures
        ({
            let after = queue.senders_retired();
            &&& forall|i: int| 0 <= i < after.events.len() ==> #[trigger] after.events[i] is Error
            &&& queue.pending_fix() ==> !after.may_invoke()
            &&& event is Location ==> after.enqueued(queue.epoch, event) == after
            &&& forall|i: int|
                0 <= i < queue.events.len() && #[trigger] queue.events[i] is Error
                    ==> after.events.contains(queue.events[i])
            &&& event is Error && !queue.shutdown && well_formed(queue) ==> after.enqueued(
                queue.epoch,
                event,
            ).events.contains(event)
        }),
{
    let after = queue.senders_retired();
    without_is_exact(queue.events, |event: CallbackEvent| event is Location);
    assert forall|i: int| 0 <= i < after.events.len() implies #[trigger] after.events[i] is Error by {
        assert(after.events.contains(after.events[i]));
    }
    assert forall|i: int|
        0 <= i < queue.events.len() && #[trigger] queue.events[i] is Error implies after.events.contains(
        queue.events[i],
    ) by {
        assert(queue.events.contains(queue.events[i]));
    }
    if event is Error && !queue.shutdown && well_formed(queue) {
        operations_keep_well_formed(queue, queue.epoch, 0);
        if after.admits(queue.epoch, event) {
            nothing_is_evicted(after, queue.epoch, event);
            let entered = after.enqueued(queue.epoch, event).events;
            assert(entered.last() == event);
        }
    }
}

/// Stopping the continuous stream keeps the results of one-shot requests, and every error.
pub proof fn stopping_keeps_one_shot_results(queue: QueueState, epoch: u64)
    ensures
        forall|i: int|
            0 <= i < queue.events.len() && !(#[trigger] queue.events[i]).is_continuous()
                ==> queue.continuous_discarded(epoch).events.contains(queue.events[i]),
        (queue.in_flight matches Some(callback) && callback.one_shot)
            ==> queue.continuous_discarded(epoch).in_flight == queue.in_flight,
{
    let after = queue.continuous_discarded(epoch);
    without_is_exact(queue.events, |event: CallbackEvent| event.is_continuous());
    assert forall|i: int|
        0 <= i < queue.events.len() && !(
        #[trigger] queue.events[i]).is_continuous() implies after.events.contains(
        queue.events[i],
    ) by {
        assert(queue.events.contains(queue.events[i]));
    }
}

/// Nothing that is enqueued later takes the result of a one-shot request away: it still waits, or
/// the fix it was coalesced into completes the request in its place.
pub proof fn one_shot_results_survive(
    queue: QueueState,
    epoch: u64,
    event: CallbackEvent,
    at: int,
)
    requires
        0 <= at < queue.events.len(),
        queue.events[at].is_one_shot(),
    ensures
        exists|i: int|
            0 <= i < queue.enqueued(epoch, event).events.len() && (#[trigger] queue.enqueued(
                epoch,
                event,
            ).events[i]).is_one_shot(),
{
    let after = queue.enqueued(epoch, event);
    if queue.admits(epoch, event) && !queue.coalesces(event) && queue.events.len()
        >= CALLBACK_QUEUE_CAPACITY {
        match callbacks::first_evictable(queue.events) {
            Some(gone) => {
                evictable_is_not_one_shot(queue.events);
                if at < gone {
                    assert(after.events[at] == queue.events[at]);
                } else {
                    assert(after.events[at - 1] == queue.events[at]);
                }
            },
            None => {
                assert(after.events[at] == queue.events[at]);
            },
        }
    } else {
        assert(after.events[at].is_one_shot());
    }
}

proof fn evictable_is_not_one_shot(events: Seq<CallbackEvent>)
    ensures
        callbacks::first_evictable(events) matches Some(at) ==> 0 <= at < events.len()
            && !events[at].is_one_shot(),
    decreases events.len(),
{
    if events.len() > 0 {
        evictable_is_not_one_shot(events.drop_last());
    }
}

/// Telling an error changes nothing about which fixes wait or are in flight, but for a fix that
/// has to make room.
pub proof fn errors_bring_no_fixes(queue: QueueState, epoch: u64, error: Error, generation: u64)
    requires
        forall|i: int|
            0 <= i < queue.events.len() ==> !(#[trigger] queue.events[i]).is_stale(generation),
    ensures
        ({
            let after = queue.enqueued(epoch, CallbackEvent::Error(error));
            &&& after.in_flight == queue.in_flight
            &&& after.may_invoke() == queue.may_invoke()
            &&& forall|i: int|
                0 <= i < after.events.len() ==> !(#[trigger] after.events[i]).is_stale(generation)
        }),
{
    let event = CallbackEvent::Error(error);
    let after = queue.enqueued(epoch, event);
    evictable_is_not_one_shot(queue.events);
    assert forall|i: int| 0 <= i < after.events.len() implies !(
    #[trigger] after.events[i]).is_stale(generation) by {
        if after.events[i] != event {
            if queue.events.len() < CALLBACK_QUEUE_CAPACITY || !queue.admits(epoch, event) {
                assert(after.events[i] == queue.events[i]);
            } else {
                match callbacks::first_evictable(queue.events) {
                    Some(gone) => {
                        assert(after.events[i] == queue.events.remove(gone)[i]);
                        assert(after.events[i] == queue.events[i] || after.events[i]
                            == queue.events[i + 1]);
                    },
                    None => {
                        assert(after.events[i] == queue.events[i]);
                    },
                }
            }
        }
    }
}

/// After shutdown nothing enters the queue, nothing waits in it, and no handler is run.
pub proof fn shutdown_is_final(queue: QueueState, epoch: u64, event: CallbackEvent)
    ensures
        ({
            let after = queue.shut_down();
            &&& after.events.len() == 0
            &&& after.enqueued(epoch, event) == after
            &&& after.taken() == after
            &&& !after.may_invoke()
            &&& (queue.in_flight matches Some(callback) && callback.phase
                == CallbackPhase::Invoking) ==> after.in_flight == queue.in_flight
        }),
{
}

} // verus!

//! The queue between a location provider and the application's handler.
//!
//! Providers enqueue fixes and errors; one dispatcher takes them off and runs the handler. A
//! sender belongs to an epoch and a fix to a generation: what comes from a retired provider, or
//! was acquired under an earlier accuracy request, never reaches the handler.

use super::{Error, LocationData};
use std::collections::VecDeque;
use vstd::prelude::*;

verus! {

/// How many events may wait at once.
pub const CALLBACK_QUEUE_CAPACITY: usize = 64;

#[derive(Clone, Copy, Debug, PartialEq, Eq, Structural)]
pub enum CallbackEvent {
    Location {
        location: LocationData,
        /// Also completes an outstanding one-shot request, so stopping the stream must not drop it.
        one_shot: bool,
        generation: u64,
    },
    Error(Error),
}

/// How far the event taken off the queue has got.
#[derive(Clone, Copy, Debug, PartialEq, Eq, Structural)]
pub enum CallbackPhase {
    Pending,
    Invoking,
}

/// The event that was taken off the queue and is not done yet.
#[derive(Clone, Copy, Debug, PartialEq, Eq, Structural)]
pub struct InFlightCallback {
    pub location: bool,
    pub one_shot: bool,
    pub generation: u64,
    pub phase: CallbackPhase,
    pub cancelled: bool,
}

pub struct CallbackQueue {
    pub events: VecDeque<CallbackEvent>,
    pub in_flight: Option<InFlightCallback>,
    pub accepted_generation: u64,
    /// Bumped whenever a provider is retired, which makes every sender it had inert.
    pub epoch: u64,
    pub shutdown: bool,
}

/// What a queue holds.
pub struct QueueState {
    pub events: Seq<CallbackEvent>,
    pub in_flight: Option<InFlightCallback>,
    pub accepted_generation: u64,
    pub epoch: u64,
    pub shutdown: bool,
}

impl View for CallbackQueue {
    type V = QueueState;

    open spec fn view(&self) -> QueueState {
        QueueState {
            events: self.events@,
            in_flight: self.in_flight,
            accepted_generation: self.accepted_generation,
            epoch: self.epoch,
            shutdown: self.shutdown,
        }
    }
}

/// The in-flight event cannot be stopped once its handler runs; until then it can be cancelled.
pub open spec fn cancel_pending(
    in_flight: Option<InFlightCallback>,
    concerned: bool,
) -> Option<InFlightCallback> {
    match in_flight {
        Some(callback) => if concerned && callback.phase == CallbackPhase::Pending {
            Some(InFlightCallback { cancelled: true, ..callback })
        } else {
            Some(callback)
        },
        None => None,
    }
}

impl CallbackEvent {
    pub open spec fn is_one_shot(self) -> bool {
        self matches CallbackEvent::Location { one_shot, .. } && one_shot
    }

    /// A fix of another generation.
    pub open spec fn is_stale(self, generation: u64) -> bool {
        self matches CallbackEvent::Location { generation: own, .. } && own != generation
    }

    /// A fix that serves the continuous stream alone.
    pub open spec fn is_continuous(self) -> bool {
        self matches CallbackEvent::Location { one_shot, .. } && !one_shot
    }
}

/// The events that stay when those picked out by `gone` are removed, in their order.
pub open spec fn without(events: Seq<CallbackEvent>, gone: spec_fn(CallbackEvent) -> bool) -> Seq<
    CallbackEvent,
> {
    events.filter(|event: CallbackEvent| !gone(event))
}

impl QueueState {
    pub open spec fn shut_down(self) -> QueueState {
        QueueState {
            shutdown: true,
            events: Seq::empty(),
            in_flight: cancel_pending(self.in_flight, true),
            ..self
        }
    }

    /// Whether the event in flight is a fix that can still be held back.
    pub open spec fn pending_fix(self) -> bool {
        self.in_flight matches Some(callback) && callback.location && callback.phase
            == CallbackPhase::Pending
    }

    pub open spec fn senders_retired(self) -> QueueState {
        QueueState {
            epoch: if self.epoch == u64::MAX {
                0
            } else {
                (self.epoch + 1) as u64
            },
            accepted_generation: 0,
            events: without(self.events, |event: CallbackEvent| event is Location),
            in_flight: cancel_pending(self.in_flight, self.pending_fix()),
            ..self
        }
    }

    /// Whether the fix in flight is of another generation and can still be held back.
    pub open spec fn pending_stale(self, generation: u64) -> bool {
        self.pending_fix() && self.in_flight->0.generation != generation
    }

    pub open spec fn generation_advanced(self, epoch: u64, generation: u64) -> QueueState {
        if self.epoch != epoch {
            self
        } else {
            QueueState {
                accepted_generation: generation,
                events: without(self.events, |event: CallbackEvent| event.is_stale(generation)),
                in_flight: cancel_pending(self.in_flight, self.pending_stale(generation)),
                ..self
            }
        }
    }

    /// Whether advancing the generation drops the result of a one-shot request.
    pub open spec fn discards_one_shot(self, epoch: u64, generation: u64) -> bool {
        &&& self.epoch == epoch
        &&& {
            ||| exists|i: int|
                0 <= i < self.events.len() && (#[trigger] self.events[i]).is_stale(generation)
                    && self.events[i].is_one_shot()
            ||| self.pending_stale(generation) && self.in_flight->0.one_shot
        }
    }

    pub open spec fn continuous_discarded(self, epoch: u64) -> QueueState {
        if self.epoch != epoch {
            self
        } else {
            QueueState {
                events: without(self.events, |event: CallbackEvent| event.is_continuous()),
                in_flight: cancel_pending(
                    self.in_flight,
                    self.pending_fix() && !self.in_flight->0.one_shot,
                ),
                ..self
            }
        }
    }

    /// Whether an event from a sender of `epoch` may enter the queue at all: not once the queue is
    /// shut down, no fix of a retired sender or another generation, and no error that is waiting
    /// already.
    pub open spec fn admits(self, epoch: u64, event: CallbackEvent) -> bool {
        &&& !self.shutdown
        &&& match event {
            CallbackEvent::Location { generation, .. } => self.epoch == epoch && generation
                == self.accepted_generation,
            CallbackEvent::Error(error) => !self.events.contains(CallbackEvent::Error(error)),
        }
    }

    /// Whether the fix joins the one that waits at the back instead of waiting on its own.
    pub open spec fn coalesces(self, event: CallbackEvent) -> bool {
        &&& self.events.len() > 0
        &&& event matches CallbackEvent::Location { generation, .. }
        &&& self.events.last() matches CallbackEvent::Location { generation: queued, .. }
        &&& generation == queued
    }

    /// The event at the front leaves the queue and is in flight, unless deliveries have ended.
    pub open spec fn taken(self) -> QueueState {
        if self.shutdown || self.events.len() == 0 {
            self
        } else {
            QueueState {
                events: self.events.drop_first(),
                in_flight: Some(in_flight_for(self.events.first())),
                ..self
            }
        }
    }

    /// Whether the handler is to be run for the event in flight.
    pub open spec fn may_invoke(self) -> bool {
        &&& !self.shutdown
        &&& self.in_flight matches Some(callback)
        &&& !callback.cancelled
    }

    /// The event in flight reaches its handler, or is dropped.
    pub open spec fn invocation_begun(self) -> QueueState {
        QueueState {
            in_flight: if self.may_invoke() {
                Some(
                    InFlightCallback { phase: CallbackPhase::Invoking, ..self.in_flight->0 },
                )
            } else {
                None
            },
            ..self
        }
    }

    /// An event once the application may have it: fixes that follow one another are one event.
    pub open spec fn enqueued(self, epoch: u64, event: CallbackEvent) -> QueueState {
        if !self.admits(epoch, event) {
            self
        } else if self.coalesces(event) {
            QueueState {
                events: self.events.update(
                    self.events.len() - 1,
                    coalesced(self.events.last(), event),
                ),
                ..self
            }
        } else if self.events.len() < CALLBACK_QUEUE_CAPACITY {
            QueueState { events: self.events.push(event), ..self }
        } else {
            match first_evictable(self.events) {
                Some(at) => QueueState { events: self.events.remove(at).push(event), ..self },
                None => self,
            }
        }
    }
}

/// How an event starts out once it is off the queue.
pub open spec fn in_flight_for(event: CallbackEvent) -> InFlightCallback {
    match event {
        CallbackEvent::Location { one_shot, generation, .. } => InFlightCallback {
            location: true,
            one_shot,
            generation,
            phase: CallbackPhase::Pending,
            cancelled: false,
        },
        CallbackEvent::Error(_) => InFlightCallback {
            location: false,
            one_shot: false,
            generation: 0,
            phase: CallbackPhase::Pending,
            cancelled: false,
        },
    }
}

/// What the dispatcher is to do next.
#[derive(Clone, Copy, Debug, PartialEq, Eq, Structural)]
pub enum DispatchStep {
    /// Nothing waits: sleep until woken.
    Wait,
    /// Deliveries have ended.
    Stop,
    /// Ask [`CallbackQueue::begin_invocation`] about this event.
    Consider(CallbackEvent),
}

/// The older of two dated fixes does not replace a one-shot result that is newer.
pub open spec fn keeps_queued_fix(queued: CallbackEvent, incoming: CallbackEvent) -> bool {
    &&& queued matches CallbackEvent::Location { location: old_fix, one_shot: true, .. }
    &&& incoming matches CallbackEvent::Location { location: new_fix, one_shot: false, .. }
    &&& old_fix.time matches Some(old_time)
    &&& new_fix.time matches Some(new_time)
    &&& new_time.instant() <= old_time.instant()
}

/// Two adjacent fixes of one generation, as one event: the newer fix, which still completes the
/// one-shot request that either of them completed.
pub open spec fn coalesced(queued: CallbackEvent, incoming: CallbackEvent) -> CallbackEvent {
    match (queued, incoming) {
        (
            CallbackEvent::Location { location: old_fix, one_shot: old_one_shot, generation },
            CallbackEvent::Location { location: new_fix, one_shot: new_one_shot, .. },
        ) => CallbackEvent::Location {
            location: if keeps_queued_fix(queued, incoming) {
                old_fix
            } else {
                new_fix
            },
            one_shot: old_one_shot || new_one_shot,
            generation,
        },
        _ => queued,
    }
}

/// The first event that is not the result of a one-shot request.
pub open spec fn first_evictable(events: Seq<CallbackEvent>) -> Option<int>
    decreases events.len(),
{
    if events.len() == 0 {
        None
    } else {
        match first_evictable(events.drop_last()) {
            Some(at) => Some(at),
            None => if events.last().is_one_shot() {
                None
            } else {
                Some(events.len() - 1)
            },
        }
    }
}

proof fn first_evictable_is_first(events: Seq<CallbackEvent>, at: int)
    requires
        0 <= at < events.len(),
        !events[at].is_one_shot(),
        forall|i: int| 0 <= i < at ==> (#[trigger] events[i]).is_one_shot(),
    ensures
        first_evictable(events) == Some(at),
    decreases events.len(),
{
    if at < events.len() - 1 {
        first_evictable_is_first(events.drop_last(), at);
    } else {
        nothing_evictable(events.drop_last());
    }
}

proof fn nothing_evictable(events: Seq<CallbackEvent>)
    requires
        forall|i: int| 0 <= i < events.len() ==> (#[trigger] events[i]).is_one_shot(),
    ensures
        first_evictable(events) is None,
    decreases events.len(),
{
    if events.len() > 0 {
        nothing_evictable(events.drop_last());
    }
}

/// Takes the events picked out by `gone` off the queue, in one pass.
proof fn filter_step(
    events: Seq<CallbackEvent>,
    gone: spec_fn(CallbackEvent) -> bool,
    upto: int,
)
    requires
        0 <= upto < events.len(),
    ensures
        without(events.take(upto + 1), gone) == if gone(events[upto]) {
            without(events.take(upto), gone)
        } else {
            without(events.take(upto), gone).push(events[upto])
        },
{
    reveal(Seq::filter);
    assert(events.take(upto + 1).drop_last() == events.take(upto));
}

/// What a sender knows of the queue: the epoch it was made in.
#[derive(Clone, Copy, Debug, PartialEq, Eq, Structural)]
pub struct CallbackSender {
    pub epoch: u64,
}

fn event_is_stale(event: &CallbackEvent, generation: u64) -> (r: bool)
    ensures
        r == event.is_stale(generation),
{
    match event {
        CallbackEvent::Location { generation: own, .. } => *own != generation,
        CallbackEvent::Error(_) => false,
    }
}

fn event_is_one_shot(event: &CallbackEvent) -> (r: bool)
    ensures
        r == event.is_one_shot(),
{
    match event {
        CallbackEvent::Location { one_shot, .. } => *one_shot,
        CallbackEvent::Error(_) => false,
    }
}

fn event_is_continuous(event: &CallbackEvent) -> (r: bool)
    ensures
        r == event.is_continuous(),
{
    match event {
        CallbackEvent::Location { one_shot, .. } => !*one_shot,
        CallbackEvent::Error(_) => false,
    }
}

impl CallbackQueue {
    pub fn new() -> (r: CallbackQueue)
        ensures
            r@ == (QueueState {
                events: Seq::empty(),
                in_flight: None,
                accepted_generation: 0,
                epoch: 0,
                shutdown: false,
            }),
    {
        CallbackQueue {
            events: VecDeque::new(),
            in_flight: None,
            accepted_generation: 0,
            epoch: 0,
            shutdown: false,
        }
    }

    /// A sender for the provider that is current.
    pub fn sender(&self) -> (r: CallbackSender)
        ensures
            r.epoch == self@.epoch,
    {
        CallbackSender { epoch: self.epoch }
    }

    fn cancel_in_flight(&mut self, concerned: bool)
        ensures
            final(self)@ == (QueueState {
                in_flight: cancel_pending(old(self)@.in_flight, concerned),
                ..old(self)@
            }),
    {
        if let Some(callback) = self.in_flight {
            if concerned && callback.phase == CallbackPhase::Pending {
                self.in_flight = Some(InFlightCallback { cancelled: true, ..callback });
            }
        }
    }

    /// Whether the event in flight is a fix that can still be held back.
    fn has_pending_fix(&self) -> (r: bool)
        ensures
            r == self@.pending_fix(),
    {
        match self.in_flight {
            Some(callback) => callback.location && callback.phase == CallbackPhase::Pending,
            None => false,
        }
    }

    /// Ends deliveries: what waits is dropped, and so is the event in flight unless its handler
    /// runs already.
    pub fn shut_down(&mut self)
        ensures
            final(self)@ == old(self)@.shut_down(),
    {
        self.shutdown = true;
        self.events.clear();
        self.cancel_in_flight(true);
    }

    /// Makes every sender handed out so far inert.
    ///
    /// Queued fixes go too, since they were acquired under another authorization; errors stay,
    /// since the application needs those.
    pub fn retire_senders(&mut self)
        ensures
            final(self)@ == old(self)@.senders_retired(),
    {
        self.epoch = self.epoch.wrapping_add(1);
        self.accepted_generation = 0;
        let pending = self.has_pending_fix();
        let ghost gone = |event: CallbackEvent| event is Location;
        let mut kept: VecDeque<CallbackEvent> = VecDeque::new();
        for i in 0..self.events.len()
            invariant
                gone == (|event: CallbackEvent| event is Location),
                kept@ == without(self.events@.take(i as int), gone),
        {
            let event = self.events[i];
            proof {
                filter_step(self.events@, gone, i as int);
            }
            match event {
                CallbackEvent::Location { .. } => {},
                CallbackEvent::Error(_) => {
                    kept.push_back(event);
                },
            }
        }
        assert(self.events@.take(self.events@.len() as int) == self.events@);
        self.events = kept;
        self.cancel_in_flight(pending);
    }

    /// Drops fixes from an earlier accuracy request. Returns true if one of them was the result of
    /// a one-shot request, so that the provider knows to keep waiting for a fresh one.
    pub fn advance_generation(&mut self, sender: CallbackSender, generation: u64) -> (r: bool)
        ensures
            final(self)@ == old(self)@.generation_advanced(sender.epoch, generation),
            r == old(self)@.discards_one_shot(sender.epoch, generation),
    {
        if self.epoch != sender.epoch {
            return false;
        }
        self.accepted_generation = generation;
        let ghost gone = |event: CallbackEvent| event.is_stale(generation);
        let mut discarded_one_shot = false;
        let mut kept: VecDeque<CallbackEvent> = VecDeque::new();
        for i in 0..self.events.len()
            invariant
                self.events@ == old(self)@.events,
                gone == (|event: CallbackEvent| event.is_stale(generation)),
                kept@ == without(self.events@.take(i as int), gone),
                discarded_one_shot == exists|j: int|
                    0 <= j < i && (#[trigger] self.events@[j]).is_stale(generation)
                        && self.events@[j].is_one_shot(),
        {
            let event = self.events[i];
            proof {
                filter_step(self.events@, gone, i as int);
                assert(event == self.events@[i as int]);
            }
            if event_is_stale(&event, generation) {
                discarded_one_shot = discarded_one_shot || event_is_one_shot(&event);
            } else {
                kept.push_back(event);
            }
        }
        assert(self.events@.take(self.events@.len() as int) == self.events@);
        self.events = kept;
        if let Some(callback) = self.in_flight {
            if callback.location && callback.phase == CallbackPhase::Pending && callback.generation
                != generation {
                discarded_one_shot = discarded_one_shot || callback.one_shot;
                self.cancel_in_flight(true);
            }
        }
        discarded_one_shot
    }

    /// Drops fixes that were queued solely for a continuous stream. A fix that also completed a
    /// one-shot request remains deliverable; stopping one mode must not cancel the other.
    pub fn discard_continuous_locations(&mut self, sender: CallbackSender)
        ensures
            final(self)@ == old(self)@.continuous_discarded(sender.epoch),
    {
        if self.epoch != sender.epoch {
            return ;
        }
        let ghost gone = |event: CallbackEvent| event.is_continuous();
        let mut kept: VecDeque<CallbackEvent> = VecDeque::new();
        for i in 0..self.events.len()
            invariant
                gone == (|event: CallbackEvent| event.is_continuous()),
                kept@ == without(self.events@.take(i as int), gone),
        {
            let event = self.events[i];
            proof {
                filter_step(self.events@, gone, i as int);
            }
            if !event_is_continuous(&event) {
                kept.push_back(event);
            }
        }
        assert(self.events@.take(self.events@.len() as int) == self.events@);
        self.events = kept;
        if let Some(callback) = self.in_flight {
            if callback.location && callback.phase == CallbackPhase::Pending && !callback.one_shot {
                self.cancel_in_flight(true);
            }
        }
    }

    /// Whether this very error waits already.
    fn has_error(&self, error: Error) -> (r: bool)
        ensures
            r == self@.events.contains(CallbackEvent::Error(error)),
    {
        for i in 0..self.events.len()
            invariant
                forall|j: int| 0 <= j < i ==> #[trigger] self.events@[j] != CallbackEvent::Error(error),
        {
            if let CallbackEvent::Error(queued) = self.events[i] {
                if queued == error {
                    assert(self.events@[i as int] == CallbackEvent::Error(error));
                    return true;
                }
            }
        }
        false
    }

    fn find_evictable(&self) -> (r: Option<usize>)
        ensures
            r is Some <==> first_evictable(self@.events) is Some,
            r matches Some(at) ==> at < self@.events.len() && first_evictable(self@.events) == Some(
                at as int,
            ),
    {
        for i in 0..self.events.len()
            invariant
                forall|j: int| 0 <= j < i ==> (#[trigger] self.events@[j]).is_one_shot(),
        {
            if !event_is_one_shot(&self.events[i]) {
                proof {
                    first_evictable_is_first(self.events@, i as int);
                }
                return Some(i);
            }
        }
        proof {
            nothing_evictable(self.events@);
        }
        None
    }

    /// Hands an event over to the dispatcher. Returns whether the dispatcher has to be woken.
    pub fn enqueue(&mut self, sender: CallbackSender, event: CallbackEvent) -> (woken: bool)
        ensures
            final(self)@ == old(self)@.enqueued(sender.epoch, event),
            woken == (final(self)@.events != old(self)@.events && !old(self)@.coalesces(event)),
    {
        if self.shutdown {
            return false;
        }
        match event {
            CallbackEvent::Location { generation, .. } => {
                if self.epoch != sender.epoch || generation != self.accepted_generation {
                    return false;
                }
            },
            CallbackEvent::Error(error) => {
                if self.has_error(error) {
                    return false;
                }
            },
        }
        let ghost before = self@;
        assert(before.admits(sender.epoch, event));
        if let CallbackEvent::Location { location, one_shot, generation } = event {
            if let Some(last) = self.events.pop_back() {
                if let CallbackEvent::Location {
                    location: queued,
                    one_shot: queued_one_shot,
                    generation: queued_generation,
                } = last {
                    if queued_generation == generation {
                        let mut keep_protected_newer = false;
                        if queued_one_shot && !one_shot {
                            if let Some(old_time) = queued.time {
                                if let Some(new_time) = location.time {
                                    keep_protected_newer = new_time.at_or_before(&old_time);
                                }
                            }
                        }
                        self.events.push_back(
                            CallbackEvent::Location {
                                location: if keep_protected_newer {
                                    queued
                                } else {
                                    location
                                },
                                one_shot: queued_one_shot || one_shot,
                                generation,
                            },
                        );
                        assert(self.events@ == before.events.update(
                            before.events.len() - 1,
                            coalesced(before.events.last(), event),
                        ));
                        return false;
                    }
                }
                self.events.push_back(last);
                assert(self.events@ == before.events);
            }
        }
        assert(self@ == before);
        assert(!before.coalesces(event));
        if self.events.len() >= CALLBACK_QUEUE_CAPACITY {
            match self.find_evictable() {
                Some(at) => {
                    self.events.remove(at);
                },
                None => {
                    return false;
                },
            }
        }
        self.events.push_back(event);
        true
    }

    /// Hands a fix over to the dispatcher. Returns whether the dispatcher has to be woken.
    pub fn location(
        &mut self,
        sender: CallbackSender,
        location: LocationData,
        one_shot: bool,
        generation: u64,
    ) -> (woken: bool)
        ensures
            final(self)@ == old(self)@.enqueued(
                sender.epoch,
                CallbackEvent::Location { location, one_shot, generation },
            ),
            woken == (final(self)@.events != old(self)@.events && !old(self)@.coalesces(
                CallbackEvent::Location { location, one_shot, generation },
            )),
    {
        self.enqueue(sender, CallbackEvent::Location { location, one_shot, generation })
    }

    /// Hands an error over to the dispatcher. Returns whether the dispatcher has to be woken.
    pub fn error(&mut self, sender: CallbackSender, error: Error) -> (woken: bool)
        ensures
            final(self)@ == old(self)@.enqueued(sender.epoch, CallbackEvent::Error(error)),
            woken == (final(self)@.events != old(self)@.events && !old(self)@.coalesces(
                CallbackEvent::Error(error),
            )),
    {
        self.enqueue(sender, CallbackEvent::Error(error))
    }

    /// Takes the next event off the queue.
    pub fn take_next(&mut self) -> (step: DispatchStep)
        ensures
            final(self)@ == old(self)@.taken(),
            step == if old(self)@.shutdown {
                DispatchStep::Stop
            } else if old(self)@.events.len() == 0 {
                DispatchStep::Wait
            } else {
                DispatchStep::Consider(old(self)@.events.first())
            },
    {
        if self.shutdown {
            return DispatchStep::Stop;
        }
        match self.events.pop_front() {
            Some(event) => {
                self.in_flight = Some(
                    match event {
                        CallbackEvent::Location { one_shot, generation, .. } => InFlightCallback {
                            location: true,
                            one_shot,
                            generation,
                            phase: CallbackPhase::Pending,
                            cancelled: false,
                        },
                        CallbackEvent::Error(_) => InFlightCallback {
                            location: false,
                            one_shot: false,
                            generation: 0,
                            phase: CallbackPhase::Pending,
                            cancelled: false,
                        },
                    },
                );
                DispatchStep::Consider(event)
            },
            None => DispatchStep::Wait,
        }
    }

    /// Whether the handler is to be run for the event in flight. From then on it can no longer be
    /// cancelled.
    pub fn begin_invocation(&mut self) -> (invoke: bool)
        ensures
            final(self)@ == old(self)@.invocation_begun(),
            invoke == old(self)@.may_invoke(),
    {
        if let Some(callback) = self.in_flight {
            if !self.shutdown && !callback.cancelled {
                self.in_flight = Some(
                    InFlightCallback { phase: CallbackPhase::Invoking, ..callback },
                );
                return true;
            }
        }
        self.in_flight = None;
        false
    }

    /// The handler returned.
    pub fn finish_invocation(&mut self)
        ensures
            final(self)@ == (QueueState { in_flight: None, ..old(self)@ }),
    {
        self.in_flight = None;
    }
}

} // verus!

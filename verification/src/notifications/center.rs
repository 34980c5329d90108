//! What is remembered between notifications: what is scheduled, what shows progress, what was said
//! in each conversation, and who wants to know what users do.

use super::options::{
    copy_messages, ConversationMessage, MessageModel, Notification, NotificationOptions,
    OptionsModel,
};
use super::{has_zero_total, Error, Interaction, Progress, Result};
use crate::table::Table;
use crate::text;
use crate::time::Timestamp;
use vstd::prelude::*;

verus! {

/// How many recent messages a conversation notification shows.
pub const CONVERSATION_HISTORY_LIMIT: usize = 8;

/// A scheduled time less than this many nanoseconds ahead is now.
pub const IMMEDIATE_NANOS: u128 = 50_000_000;

/// Who gets to know what users do.
#[derive(Debug)]
pub enum HandlerState {
    /// Interactions that arrived before any handler was set.
    Pending(Vec<Interaction>),
    /// A handler is set.
    Registered,
}

/// What is remembered between notifications.
#[derive(Debug)]
pub struct Center {
    /// The scheduled showings that a timer of this process will bring: for each id, which one.
    scheduled: Table<String, u64>,
    /// The notifications with progress, as they were last shown.
    progress: Table<String, NotificationOptions>,
    /// The recent messages of each conversation.
    histories: Table<String, Vec<ConversationMessage>>,
    handler: HandlerState,
    app_id: Option<String>,
    next_id: u64,
    generation: u64,
    provides_settings: bool,
    critical_alerts: bool,
}

/// What is remembered between notifications, spelled out.
#[verifier::ext_equal]
pub struct CenterModel {
    pub scheduled: Map<Seq<char>, u64>,
    pub progress: Map<Seq<char>, OptionsModel>,
    pub histories: Map<Seq<char>, Seq<MessageModel>>,
    /// What waits for a handler; nothing once there is one.
    pub queue: Option<Seq<Interaction>>,
    pub app_id: Option<Seq<char>>,
    pub next_id: u64,
    pub generation: u64,
    pub provides_settings: bool,
    pub critical_alerts: bool,
}

/// The options in a map, spelled out.
pub open spec fn options_in(map: Map<Seq<char>, NotificationOptions>) -> Map<
    Seq<char>,
    OptionsModel,
> {
    Map::new(|id: Seq<char>| map.dom().contains(id), |id: Seq<char>| map[id]@)
}

/// The messages in a map, spelled out.
pub open spec fn messages_in(map: Map<Seq<char>, Vec<ConversationMessage>>) -> Map<
    Seq<char>,
    Seq<MessageModel>,
> {
    Map::new(
        |id: Seq<char>| map.dom().contains(id),
        |id: Seq<char>| super::options::messages(map[id]@),
    )
}

impl View for Center {
    type V = CenterModel;

    closed spec fn view(&self) -> CenterModel {
        CenterModel {
            scheduled: self.scheduled@,
            progress: options_in(self.progress@),
            histories: messages_in(self.histories@),
            queue: match self.handler {
                HandlerState::Pending(pending) => Some(pending@),
                HandlerState::Registered => None,
            },
            app_id: text::opt_text(self.app_id),
            next_id: self.next_id,
            generation: self.generation,
            provides_settings: self.provides_settings,
            critical_alerts: self.critical_alerts,
        }
    }
}

/// A message that a notification adds to a conversation once it is shown.
#[derive(Debug)]
pub struct PendingMessage {
    pub conversation_id: String,
    pub message: ConversationMessage,
}

pub struct PendingModel {
    pub conversation_id: Seq<char>,
    pub message: MessageModel,
}

pub open spec fn opt_pending(pending: Option<PendingMessage>) -> Option<PendingModel> {
    match pending {
        Some(pending) => Some(
            PendingModel {
                conversation_id: pending.conversation_id@,
                message: pending.message@,
            },
        ),
        None => None,
    }
}

/// A notification on its way to the screen.
#[derive(Debug)]
pub struct Showing {
    /// What the system is to show.
    pub options: NotificationOptions,
    pub pending: Option<PendingMessage>,
}

pub struct ShowingModel {
    pub options: OptionsModel,
    pub pending: Option<PendingModel>,
}

impl View for Showing {
    type V = ShowingModel;

    open spec fn view(&self) -> ShowingModel {
        ShowingModel { options: self.options@, pending: opt_pending(self.pending) }
    }
}

/// What is to be done to show a notification.
#[derive(Debug)]
pub enum ShowStep {
    /// Have the system show it, then say how that went.
    Now(Showing),
    /// Have the system show it at its scheduled time.
    BySystem(NotificationOptions),
    /// Set a timer, and ask again when it fires.
    ByTimer { options: NotificationOptions, generation: u64, delay_nanos: u128 },
}

pub enum ShowModel {
    Now(ShowingModel),
    BySystem(OptionsModel),
    ByTimer { options: OptionsModel, generation: u64, delay_nanos: int },
}

impl View for ShowStep {
    type V = ShowModel;

    open spec fn view(&self) -> ShowModel {
        match *self {
            ShowStep::Now(showing) => ShowModel::Now(showing@),
            ShowStep::BySystem(options) => ShowModel::BySystem(options@),
            ShowStep::ByTimer { options, generation, delay_nanos } => ShowModel::ByTimer {
                options: options@,
                generation,
                delay_nanos: delay_nanos as int,
            },
        }
    }
}

pub open spec fn step_model(step: Result<ShowStep>) -> std::result::Result<ShowModel, Error> {
    match step {
        Ok(step) => Ok(step@),
        Err(error) => Err(error),
    }
}

/// The id a notification without one gets.
pub open spec fn generated_id_text(pid: u32, number: u64) -> Seq<char> {
    "robius-notification-"@ + text::decimal_text(pid as nat) + "-"@ + text::decimal_text(
        number as nat,
    )
}

/// The last few elements.
pub open spec fn recent<T>(list: Seq<T>) -> Seq<T> {
    if list.len() > CONVERSATION_HISTORY_LIMIT {
        list.subrange(list.len() - CONVERSATION_HISTORY_LIMIT, list.len() as int)
    } else {
        list
    }
}

/// Who a message is from: the title, or the conversation's name where the title says nothing.
pub open spec fn sender_of(title: Option<Seq<char>>, conversation_name: Seq<char>) -> Seq<char> {
    if super::options::missing(title) {
        conversation_name
    } else {
        text::trimmed(title->0)
    }
}

/// Milliseconds since the Unix epoch, as far as they fit in 64 bits.
pub open spec fn clock_millis(now: Timestamp) -> u64 {
    (now.epoch_millis() % 0x1_0000_0000_0000_0000) as u64
}

/// What a notification adds to its conversation: nothing without a conversation or a body.
pub open spec fn message_of(options: OptionsModel, now: Timestamp) -> Option<PendingModel> {
    match options.conversation {
        Some(conversation) => if super::options::missing(options.body) {
            None
        } else {
            Some(
                PendingModel {
                    conversation_id: conversation.id,
                    message: MessageModel {
                        sender: sender_of(options.title, conversation.name),
                        text: text::trimmed(options.body->0),
                        timestamp_ms: clock_millis(now),
                    },
                },
            )
        },
        None => None,
    }
}

impl CenterModel {
    /// Nothing remembered yet.
    pub open spec fn empty() -> CenterModel {
        CenterModel {
            scheduled: Map::empty(),
            progress: Map::empty(),
            histories: Map::empty(),
            queue: Some(Seq::empty()),
            app_id: None,
            next_id: 0,
            generation: 0,
            provides_settings: false,
            critical_alerts: false,
        }
    }

    /// The recent messages of a conversation.
    pub open spec fn history(self, conversation_id: Seq<char>) -> Seq<MessageModel> {
        if self.histories.dom().contains(conversation_id) {
            self.histories[conversation_id]
        } else {
            Seq::empty()
        }
    }

    /// The notification as it is shown now: with its conversation's recent messages, its own last.
    pub open spec fn prepared(self, options: OptionsModel, now: Timestamp) -> ShowingModel {
        let pending = message_of(options, now);
        ShowingModel {
            options: match pending {
                Some(pending) => OptionsModel {
                    conversation_messages: recent(
                        self.history(pending.conversation_id).push(pending.message),
                    ),
                    ..options
                },
                None => options,
            },
            pending,
        }
    }

    /// Once a notification is on screen, its progress can be updated and its message is history.
    pub open spec fn after_shown(self, showing: ShowingModel) -> CenterModel {
        CenterModel {
            progress: if showing.options.progress is Some {
                self.progress.insert(showing.options.id, showing.options)
            } else {
                self.progress.remove(showing.options.id)
            },
            ..self.after_message(showing.pending)
        }
    }

    pub open spec fn after_message(self, pending: Option<PendingModel>) -> CenterModel {
        match pending {
            Some(pending) => CenterModel {
                histories: self.histories.insert(
                    pending.conversation_id,
                    recent(self.history(pending.conversation_id).push(pending.message)),
                ),
                ..self
            },
            None => self,
        }
    }

    /// The notification with an id: its own, or a generated one.
    pub open spec fn identified(self, options: OptionsModel, pid: u32) -> (
        CenterModel,
        OptionsModel,
    ) {
        if options.id.len() == 0 {
            (
                CenterModel {
                    next_id: ((self.next_id + 1) % 0x1_0000_0000_0000_0000) as u64,
                    ..self
                },
                OptionsModel { id: generated_id_text(pid, self.next_id), ..options },
            )
        } else {
            (self, options)
        }
    }

    /// A showing that a timer of this process will bring.
    pub open spec fn timed(self, options: OptionsModel, delay_nanos: int) -> (
        CenterModel,
        ShowModel,
    ) {
        (
            CenterModel {
                scheduled: self.scheduled.insert(options.id, self.generation),
                generation: ((self.generation + 1) % 0x1_0000_0000_0000_0000) as u64,
                ..self
            },
            ShowModel::ByTimer {
                options: OptionsModel { scheduled_time: None, ..options },
                generation: self.generation,
                delay_nanos,
            },
        )
    }

    /// A showing without delay, which takes the place of any scheduled one.
    pub open spec fn immediate(self, options: OptionsModel, now: Timestamp) -> (
        CenterModel,
        ShowModel,
    ) {
        (
            CenterModel { scheduled: self.scheduled.remove(options.id), ..self },
            ShowModel::Now(
                self.prepared(OptionsModel { scheduled_time: None, ..options }, now),
            ),
        )
    }

    /// What showing a notification comes to.
    pub open spec fn show(
        self,
        options: OptionsModel,
        native_scheduling: bool,
        pid: u32,
        now: Timestamp,
    ) -> (CenterModel, std::result::Result<ShowModel, Error>) {
        match options.validity() {
            Err(error) => (self, Err(error)),
            Ok(_) => {
                let (center, options) = self.identified(options, pid);
                let delay = match options.scheduled_time {
                    Some(time) => time.nanos_after(now),
                    None => 0,
                };
                if delay < IMMEDIATE_NANOS {
                    let (center, step) = center.immediate(options, now);
                    (center, Ok(step))
                } else if native_scheduling {
                    (
                        CenterModel { progress: center.progress.remove(options.id), ..center },
                        Ok(ShowModel::BySystem(options)),
                    )
                } else {
                    let (center, step) = center.timed(options, delay);
                    (center, Ok(step))
                }
            },
        }
    }

    /// What a timer brings: the showing it was set for, unless that was cancelled or replaced.
    pub open spec fn fire(self, options: OptionsModel, generation: u64, now: Timestamp) -> (
        CenterModel,
        Option<ShowingModel>,
    ) {
        if self.scheduled.dom().contains(options.id) && self.scheduled[options.id] == generation {
            (
                CenterModel { scheduled: self.scheduled.remove(options.id), ..self },
                Some(self.prepared(options, now)),
            )
        } else {
            (self, None)
        }
    }

    /// Nothing is left of a notification that was cancelled.
    pub open spec fn cancel(self, id: Seq<char>) -> CenterModel {
        CenterModel {
            scheduled: self.scheduled.remove(id),
            progress: self.progress.remove(id),
            ..self
        }
    }

    pub open spec fn cancel_all(self) -> CenterModel {
        CenterModel { scheduled: Map::empty(), progress: Map::empty(), ..self }
    }

    /// What moving a progress bar comes to: only a notification that shows one has it moved.
    pub open spec fn update(self, id: Seq<char>, progress: Progress) -> (
        CenterModel,
        std::result::Result<OptionsModel, Error>,
    ) {
        if id.len() == 0 || super::zero_total(progress) || !self.progress.dom().contains(id) {
            (self, Err(Error::InvalidNotification))
        } else {
            let updated = OptionsModel { progress: Some(progress), ..self.progress[id] };
            (CenterModel { progress: self.progress.insert(id, updated), ..self }, Ok(updated))
        }
    }

    /// An interaction goes to the handler, or waits for one.
    pub open spec fn deliver(self, interaction: Interaction) -> (CenterModel, Option<Interaction>) {
        match self.queue {
            Some(queue) => (CenterModel { queue: Some(queue.push(interaction)), ..self }, None),
            None => (self, Some(interaction)),
        }
    }

    /// What registering a handler comes to: everything that waited for it, or an error.
    pub open spec fn register(self, listening: Result<()>) -> (
        CenterModel,
        std::result::Result<Seq<Interaction>, Error>,
    ) {
        match (self.queue, listening) {
            (None, _) => (self, Err(Error::HandlerAlreadySet)),
            (Some(_), Err(error)) => (self, Err(error)),
            (Some(queue), Ok(_)) => (CenterModel { queue: None, ..self }, Ok(queue)),
        }
    }
}

proof fn options_after_insert(
    map: Map<Seq<char>, NotificationOptions>,
    id: Seq<char>,
    options: NotificationOptions,
)
    ensures
        options_in(map.insert(id, options)) == options_in(map).insert(id, options@),
{
    assert(options_in(map.insert(id, options)) =~= options_in(map).insert(id, options@));
}

proof fn options_after_remove(map: Map<Seq<char>, NotificationOptions>, id: Seq<char>)
    ensures
        options_in(map.remove(id)) == options_in(map).remove(id),
{
    assert(options_in(map.remove(id)) =~= options_in(map).remove(id));
}

proof fn messages_after_insert(
    map: Map<Seq<char>, Vec<ConversationMessage>>,
    id: Seq<char>,
    list: Vec<ConversationMessage>,
)
    ensures
        messages_in(map.insert(id, list)) == messages_in(map).insert(
            id,
            super::options::messages(list@),
        ),
{
    assert(messages_in(map.insert(id, list)) =~= messages_in(map).insert(
        id,
        super::options::messages(list@),
    ));
}

/// Milliseconds since the Unix epoch, as far as they fit in 64 bits.
fn millis(now: &Timestamp) -> (r: u64)
    ensures
        r == clock_millis(*now),
{
    let nanos: i128 = now.instant_nanos();
    if nanos < 0 {
        0
    } else {
        let whole: u128 = nanos as u128 / 1_000_000;
        (whole % 0x1_0000_0000_0000_0000) as u64
    }
}

/// Keeps the last few messages.
fn keep_recent(list: Vec<ConversationMessage>) -> (r: Vec<ConversationMessage>)
    ensures
        r@ == recent(list@),
{
    if list.len() <= CONVERSATION_HISTORY_LIMIT {
        return list;
    }
    let from: usize = list.len() - CONVERSATION_HISTORY_LIMIT;
    let mut kept: Vec<ConversationMessage> = Vec::new();
    for i in from..list.len()
        invariant
            from <= list@.len(),
            kept@ == list@.subrange(from as int, i as int),
    {
        kept.push(list[i].copy());
        assert(list@.subrange(from as int, i + 1) == list@.subrange(from as int, i as int).push(
            list@[i as int],
        ));
    }
    kept
}

proof fn recent_messages(list: Seq<ConversationMessage>)
    ensures
        super::options::messages(recent(list)) == recent(super::options::messages(list)),
{
    assert(super::options::messages(recent(list)) =~= recent(super::options::messages(list)));
}

impl Center {
    pub fn new() -> (r: Center)
        ensures
            r@ == CenterModel::empty(),
    {
        let r = Center {
            scheduled: Table::new(),
            progress: Table::new(),
            histories: Table::new(),
            handler: HandlerState::Pending(Vec::new()),
            app_id: None,
            next_id: 0,
            generation: 0,
            provides_settings: false,
            critical_alerts: false,
        };
        assert(r@ =~= CenterModel::empty());
        r
    }

    /// Whether a showing of this id is scheduled with a timer.
    pub fn is_scheduled(&self, id: &str) -> (r: bool)
        ensures
            r == self@.scheduled.dom().contains(id@),
    {
        self.scheduled.contains(&id.to_owned())
    }

    /// The interactions that wait for a handler: none once there is one.
    pub fn pending_interactions(&self) -> (r: Option<&Vec<Interaction>>)
        ensures
            r is Some <==> self@.queue is Some,
            r matches Some(pending) ==> self@.queue == Some(pending@),
    {
        match &self.handler {
            HandlerState::Pending(pending) => Some(pending),
            HandlerState::Registered => None,
        }
    }

    /// A copy of the recent messages of a conversation.
    fn history_of(&self, conversation_id: &String) -> (r: Vec<ConversationMessage>)
        ensures
            super::options::messages(r@) == self@.history(conversation_id@),
    {
        match self.histories.get(conversation_id) {
            Some(list) => copy_messages(list),
            None => {
                let none: Vec<ConversationMessage> = Vec::new();
                assert(super::options::messages(none@) == Seq::<MessageModel>::empty());
                none
            },
        }
    }

    /// The recent messages of a conversation, with one more.
    fn extended_history(&self, conversation_id: &String, message: &ConversationMessage) -> (r: Vec<
        ConversationMessage,
    >)
        ensures
            super::options::messages(r@) == recent(
                self@.history(conversation_id@).push(message@),
            ),
    {
        let mut list = self.history_of(conversation_id);
        let ghost before = list@;
        list.push(message.copy());
        proof {
            assert(super::options::messages(list@) == super::options::messages(before).push(
                message@,
            ));
            recent_messages(list@);
        }
        keep_recent(list)
    }

    /// An id for a notification without one, unlike any other of this process.
    pub fn generated_id(&mut self, pid: u32) -> (r: String)
        ensures
            r@ == generated_id_text(pid, old(self)@.next_id),
            final(self)@ == (CenterModel {
                next_id: ((old(self)@.next_id + 1) % 0x1_0000_0000_0000_0000) as u64,
                ..old(self)@
            }),
    {
        let mut id = "robius-notification-".to_owned();
        id.append(text::decimal(pid as u64).as_str());
        id.append("-");
        id.append(text::decimal(self.next_id).as_str());
        self.next_id = self.next_id.wrapping_add(1);
        id
    }

    /// Works out what this notification adds to its conversation, and fills its messages with the
    /// history and that. The history itself stays as it is until the notification is shown.
    pub fn prepare_conversation_history(
        &self,
        options: &mut NotificationOptions,
        now: &Timestamp,
    ) -> (r: Option<PendingMessage>)
        ensures
            (ShowingModel { options: final(options)@, pending: opt_pending(r) }) == self@.prepared(
                old(options)@,
                *now,
            ),
    {
        let (conversation_id, name) = match &options.conversation {
            Some(conversation) => (conversation.id.clone(), conversation.name.clone()),
            None => {
                return None;
            },
        };
        let body = match &options.body {
            Some(body) => text::trim(body.as_str()),
            None => {
                return None;
            },
        };
        proof {
            text::trimmed_trims(options.body->0@);
        }
        if body.as_str().is_empty() {
            return None;
        }
        let sender = match &options.title {
            Some(title) => {
                proof {
                    text::trimmed_trims(title@);
                }
                let title = text::trim(title.as_str());
                if title.as_str().is_empty() {
                    name
                } else {
                    title
                }
            },
            None => name,
        };
        let message = ConversationMessage { sender, text: body, timestamp_ms: millis(now) };
        options.conversation_messages = self.extended_history(&conversation_id, &message);
        Some(PendingMessage { conversation_id, message })
    }

    /// Makes a message that was shown part of its conversation's history.
    pub fn commit_conversation_message(&mut self, pending: Option<PendingMessage>)
        ensures
            final(self)@ == old(self)@.after_message(opt_pending(pending)),
    {
        match pending {
            Some(pending) => {
                let list = self.extended_history(&pending.conversation_id, &pending.message);
                proof {
                    messages_after_insert(self.histories@, pending.conversation_id@, list);
                }
                self.histories.insert(pending.conversation_id, list);
            },
            None => {},
        }
    }

    /// Remembers how a notification with progress was last shown.
    fn remember_progress(&mut self, options: &NotificationOptions)
        ensures
            final(self)@ == (CenterModel {
                progress: if options@.progress is Some {
                    old(self)@.progress.insert(options@.id, options@)
                } else {
                    old(self)@.progress.remove(options@.id)
                },
                ..old(self)@
            }),
    {
        if options.progress.is_some() {
            let copy = options.copy();
            proof {
                options_after_insert(self.progress@, options.id@, copy);
            }
            self.progress.insert(options.id.clone(), copy);
        } else {
            proof {
                options_after_remove(self.progress@, options.id@);
            }
            self.progress.remove(&options.id);
        }
    }

    /// How a showing went: only what the system took is remembered.
    pub fn shown(&mut self, showing: Showing, result: Result<()>) -> (r: Result<()>)
        ensures
            r == result,
            final(self)@ == if result is Ok {
                old(self)@.after_shown(showing@)
            } else {
                old(self)@
            },
    {
        if result.is_ok() {
            self.remember_progress(&showing.options);
            self.commit_conversation_message(showing.pending);
            assert(self@ =~= old(self)@.after_shown(showing@));
        }
        result
    }

    /// What a timer brings: the showing it was set for, unless that was cancelled or replaced.
    pub fn timer_fired(
        &mut self,
        options: NotificationOptions,
        generation: u64,
        now: &Timestamp,
    ) -> (r: Option<Showing>)
        ensures
            (final(self)@, match r {
                Some(showing) => Some(showing@),
                None => None,
            }) == old(self)@.fire(options@, generation, *now),
    {
        let current = match self.scheduled.get(&options.id) {
            Some(latest) => *latest == generation,
            None => false,
        };
        if !current {
            return None;
        }
        self.scheduled.remove(&options.id);
        let mut options = options;
        let pending = self.prepare_conversation_history(&mut options, now);
        Some(Showing { options, pending })
    }

    /// Schedules a showing that a timer of this process will bring.
    pub fn schedule_fallback(&mut self, options: NotificationOptions, delay_nanos: u128) -> (r:
        ShowStep)
        ensures
            (final(self)@, r@) == old(self)@.timed(options@, delay_nanos as int),
    {
        let generation = self.generation;
        self.generation = self.generation.wrapping_add(1);
        self.scheduled.insert(options.id.clone(), generation);
        ShowStep::ByTimer {
            options: NotificationOptions { scheduled_time: None, ..options },
            generation,
            delay_nanos,
        }
    }

    /// The application's id, if it has set one.
    pub fn app_id(&self) -> (r: Option<String>)
        ensures
            text::opt_text(r) == self@.app_id,
    {
        text::copy_opt(&self.app_id)
    }

    /// Whether the application declared a notification settings screen of its own.
    pub fn provides_notification_settings(&self) -> (r: bool)
        ensures
            r == self@.provides_settings,
    {
        self.provides_settings
    }

    /// Whether the application declared that it uses critical alerts.
    pub fn uses_critical_alerts(&self) -> (r: bool)
        ensures
            r == self@.critical_alerts,
    {
        self.critical_alerts
    }

    /// Hands an interaction over: to the handler, by giving it back, or to the queue where there is
    /// no handler yet.
    pub fn deliver_interaction(&mut self, interaction: Interaction) -> (r: Option<Interaction>)
        ensures
            (final(self)@, r) == old(self)@.deliver(interaction),
    {
        match &mut self.handler {
            HandlerState::Pending(pending) => {
                pending.push(interaction);
                None
            },
            HandlerState::Registered => Some(interaction),
        }
    }
}

/// How far ahead of now the scheduled time is.
fn delay(time: Option<Timestamp>, now: &Timestamp) -> (r: u128)
    ensures
        r == match time {
            Some(time) => time.nanos_after(*now),
            None => 0,
        },
{
    match time {
        Some(time) => {
            let then: i128 = time.instant_nanos();
            let current: i128 = now.instant_nanos();
            if then < current {
                0
            } else {
                (then - current) as u128
            }
        },
        None => 0,
    }
}

impl Notification {
    /// Shows this notification, now or at its scheduled time.
    ///
    /// Where the system cannot schedule notifications by itself, a timer of this process has to.
    pub fn show(
        self,
        center: &mut Center,
        native_scheduling: bool,
        pid: u32,
        now: &Timestamp,
    ) -> (r: Result<ShowStep>)
        ensures
            (final(center)@, step_model(r)) == old(center)@.show(
                self@,
                native_scheduling,
                pid,
                *now,
            ),
    {
        let mut options = self.options;
        match options.validate() {
            Err(error) => {
                return Err(error);
            },
            Ok(_) => {},
        }
        if options.id.as_str().is_empty() {
            options.id = center.generated_id(pid);
        }
        let delay_nanos = delay(options.scheduled_time, now);
        if delay_nanos < IMMEDIATE_NANOS {
            options.scheduled_time = None;
            center.scheduled.remove(&options.id);
            let pending = center.prepare_conversation_history(&mut options, now);
            Ok(ShowStep::Now(Showing { options, pending }))
        } else if native_scheduling {
            proof {
                options_after_remove(center.progress@, options.id@);
            }
            center.progress.remove(&options.id);
            Ok(ShowStep::BySystem(options))
        } else {
            Ok(center.schedule_fallback(options, delay_nanos))
        }
    }
}

/// Whether a handler may still be set.
pub fn check_handler_unset(center: &Center) -> (r: Result<()>)
    ensures
        r == if center@.queue is Some {
            Ok::<(), Error>(())
        } else {
            Err(Error::HandlerAlreadySet)
        },
{
    match &center.handler {
        HandlerState::Pending(_) => Ok(()),
        HandlerState::Registered => Err(Error::HandlerAlreadySet),
    }
}

/// Registers the handler, once the platform listens for interactions, and gives it everything that
/// arrived before.
///
/// Only one handler is ever taken, and none where the platform could not listen.
pub fn set_interaction_handler(center: &mut Center, listening: Result<()>) -> (r: Result<
    Vec<Interaction>,
>)
    ensures
        (final(center)@, match r {
            Ok(pending) => Ok(pending@),
            Err(error) => Err(error),
        }) == old(center)@.register(listening),
{
    match check_handler_unset(center) {
        Err(error) => {
            return Err(error);
        },
        Ok(_) => {},
    }
    match listening {
        Err(error) => {
            return Err(error);
        },
        Ok(_) => {},
    }
    let mut state = HandlerState::Registered;
    std::mem::swap(&mut state, &mut center.handler);
    match state {
        HandlerState::Pending(pending) => Ok(pending),
        HandlerState::Registered => Err(Error::HandlerAlreadySet),
    }
}

/// Moves the progress bar of a notification that shows one, and gives the notification as it looks
/// then.
pub fn update_progress(center: &mut Center, id: &str, progress: Progress) -> (r: Result<
    NotificationOptions,
>)
    ensures
        (final(center)@, match r {
            Ok(options) => Ok(options@),
            Err(error) => Err(error),
        }) == old(center)@.update(id@, progress),
{
    if id.is_empty() || has_zero_total(progress) {
        return Err(Error::InvalidNotification);
    }
    let key = id.to_owned();
    let remembered = match center.progress.get(&key) {
        Some(options) => options.copy(),
        None => {
            return Err(Error::InvalidNotification);
        },
    };
    let updated = NotificationOptions { progress: Some(progress), ..remembered };
    let copy = updated.copy();
    proof {
        options_after_insert(center.progress@, key@, copy);
    }
    center.progress.insert(key, copy);
    Ok(updated)
}

/// Forgets a notification that is to be removed from the screen: any scheduled showing, and
/// whatever was kept for progress updates.
pub fn cancel(center: &mut Center, id: &str) -> (r: Result<()>)
    ensures
        r == if id@.len() > 0 {
            Ok::<(), Error>(())
        } else {
            Err(Error::InvalidNotification)
        },
        final(center)@ == if id@.len() > 0 {
            old(center)@.cancel(id@)
        } else {
            old(center)@
        },
{
    if id.is_empty() {
        return Err(Error::InvalidNotification);
    }
    let key = id.to_owned();
    center.scheduled.remove(&key);
    proof {
        options_after_remove(center.progress@, key@);
    }
    center.progress.remove(&key);
    Ok(())
}

/// Forgets all notifications.
pub fn cancel_all(center: &mut Center)
    ensures
        final(center)@ == old(center)@.cancel_all(),
{
    center.scheduled.clear();
    center.progress.clear();
    assert(center@.progress =~= Map::<Seq<char>, OptionsModel>::empty());
}

/// Sets the application's identity, on platforms that need one.
pub fn set_app_id(center: &mut Center, app_id: &str)
    ensures
        final(center)@ == (CenterModel { app_id: Some(app_id@), ..old(center)@ }),
{
    center.app_id = Some(app_id.to_owned());
}

/// Declares whether this application has a notification settings screen of its own.
pub fn set_provides_notification_settings(center: &mut Center, provides: bool)
    ensures
        final(center)@ == (CenterModel { provides_settings: provides, ..old(center)@ }),
{
    center.provides_settings = provides;
}

/// Declares whether this application uses critical alerts.
pub fn set_uses_critical_alerts(center: &mut Center, uses: bool)
    ensures
        final(center)@ == (CenterModel { critical_alerts: uses, ..old(center)@ }),
{
    center.critical_alerts = uses;
}

} // verus!

//! What a notification is made of.

use super::{
    copy_pairs, has_zero_total, Error, LockScreenVisibility, Progress, Result, Sound, Urgency,
};
use crate::path;
use crate::path::FilePath;
use crate::text;
use crate::time::{TimeSpan, Timestamp};
use vstd::prelude::*;

verus! {

#[derive(Clone, Copy, Debug, PartialEq, Eq, Structural)]
pub enum ActionKind {
    Button,
    Reply,
}

/// An interactive element on a notification: a button or a quick-reply field.
#[derive(Clone, Debug, PartialEq, Eq)]
pub struct Action {
    pub id: String,
    pub title: String,
    pub kind: ActionKind,
    pub placeholder: Option<String>,
    pub destructive: bool,
    pub foreground: bool,
}

impl Action {
    /// A plain button.
    pub fn button(id: &str, title: &str) -> (r: Action)
        ensures
            r.id@ == id@,
            r.title@ == title@,
            r == (Action {
                id: r.id,
                title: r.title,
                kind: ActionKind::Button,
                placeholder: None,
                destructive: false,
                foreground: false,
            }),
    {
        Action {
            id: id.to_owned(),
            title: title.to_owned(),
            kind: ActionKind::Button,
            placeholder: None,
            destructive: false,
            foreground: false,
        }
    }

    /// A button that opens an inline text input. Where there is no such input, it is a plain
    /// button.
    pub fn reply(id: &str, title: &str) -> (r: Action)
        ensures
            r.id@ == id@,
            r.title@ == title@,
            r == (Action {
                id: r.id,
                title: r.title,
                kind: ActionKind::Reply,
                placeholder: None,
                destructive: false,
                foreground: false,
            }),
    {
        Action {
            id: id.to_owned(),
            title: title.to_owned(),
            kind: ActionKind::Reply,
            placeholder: None,
            destructive: false,
            foreground: false,
        }
    }

    /// Sets the text shown in an empty quick-reply input, where supported.
    pub fn set_placeholder(self, placeholder: &str) -> (r: Action)
        ensures
            text::opt_text(r.placeholder) == Some(placeholder@),
            r == (Action { placeholder: r.placeholder, ..self }),
    {
        Action { placeholder: Some(placeholder.to_owned()), ..self }
    }

    /// Marks this action as destructive, where supported.
    pub fn set_destructive(self, destructive: bool) -> (r: Action)
        ensures
            r == (Action { destructive, ..self }),
    {
        Action { destructive, ..self }
    }

    /// Requests that pressing this action also brings the application to the foreground, where
    /// supported.
    pub fn set_foreground(self, foreground: bool) -> (r: Action)
        ensures
            r == (Action { foreground, ..self }),
    {
        Action { foreground, ..self }
    }

    pub fn copy(&self) -> (r: Action)
        ensures
            r == *self,
    {
        Action {
            id: self.id.clone(),
            title: self.title.clone(),
            kind: self.kind,
            placeholder: text::copy_opt(&self.placeholder),
            destructive: self.destructive,
            foreground: self.foreground,
        }
    }
}

/// An ongoing conversation that notifications can belong to.
#[derive(Clone, Debug, PartialEq, Eq)]
pub struct Conversation {
    pub id: String,
    pub name: String,
    pub icon: Option<FilePath>,
    pub group_conversation: bool,
}

pub struct ConversationModel {
    pub id: Seq<char>,
    pub name: Seq<char>,
    pub icon: Option<Seq<u8>>,
    pub group_conversation: bool,
}

impl View for Conversation {
    type V = ConversationModel;

    open spec fn view(&self) -> ConversationModel {
        ConversationModel {
            id: self.id@,
            name: self.name@,
            icon: path::opt_path(self.icon),
            group_conversation: self.group_conversation,
        }
    }
}

impl Conversation {
    /// A conversation with the given stable `id` and user-visible `name`.
    pub fn new(id: &str, name: &str) -> (r: Conversation)
        ensures
            r@ == (ConversationModel {
                id: id@,
                name: name@,
                icon: None,
                group_conversation: false,
            }),
    {
        Conversation {
            id: id.to_owned(),
            name: name.to_owned(),
            icon: None,
            group_conversation: false,
        }
    }

    /// Sets the conversation's avatar image, where supported.
    pub fn set_icon(self, path: &FilePath) -> (r: Conversation)
        ensures
            r@ == (ConversationModel { icon: Some(path.bytes@), ..self@ }),
    {
        Conversation { icon: Some(path.copy()), ..self }
    }

    /// Marks this as a group conversation rather than a chat between two.
    pub fn set_group_conversation(self, group_conversation: bool) -> (r: Conversation)
        ensures
            r@ == (ConversationModel { group_conversation, ..self@ }),
    {
        Conversation { group_conversation, ..self }
    }

    pub fn copy(&self) -> (r: Conversation)
        ensures
            r@ == self@,
    {
        Conversation {
            id: self.id.clone(),
            name: self.name.clone(),
            icon: path::copy_opt_path(&self.icon),
            group_conversation: self.group_conversation,
        }
    }
}

/// One message of a conversation's history.
#[derive(Clone, Debug, PartialEq, Eq)]
pub struct ConversationMessage {
    pub sender: String,
    pub text: String,
    /// Milliseconds since the Unix epoch.
    pub timestamp_ms: u64,
}

pub struct MessageModel {
    pub sender: Seq<char>,
    pub text: Seq<char>,
    pub timestamp_ms: u64,
}

impl View for ConversationMessage {
    type V = MessageModel;

    open spec fn view(&self) -> MessageModel {
        MessageModel { sender: self.sender@, text: self.text@, timestamp_ms: self.timestamp_ms }
    }
}

impl ConversationMessage {
    pub fn copy(&self) -> (r: ConversationMessage)
        ensures
            r == *self,
    {
        ConversationMessage {
            sender: self.sender.clone(),
            text: self.text.clone(),
            timestamp_ms: self.timestamp_ms,
        }
    }
}

pub open spec fn messages(list: Seq<ConversationMessage>) -> Seq<MessageModel> {
    list.map_values(|message: ConversationMessage| message@)
}

pub fn copy_messages(list: &Vec<ConversationMessage>) -> (r: Vec<ConversationMessage>)
    ensures
        r@ == list@,
{
    let mut copy: Vec<ConversationMessage> = Vec::new();
    for i in 0..list.len()
        invariant
            copy@ == list@.take(i as int),
    {
        copy.push(list[i].copy());
        assert(list@.take(i + 1) == list@.take(i as int).push(list@[i as int]));
    }
    assert(list@.take(list@.len() as int) == list@);
    copy
}

/// A user-manageable category of notifications.
#[derive(Clone, Debug, PartialEq, Eq)]
pub struct NotificationChannel {
    pub id: String,
    pub name: String,
    pub description: Option<String>,
    pub importance: Urgency,
    /// The id and the name of the group of channels this one stands in.
    pub group: Option<(String, String)>,
}

impl NotificationChannel {
    /// A channel with the given stable `id` and user-visible `name`.
    pub fn new(id: &str, name: &str) -> (r: NotificationChannel)
        ensures
            r.id@ == id@,
            r.name@ == name@,
            r == (NotificationChannel {
                id: r.id,
                name: r.name,
                description: None,
                importance: Urgency::Normal,
                group: None,
            }),
    {
        NotificationChannel {
            id: id.to_owned(),
            name: name.to_owned(),
            description: None,
            importance: Urgency::Normal,
            group: None,
        }
    }

    /// Puts this channel in a user-visible group: a titled section of related channels.
    pub fn set_group(self, group_id: &str, group_name: &str) -> (r: NotificationChannel)
        ensures
            r.group matches Some(group) && group.0@ == group_id@ && group.1@ == group_name@,
            r == (NotificationChannel { group: r.group, ..self }),
    {
        NotificationChannel {
            group: Some((group_id.to_owned(), group_name.to_owned())),
            ..self
        }
    }

    /// Sets the user-visible description of what this channel is for.
    pub fn set_description(self, description: &str) -> (r: NotificationChannel)
        ensures
            text::opt_text(r.description) == Some(description@),
            r == (NotificationChannel { description: r.description, ..self }),
    {
        NotificationChannel { description: Some(description.to_owned()), ..self }
    }

    /// Sets the importance of all notifications in this channel.
    pub fn set_importance(self, importance: Urgency) -> (r: NotificationChannel)
        ensures
            r == (NotificationChannel { importance, ..self }),
    {
        NotificationChannel { importance, ..self }
    }

    pub fn copy(&self) -> (r: NotificationChannel)
        ensures
            r == *self,
    {
        NotificationChannel {
            id: self.id.clone(),
            name: self.name.clone(),
            description: text::copy_opt(&self.description),
            importance: self.importance,
            group: match &self.group {
                Some((group_id, group_name)) => Some((group_id.clone(), group_name.clone())),
                None => None,
            },
        }
    }
}

/// Everything a notification can have.
#[derive(Clone, Debug)]
pub struct NotificationOptions {
    /// Empty until set, by the application or when the notification is shown.
    pub id: String,
    pub title: Option<String>,
    pub body: Option<String>,
    pub subtitle: Option<String>,
    pub channel: Option<NotificationChannel>,
    pub urgency: Option<Urgency>,
    pub sound: Option<Sound>,
    pub badge_count: Option<u32>,
    pub group: Option<String>,
    pub image: Option<FilePath>,
    pub timeout: Option<TimeSpan>,
    pub metadata: Vec<(String, String)>,
    pub actions: Vec<Action>,
    pub conversation: Option<Conversation>,
    /// The conversation's recent messages, filled in when the notification is shown.
    pub conversation_messages: Vec<ConversationMessage>,
    pub progress: Option<Progress>,
    pub timestamp: Option<Timestamp>,
    pub persistent: bool,
    pub lock_screen_visibility: Option<LockScreenVisibility>,
    pub bypass_dnd: bool,
    pub scheduled_time: Option<Timestamp>,
}

/// Everything a notification can have, spelled out.
pub struct OptionsModel {
    pub id: Seq<char>,
    pub title: Option<Seq<char>>,
    pub body: Option<Seq<char>>,
    pub subtitle: Option<Seq<char>>,
    pub channel: Option<NotificationChannel>,
    pub urgency: Option<Urgency>,
    pub sound: Option<Sound>,
    pub badge_count: Option<u32>,
    pub group: Option<Seq<char>>,
    pub image: Option<Seq<u8>>,
    pub timeout: Option<TimeSpan>,
    pub metadata: Seq<(Seq<char>, Seq<char>)>,
    pub actions: Seq<Action>,
    pub conversation: Option<ConversationModel>,
    pub conversation_messages: Seq<MessageModel>,
    pub progress: Option<Progress>,
    pub timestamp: Option<Timestamp>,
    pub persistent: bool,
    pub lock_screen_visibility: Option<LockScreenVisibility>,
    pub bypass_dnd: bool,
    pub scheduled_time: Option<Timestamp>,
}

impl View for NotificationOptions {
    type V = OptionsModel;

    open spec fn view(&self) -> OptionsModel {
        OptionsModel {
            id: self.id@,
            title: text::opt_text(self.title),
            body: text::opt_text(self.body),
            subtitle: text::opt_text(self.subtitle),
            channel: self.channel,
            urgency: self.urgency,
            sound: self.sound,
            badge_count: self.badge_count,
            group: text::opt_text(self.group),
            image: path::opt_path(self.image),
            timeout: self.timeout,
            metadata: super::pairs(self.metadata@),
            actions: self.actions@,
            conversation: match self.conversation {
                Some(conversation) => Some(conversation@),
                None => None,
            },
            conversation_messages: messages(self.conversation_messages@),
            progress: self.progress,
            timestamp: self.timestamp,
            persistent: self.persistent,
            lock_screen_visibility: self.lock_screen_visibility,
            bypass_dnd: self.bypass_dnd,
            scheduled_time: self.scheduled_time,
        }
    }
}

/// Unset, or nothing but white space.
pub open spec fn missing(text: Option<Seq<char>>) -> bool {
    match text {
        Some(text) => text::blank(text),
        None => true,
    }
}

fn is_missing(text: &Option<String>) -> (r: bool)
    ensures
        r == missing(text::opt_text(*text)),
{
    match text {
        Some(text) => text::is_blank(text.as_str()),
        None => true,
    }
}

impl OptionsModel {
    /// A notification with nothing set.
    pub open spec fn unset() -> OptionsModel {
        OptionsModel {
            id: Seq::empty(),
            title: None,
            body: None,
            subtitle: None,
            channel: None,
            urgency: None,
            sound: None,
            badge_count: None,
            group: None,
            image: None,
            timeout: None,
            metadata: Seq::empty(),
            actions: Seq::empty(),
            conversation: None,
            conversation_messages: Seq::empty(),
            progress: None,
            timestamp: None,
            persistent: false,
            lock_screen_visibility: None,
            bypass_dnd: false,
            scheduled_time: None,
        }
    }

    /// Every action has an id of its own, and neither its id nor its title is blank.
    pub open spec fn valid_actions(self) -> bool {
        &&& forall|i: int|
            0 <= i < self.actions.len() ==> !text::blank((#[trigger] self.actions[i]).id@)
                && !text::blank(self.actions[i].title@)
        &&& forall|i: int, j: int|
            0 <= i < j < self.actions.len() ==> (#[trigger] self.actions[i]).id@
                != (#[trigger] self.actions[j]).id@
    }

    pub open spec fn valid_metadata(self) -> bool {
        forall|i: int| 0 <= i < self.metadata.len() ==> !text::blank((#[trigger] self.metadata[i]).0)
    }

    pub open spec fn valid_channel(self) -> bool {
        match self.channel {
            Some(channel) => {
                &&& !text::blank(channel.id@)
                &&& !text::blank(channel.name@)
                &&& match channel.group {
                    Some(group) => !text::blank(group.0@) && !text::blank(group.1@),
                    None => true,
                }
            },
            None => true,
        }
    }

    pub open spec fn valid_conversation(self) -> bool {
        match self.conversation {
            Some(conversation) => {
                &&& !text::blank(conversation.id)
                &&& !text::blank(conversation.name)
                &&& conversation.icon != Some(Seq::<u8>::empty())
            },
            None => true,
        }
    }

    /// Whether, and if not why not, such a notification may be shown.
    pub open spec fn validity(self) -> Result<()> {
        if missing(self.title) && missing(self.body) {
            Err(Error::Empty)
        } else if self.valid_actions() && self.valid_metadata() && self.valid_channel()
            && self.valid_conversation() && self.image != Some(Seq::<u8>::empty()) && !(
        self.progress matches Some(progress) && super::zero_total(progress)) {
            Ok(())
        } else {
            Err(Error::InvalidNotification)
        }
    }
}

impl NotificationOptions {
    pub fn unset() -> (r: NotificationOptions)
        ensures
            r@ == OptionsModel::unset(),
    {
        let r = NotificationOptions {
            id: String::new(),
            title: None,
            body: None,
            subtitle: None,
            channel: None,
            urgency: None,
            sound: None,
            badge_count: None,
            group: None,
            image: None,
            timeout: None,
            metadata: Vec::new(),
            actions: Vec::new(),
            conversation: None,
            conversation_messages: Vec::new(),
            progress: None,
            timestamp: None,
            persistent: false,
            lock_screen_visibility: None,
            bypass_dnd: false,
            scheduled_time: None,
        };
        assert(r@.metadata == Seq::<(Seq<char>, Seq<char>)>::empty());
        assert(r@.conversation_messages == Seq::<MessageModel>::empty());
        assert(r@.id == Seq::<char>::empty());
        r
    }

    pub fn copy(&self) -> (r: NotificationOptions)
        ensures
            r@ == self@,
    {
        let mut actions: Vec<Action> = Vec::new();
        for i in 0..self.actions.len()
            invariant
                actions@ == self.actions@.take(i as int),
        {
            actions.push(self.actions[i].copy());
            assert(self.actions@.take(i + 1) == self.actions@.take(i as int).push(
                self.actions@[i as int],
            ));
        }
        assert(self.actions@.take(self.actions@.len() as int) == self.actions@);
        NotificationOptions {
            id: self.id.clone(),
            title: text::copy_opt(&self.title),
            body: text::copy_opt(&self.body),
            subtitle: text::copy_opt(&self.subtitle),
            channel: match &self.channel {
                Some(channel) => Some(channel.copy()),
                None => None,
            },
            urgency: self.urgency,
            sound: match &self.sound {
                Some(sound) => Some(sound.copy()),
                None => None,
            },
            badge_count: self.badge_count,
            group: text::copy_opt(&self.group),
            image: path::copy_opt_path(&self.image),
            timeout: self.timeout,
            metadata: copy_pairs(&self.metadata),
            actions,
            conversation: match &self.conversation {
                Some(conversation) => Some(conversation.copy()),
                None => None,
            },
            conversation_messages: copy_messages(&self.conversation_messages),
            progress: self.progress,
            timestamp: self.timestamp,
            persistent: self.persistent,
            lock_screen_visibility: self.lock_screen_visibility,
            bypass_dnd: self.bypass_dnd,
            scheduled_time: self.scheduled_time,
        }
    }

    fn has_valid_actions(&self) -> (r: bool)
        ensures
            r == self@.valid_actions(),
    {
        for i in 0..self.actions.len()
            invariant
                forall|k: int|
                    0 <= k < i ==> !text::blank((#[trigger] self.actions@[k]).id@) && !text::blank(
                        self.actions@[k].title@,
                    ),
                forall|k: int, l: int|
                    0 <= k < i && k < l < self.actions@.len() ==> (#[trigger] self.actions@[k]).id@
                        != (#[trigger] self.actions@[l]).id@,
        {
            let action = &self.actions[i];
            if text::is_blank(action.id.as_str()) || text::is_blank(action.title.as_str()) {
                assert(!self@.valid_actions()) by {
                    assert(self@.actions[i as int] == *action);
                }
                return false;
            }
            for j in i + 1..self.actions.len()
                invariant
                    i < self.actions@.len(),
                    *action == self.actions@[i as int],
                    forall|l: int| i < l < j ==> (#[trigger] self.actions@[l]).id@ != action.id@,
            {
                if text::same(self.actions[j].id.as_str(), action.id.as_str()) {
                    assert(!self@.valid_actions()) by {
                        assert(self@.actions[i as int].id@ == self@.actions[j as int].id@);
                    }
                    return false;
                }
            }
        }
        true
    }

    fn has_valid_metadata(&self) -> (r: bool)
        ensures
            r == self@.valid_metadata(),
    {
        for i in 0..self.metadata.len()
            invariant
                forall|k: int| 0 <= k < i ==> !text::blank((#[trigger] self@.metadata[k]).0),
        {
            if text::is_blank(self.metadata[i].0.as_str()) {
                assert(text::blank(self@.metadata[i as int].0));
                return false;
            }
        }
        true
    }

    fn has_valid_channel(&self) -> (r: bool)
        ensures
            r == self@.valid_channel(),
    {
        match &self.channel {
            Some(channel) => {
                !text::is_blank(channel.id.as_str()) && !text::is_blank(channel.name.as_str())
                    && match &channel.group {
                    Some((group_id, group_name)) => !text::is_blank(group_id.as_str())
                        && !text::is_blank(group_name.as_str()),
                    None => true,
                }
            },
            None => true,
        }
    }

    fn has_valid_conversation(&self) -> (r: bool)
        ensures
            r == self@.valid_conversation(),
    {
        match &self.conversation {
            Some(conversation) => !text::is_blank(conversation.id.as_str()) && !text::is_blank(
                conversation.name.as_str(),
            ) && !is_empty_path(&conversation.icon),
            None => true,
        }
    }

    /// Whether, and if not why not, such a notification may be shown.
    pub fn validate(&self) -> (r: Result<()>)
        ensures
            r == self@.validity(),
    {
        if is_missing(&self.title) && is_missing(&self.body) {
            return Err(Error::Empty);
        }
        let zero = match self.progress {
            Some(progress) => has_zero_total(progress),
            None => false,
        };
        if self.has_valid_actions() && self.has_valid_metadata() && self.has_valid_channel()
            && self.has_valid_conversation() && !is_empty_path(&self.image) && !zero {
            Ok(())
        } else {
            Err(Error::InvalidNotification)
        }
    }
}

fn is_empty_path(path: &Option<FilePath>) -> (r: bool)
    ensures
        r == (path::opt_path(*path) == Some(Seq::<u8>::empty())),
{
    match path {
        Some(path) => {
            assert(path.bytes@.len() == 0 ==> path.bytes@ == Seq::<u8>::empty());
            path.is_empty()
        },
        None => false,
    }
}

/// A notification being put together.
#[derive(Clone, Debug)]
pub struct Notification {
    pub options: NotificationOptions,
}

impl View for Notification {
    type V = OptionsModel;

    open spec fn view(&self) -> OptionsModel {
        self.options@
    }
}

impl Notification {
    /// A notification with nothing set.
    pub fn new() -> (r: Notification)
        ensures
            r@ == OptionsModel::unset(),
    {
        Notification { options: NotificationOptions::unset() }
    }

    /// Sets a stable identifier.
    ///
    /// Showing another notification with the same id replaces the earlier one. Without one, a
    /// unique id is generated when the notification is shown.
    pub fn set_id(self, id: &str) -> (r: Notification)
        ensures
            r@ == (OptionsModel { id: id@, ..self@ }),
    {
        Notification { options: NotificationOptions { id: id.to_owned(), ..self.options } }
    }

    /// Sets the title, the most prominent line of text.
    pub fn set_title(self, title: &str) -> (r: Notification)
        ensures
            r@ == (OptionsModel { title: Some(title@), ..self@ }),
    {
        Notification { options: NotificationOptions { title: Some(title.to_owned()), ..self.options } }
    }

    /// Sets the main body text.
    pub fn set_body(self, body: &str) -> (r: Notification)
        ensures
            r@ == (OptionsModel { body: Some(body@), ..self@ }),
    {
        Notification { options: NotificationOptions { body: Some(body.to_owned()), ..self.options } }
    }

    /// Sets a secondary line of text shown near the title, where supported.
    pub fn set_subtitle(self, subtitle: &str) -> (r: Notification)
        ensures
            r@ == (OptionsModel { subtitle: Some(subtitle@), ..self@ }),
    {
        Notification {
            options: NotificationOptions { subtitle: Some(subtitle.to_owned()), ..self.options },
        }
    }

    /// Sets the channel this notification belongs to.
    pub fn set_channel(self, channel: NotificationChannel) -> (r: Notification)
        ensures
            r@ == (OptionsModel { channel: Some(channel), ..self@ }),
    {
        Notification { options: NotificationOptions { channel: Some(channel), ..self.options } }
    }

    /// Sets how prominently this notification should interrupt the user.
    pub fn set_urgency(self, urgency: Urgency) -> (r: Notification)
        ensures
            r@ == (OptionsModel { urgency: Some(urgency), ..self@ }),
    {
        Notification { options: NotificationOptions { urgency: Some(urgency), ..self.options } }
    }

    /// Sets the sound; the platform's default where none is set.
    pub fn set_sound(self, sound: Sound) -> (r: Notification)
        ensures
            r@ == (OptionsModel { sound: Some(sound), ..self@ }),
    {
        Notification { options: NotificationOptions { sound: Some(sound), ..self.options } }
    }

    /// Sets the number shown on the application's icon badge, where supported.
    pub fn set_badge_count(self, count: u32) -> (r: Notification)
        ensures
            r@ == (OptionsModel { badge_count: Some(count), ..self@ }),
    {
        Notification { options: NotificationOptions { badge_count: Some(count), ..self.options } }
    }

    /// Sets an id by which related notifications are stacked together, where supported.
    pub fn set_group(self, group: &str) -> (r: Notification)
        ensures
            r@ == (OptionsModel { group: Some(group@), ..self@ }),
    {
        Notification { options: NotificationOptions { group: Some(group.to_owned()), ..self.options } }
    }

    /// Attaches an image, where supported.
    pub fn set_image(self, path: &FilePath) -> (r: Notification)
        ensures
            r@ == (OptionsModel { image: Some(path.bytes@), ..self@ }),
    {
        Notification { options: NotificationOptions { image: Some(path.copy()), ..self.options } }
    }

    /// Sets how long the notification stays on screen, where supported.
    pub fn set_timeout(self, timeout: TimeSpan) -> (r: Notification)
        ensures
            r@ == (OptionsModel { timeout: Some(timeout), ..self@ }),
    {
        Notification { options: NotificationOptions { timeout: Some(timeout), ..self.options } }
    }

    /// Attaches an application-defined pair, which comes back with every interaction.
    pub fn add_metadata(self, key: &str, value: &str) -> (r: Notification)
        ensures
            r@ == (OptionsModel { metadata: self@.metadata.push((key@, value@)), ..self@ }),
    {
        let mut options = self.options;
        options.metadata.push((key.to_owned(), value.to_owned()));
        assert(options@.metadata == self@.metadata.push((key@, value@)));
        Notification { options }
    }

    /// Adds a button or quick-reply field.
    pub fn add_action(self, action: Action) -> (r: Notification)
        ensures
            r@ == (OptionsModel { actions: self@.actions.push(action), ..self@ }),
    {
        let mut options = self.options;
        options.actions.push(action);
        Notification { options }
    }

    /// Associates this notification with an ongoing conversation.
    pub fn set_conversation(self, conversation: Conversation) -> (r: Notification)
        ensures
            r@ == (OptionsModel { conversation: Some(conversation@), ..self@ }),
    {
        Notification {
            options: NotificationOptions { conversation: Some(conversation), ..self.options },
        }
    }

    /// Shows a progress bar on the notification.
    pub fn set_progress(self, progress: Progress) -> (r: Notification)
        ensures
            r@ == (OptionsModel { progress: Some(progress), ..self@ }),
    {
        Notification { options: NotificationOptions { progress: Some(progress), ..self.options } }
    }

    /// Sets the time of the event this notification is about.
    pub fn set_timestamp(self, timestamp: Timestamp) -> (r: Notification)
        ensures
            r@ == (OptionsModel { timestamp: Some(timestamp), ..self@ }),
    {
        Notification { options: NotificationOptions { timestamp: Some(timestamp), ..self.options } }
    }

    /// Marks this notification as ongoing, where supported.
    pub fn set_persistent(self, persistent: bool) -> (r: Notification)
        ensures
            r@ == (OptionsModel { persistent, ..self@ }),
    {
        Notification { options: NotificationOptions { persistent, ..self.options } }
    }

    /// Sets how much of this notification appears on the lock screen, where supported.
    pub fn set_lock_screen_visibility(self, visibility: LockScreenVisibility) -> (r: Notification)
        ensures
            r@ == (OptionsModel { lock_screen_visibility: Some(visibility), ..self@ }),
    {
        Notification {
            options: NotificationOptions {
                lock_screen_visibility: Some(visibility),
                ..self.options
            },
        }
    }

    /// Asks for this notification to break through modes in which the user wants quiet, where
    /// supported.
    pub fn set_bypass_do_not_disturb(self, bypass: bool) -> (r: Notification)
        ensures
            r@ == (OptionsModel { bypass_dnd: bypass, ..self@ }),
    {
        Notification { options: NotificationOptions { bypass_dnd: bypass, ..self.options } }
    }

    /// Schedules this notification to be shown later. A time in the past shows it at once.
    pub fn set_scheduled_time(self, time: Timestamp) -> (r: Notification)
        ensures
            r@ == (OptionsModel { scheduled_time: Some(time), ..self@ }),
    {
        Notification {
            options: NotificationOptions { scheduled_time: Some(time), ..self.options },
        }
    }
}

} // verus!

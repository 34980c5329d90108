//! Notifications on Android: the values that go to the Java side, and those that come back.

use super::options::{Action, ActionKind, ConversationMessage, NotificationOptions, OptionsModel};
use super::{
    Error, Interaction, InteractionKind, InteractionModel, KindModel, LockScreenVisibility,
    NotificationSettings, Progress, Result, SettingsScope, Sound, Urgency,
};
use crate::path;
use crate::path::FilePath;
use crate::text;
use crate::time::Timestamp;
use vstd::prelude::*;

verus! {

/// What the Java side answers where all went well.
pub const RESULT_OK: i32 = 0;

/// What the Java side answers where the user does not allow it.
pub const RESULT_PERMISSION_DENIED: i32 = 1;

pub const KIND_ACTIVATED: i32 = 0;

pub const KIND_DISMISSED: i32 = 1;

pub const KIND_ACTION: i32 = 2;

pub const KIND_REPLY: i32 = 3;

/// What came of a call to the Java side.
pub fn check_result(result: i32) -> (r: Result<()>)
    ensures
        r == if result == RESULT_OK {
            Ok::<(), Error>(())
        } else if result == RESULT_PERMISSION_DENIED {
            Err(Error::PermissionDenied)
        } else {
            Err(Error::Unknown)
        },
{
    if result == RESULT_OK {
        Ok(())
    } else if result == RESULT_PERMISSION_DENIED {
        Err(Error::PermissionDenied)
    } else {
        Err(Error::Unknown)
    }
}

/// The id and the name of the channel that notifications of an urgency go to by default. Importance
/// sticks to a channel, so each urgency has one of its own.
pub open spec fn default_channel_text(urgency: Urgency) -> (Seq<char>, Seq<char>) {
    match urgency {
        Urgency::Low => ("robius.notifications.default.quiet"@, "Quiet notifications"@),
        Urgency::Normal => ("robius.notifications.default"@, "Notifications"@),
        Urgency::Critical => ("robius.notifications.default.urgent"@, "Urgent notifications"@),
    }
}

fn default_channel(urgency: Urgency) -> (r: (&'static str, &'static str))
    ensures
        (r.0@, r.1@) == default_channel_text(urgency),
{
    match urgency {
        Urgency::Low => ("robius.notifications.default.quiet", "Quiet notifications"),
        Urgency::Normal => ("robius.notifications.default", "Notifications"),
        Urgency::Critical => ("robius.notifications.default.urgent", "Urgent notifications"),
    }
}

/// How important a channel is, in the Java side's terms.
pub open spec fn importance_code(urgency: Urgency) -> i32 {
    match urgency {
        Urgency::Low => 0,
        Urgency::Normal => 1,
        Urgency::Critical => 2,
    }
}

/// Progress and its end, in the Java side's terms: an end of -1 for no progress, 0 for a bar without
/// end.
pub open spec fn progress_codes(progress: Option<Progress>) -> (int, int) {
    match progress {
        None => (0, -1),
        Some(Progress::Indeterminate) => (0, 0),
        Some(Progress::Determinate { current, total }) => {
            let end = if total > i32::MAX {
                i32::MAX as int
            } else {
                total as int
            };
            (
                if current > end {
                    end
                } else {
                    current as int
                },
                end,
            )
        },
    }
}

fn progress_numbers(progress: Option<Progress>) -> (r: (i32, i32))
    ensures
        (r.0 as int, r.1 as int) == progress_codes(progress),
{
    match progress {
        None => (0, -1),
        Some(Progress::Indeterminate) => (0, 0),
        Some(Progress::Determinate { current, total }) => {
            let end: u32 = if total > 0x7fff_ffff {
                0x7fff_ffff
            } else {
                total
            };
            let done: u32 = if current > end {
                end
            } else {
                current
            };
            (done as i32, end as i32)
        },
    }
}

/// A time in milliseconds since the Unix epoch: -1 for none, 0 for one before it.
pub open spec fn when_code(timestamp: Option<Timestamp>) -> int {
    match timestamp {
        None => -1,
        Some(time) => if time.epoch_millis() > i64::MAX {
            i64::MAX as int
        } else {
            time.epoch_millis()
        },
    }
}

fn when_millis(timestamp: Option<Timestamp>) -> (r: i64)
    ensures
        r == when_code(timestamp),
{
    match timestamp {
        None => -1,
        Some(time) => {
            let nanos: i128 = time.instant_nanos();
            if nanos < 0 {
                0
            } else {
                let millis: i128 = nanos / 1_000_000;
                if millis > 0x7fff_ffff_ffff_ffff {
                    0x7fff_ffff_ffff_ffff
                } else {
                    millis as i64
                }
            }
        },
    }
}

/// How much the lock screen shows, in the Java side's terms: -2 to leave it to the user.
pub open spec fn visibility_code(visibility: Option<LockScreenVisibility>) -> int {
    match visibility {
        None => -2,
        Some(LockScreenVisibility::Public) => 0,
        Some(LockScreenVisibility::Private) => 1,
        Some(LockScreenVisibility::Secret) => 2,
    }
}

/// A number that the Java side can hold: -1 for none.
pub open spec fn badge_code(count: Option<u32>) -> int {
    match count {
        None => -1,
        Some(count) => if count > i32::MAX {
            i32::MAX as int
        } else {
            count as int
        },
    }
}

/// A message's time in milliseconds, as far as it fits.
pub open spec fn message_millis(timestamp_ms: u64) -> i64 {
    if timestamp_ms > i64::MAX {
        i64::MAX
    } else {
        timestamp_ms as i64
    }
}

/// What the Java side is told to show.
#[derive(Debug)]
pub struct ShowArguments {
    pub id: String,
    pub title: Option<String>,
    pub body: Option<String>,
    pub subtitle: Option<String>,
    pub channel_id: String,
    pub channel_name: String,
    pub channel_description: Option<String>,
    /// The id and the name of the channel's group, or nothing.
    pub channel_group: Vec<String>,
    pub importance: i32,
    pub silent: bool,
    pub bypass_dnd: bool,
    pub badge_count: i32,
    pub group: Option<String>,
    pub image: Option<String>,
    /// The id, the name and the icon of the conversation, or nothing.
    pub conversation: Vec<Option<String>>,
    pub group_conversation: bool,
    pub message_senders: Vec<String>,
    pub message_texts: Vec<String>,
    pub message_timestamps: Vec<i64>,
    pub progress_current: i32,
    pub progress_total: i32,
    pub when_ms: i64,
    pub persistent: bool,
    pub visibility: i32,
    pub metadata_keys: Vec<String>,
    pub metadata_values: Vec<String>,
    pub action_ids: Vec<String>,
    pub action_titles: Vec<String>,
    pub action_kinds: Vec<i32>,
    pub action_placeholders: Vec<Option<String>>,
    pub update_only: bool,
}

#[verifier::ext_equal]
pub struct ShowArgumentsModel {
    pub id: Seq<char>,
    pub title: Option<Seq<char>>,
    pub body: Option<Seq<char>>,
    pub subtitle: Option<Seq<char>>,
    pub channel_id: Seq<char>,
    pub channel_name: Seq<char>,
    pub channel_description: Option<Seq<char>>,
    pub channel_group: Seq<Seq<char>>,
    pub importance: i32,
    pub silent: bool,
    pub bypass_dnd: bool,
    pub badge_count: int,
    pub group: Option<Seq<char>>,
    pub image: Option<Seq<char>>,
    pub conversation: Seq<Option<Seq<char>>>,
    pub group_conversation: bool,
    pub message_senders: Seq<Seq<char>>,
    pub message_texts: Seq<Seq<char>>,
    pub message_timestamps: Seq<i64>,
    pub progress: (int, int),
    pub when_ms: int,
    pub persistent: bool,
    pub visibility: int,
    pub metadata_keys: Seq<Seq<char>>,
    pub metadata_values: Seq<Seq<char>>,
    pub action_ids: Seq<Seq<char>>,
    pub action_titles: Seq<Seq<char>>,
    pub action_kinds: Seq<i32>,
    pub action_placeholders: Seq<Option<Seq<char>>>,
    pub update_only: bool,
}

pub open spec fn opt_texts(list: Seq<Option<String>>) -> Seq<Option<Seq<char>>> {
    list.map_values(|text: Option<String>| text::opt_text(text))
}

impl View for ShowArguments {
    type V = ShowArgumentsModel;

    open spec fn view(&self) -> ShowArgumentsModel {
        ShowArgumentsModel {
            id: self.id@,
            title: text::opt_text(self.title),
            body: text::opt_text(self.body),
            subtitle: text::opt_text(self.subtitle),
            channel_id: self.channel_id@,
            channel_name: self.channel_name@,
            channel_description: text::opt_text(self.channel_description),
            channel_group: text::texts(self.channel_group@),
            importance: self.importance,
            silent: self.silent,
            bypass_dnd: self.bypass_dnd,
            badge_count: self.badge_count as int,
            group: text::opt_text(self.group),
            image: text::opt_text(self.image),
            conversation: opt_texts(self.conversation@),
            group_conversation: self.group_conversation,
            message_senders: text::texts(self.message_senders@),
            message_texts: text::texts(self.message_texts@),
            message_timestamps: self.message_timestamps@,
            progress: (self.progress_current as int, self.progress_total as int),
            when_ms: self.when_ms as int,
            persistent: self.persistent,
            visibility: self.visibility as int,
            metadata_keys: text::texts(self.metadata_keys@),
            metadata_values: text::texts(self.metadata_values@),
            action_ids: text::texts(self.action_ids@),
            action_titles: text::texts(self.action_titles@),
            action_kinds: self.action_kinds@,
            action_placeholders: opt_texts(self.action_placeholders@),
            update_only: self.update_only,
        }
    }
}

/// The urgency that a notification without a channel goes by.
pub open spec fn urgency_of(options: OptionsModel) -> Urgency {
    match options.urgency {
        Some(urgency) => urgency,
        None => Urgency::Normal,
    }
}

pub open spec fn channel_id_of(options: OptionsModel) -> Seq<char> {
    match options.channel {
        Some(channel) => channel.id@,
        None => default_channel_text(urgency_of(options)).0,
    }
}

pub open spec fn channel_name_of(options: OptionsModel) -> Seq<char> {
    match options.channel {
        Some(channel) => channel.name@,
        None => default_channel_text(urgency_of(options)).1,
    }
}

pub open spec fn importance_of(options: OptionsModel) -> i32 {
    match options.channel {
        Some(channel) => importance_code(channel.importance),
        None => importance_code(urgency_of(options)),
    }
}

pub open spec fn channel_group_of(options: OptionsModel) -> Seq<Seq<char>> {
    match options.channel {
        Some(channel) => match channel.group {
            Some(group) => seq![group.0@, group.1@],
            None => Seq::empty(),
        },
        None => Seq::empty(),
    }
}

/// A path in text, where it has one.
pub open spec fn path_text(path: Option<Seq<u8>>) -> Option<Seq<char>> {
    match path {
        Some(path) => path::as_text(path),
        None => None,
    }
}

/// A path that cannot be told to the Java side.
pub open spec fn untellable(path: Option<Seq<u8>>) -> bool {
    path is Some && path::as_text(path->0) is None
}

pub open spec fn icon_of(options: OptionsModel) -> Option<Seq<u8>> {
    match options.conversation {
        Some(conversation) => conversation.icon,
        None => None,
    }
}

pub open spec fn conversation_of(options: OptionsModel) -> Seq<Option<Seq<char>>> {
    match options.conversation {
        Some(conversation) => seq![
            Some(conversation.id),
            Some(conversation.name),
            path_text(conversation.icon),
        ],
        None => Seq::empty(),
    }
}

pub open spec fn kind_code(kind: ActionKind) -> i32 {
    match kind {
        ActionKind::Button => 0,
        ActionKind::Reply => 1,
    }
}

/// What the Java side is told to show.
pub open spec fn arguments_for(options: OptionsModel, update_only: bool) -> ShowArgumentsModel {
    ShowArgumentsModel {
        id: options.id,
        title: options.title,
        body: options.body,
        subtitle: options.subtitle,
        channel_id: channel_id_of(options),
        channel_name: channel_name_of(options),
        channel_description: match options.channel {
            Some(channel) => text::opt_text(channel.description),
            None => None,
        },
        channel_group: channel_group_of(options),
        importance: importance_of(options),
        silent: options.sound == Some(Sound::Silent),
        bypass_dnd: options.bypass_dnd,
        badge_count: badge_code(options.badge_count),
        group: options.group,
        image: path_text(options.image),
        conversation: conversation_of(options),
        group_conversation: options.conversation is Some
            && options.conversation->0.group_conversation,
        message_senders: Seq::new(
            options.conversation_messages.len(),
            |i: int| options.conversation_messages[i].sender,
        ),
        message_texts: Seq::new(
            options.conversation_messages.len(),
            |i: int| options.conversation_messages[i].text,
        ),
        message_timestamps: Seq::new(
            options.conversation_messages.len(),
            |i: int| message_millis(options.conversation_messages[i].timestamp_ms),
        ),
        progress: progress_codes(options.progress),
        when_ms: when_code(options.timestamp),
        persistent: options.persistent,
        visibility: visibility_code(options.lock_screen_visibility),
        metadata_keys: Seq::new(options.metadata.len(), |i: int| options.metadata[i].0),
        metadata_values: Seq::new(options.metadata.len(), |i: int| options.metadata[i].1),
        action_ids: Seq::new(options.actions.len(), |i: int| options.actions[i].id@),
        action_titles: Seq::new(options.actions.len(), |i: int| options.actions[i].title@),
        action_kinds: Seq::new(options.actions.len(), |i: int| kind_code(options.actions[i].kind)),
        action_placeholders: Seq::new(
            options.actions.len(),
            |i: int| text::opt_text(options.actions[i].placeholder),
        ),
        update_only,
    }
}

/// A path in text: an error where it has none.
fn told_path(path: &Option<FilePath>) -> (r: Result<Option<String>>)
    ensures
        r is Err <==> untellable(path::opt_path(*path)),
        r matches Err(error) ==> error == Error::InvalidNotification,
        r matches Ok(text) ==> text::opt_text(text) == path_text(path::opt_path(*path)),
{
    match path {
        Some(path) => match path.to_text() {
            Some(text) => Ok(Some(text)),
            None => Err(Error::InvalidNotification),
        },
        None => Ok(None),
    }
}

/// The three columns of a list of messages.
fn message_columns(messages: &Vec<ConversationMessage>) -> (r: (
    Vec<String>,
    Vec<String>,
    Vec<i64>,
))
    ensures
        r.0@.len() == messages@.len(),
        r.1@.len() == messages@.len(),
        r.2@.len() == messages@.len(),
        forall|i: int|
            0 <= i < messages@.len() ==> (#[trigger] r.0@[i]) == messages@[i].sender,
        forall|i: int| 0 <= i < messages@.len() ==> (#[trigger] r.1@[i]) == messages@[i].text,
        forall|i: int|
            0 <= i < messages@.len() ==> (#[trigger] r.2@[i]) == message_millis(
                messages@[i].timestamp_ms,
            ),
{
    let mut senders: Vec<String> = Vec::new();
    let mut texts: Vec<String> = Vec::new();
    let mut times: Vec<i64> = Vec::new();
    for i in 0..messages.len()
        invariant
            senders@.len() == i,
            texts@.len() == i,
            times@.len() == i,
            forall|k: int| 0 <= k < i ==> (#[trigger] senders@[k]) == messages@[k].sender,
            forall|k: int| 0 <= k < i ==> (#[trigger] texts@[k]) == messages@[k].text,
            forall|k: int|
                0 <= k < i ==> (#[trigger] times@[k]) == message_millis(messages@[k].timestamp_ms),
    {
        senders.push(messages[i].sender.clone());
        texts.push(messages[i].text.clone());
        let millis: u64 = messages[i].timestamp_ms;
        times.push(
            if millis > 0x7fff_ffff_ffff_ffff {
                0x7fff_ffff_ffff_ffff
            } else {
                millis as i64
            },
        );
    }
    (senders, texts, times)
}

/// The two columns of the metadata.
fn metadata_columns(metadata: &Vec<(String, String)>) -> (r: (Vec<String>, Vec<String>))
    ensures
        r.0@.len() == metadata@.len(),
        r.1@.len() == metadata@.len(),
        forall|i: int| 0 <= i < metadata@.len() ==> (#[trigger] r.0@[i]) == metadata@[i].0,
        forall|i: int| 0 <= i < metadata@.len() ==> (#[trigger] r.1@[i]) == metadata@[i].1,
{
    let mut keys: Vec<String> = Vec::new();
    let mut values: Vec<String> = Vec::new();
    for i in 0..metadata.len()
        invariant
            keys@.len() == i,
            values@.len() == i,
            forall|k: int| 0 <= k < i ==> (#[trigger] keys@[k]) == metadata@[k].0,
            forall|k: int| 0 <= k < i ==> (#[trigger] values@[k]) == metadata@[k].1,
    {
        keys.push(metadata[i].0.clone());
        values.push(metadata[i].1.clone());
    }
    (keys, values)
}

/// The four columns of the actions.
fn action_columns(actions: &Vec<Action>) -> (r: (
    Vec<String>,
    Vec<String>,
    Vec<i32>,
    Vec<Option<String>>,
))
    ensures
        r.0@.len() == actions@.len(),
        r.1@.len() == actions@.len(),
        r.2@.len() == actions@.len(),
        r.3@.len() == actions@.len(),
        forall|i: int| 0 <= i < actions@.len() ==> (#[trigger] r.0@[i]) == actions@[i].id,
        forall|i: int| 0 <= i < actions@.len() ==> (#[trigger] r.1@[i]) == actions@[i].title,
        forall|i: int|
            0 <= i < actions@.len() ==> (#[trigger] r.2@[i]) == kind_code(actions@[i].kind),
        forall|i: int| 0 <= i < actions@.len() ==> (#[trigger] r.3@[i]) == actions@[i].placeholder,
{
    let mut ids: Vec<String> = Vec::new();
    let mut titles: Vec<String> = Vec::new();
    let mut kinds: Vec<i32> = Vec::new();
    let mut placeholders: Vec<Option<String>> = Vec::new();
    for i in 0..actions.len()
        invariant
            ids@.len() == i,
            titles@.len() == i,
            kinds@.len() == i,
            placeholders@.len() == i,
            forall|k: int| 0 <= k < i ==> (#[trigger] ids@[k]) == actions@[k].id,
            forall|k: int| 0 <= k < i ==> (#[trigger] titles@[k]) == actions@[k].title,
            forall|k: int| 0 <= k < i ==> (#[trigger] kinds@[k]) == kind_code(actions@[k].kind),
            forall|k: int| 0 <= k < i ==> (#[trigger] placeholders@[k]) == actions@[k].placeholder,
    {
        ids.push(actions[i].id.clone());
        titles.push(actions[i].title.clone());
        kinds.push(
            match actions[i].kind {
                ActionKind::Button => 0,
                ActionKind::Reply => 1,
            },
        );
        placeholders.push(text::copy_opt(&actions[i].placeholder));
    }
    (ids, titles, kinds, placeholders)
}

/// Works out what the Java side is told to show. The paths of its images have to be text.
pub fn show_arguments(options: &NotificationOptions, update_only: bool) -> (r: Result<
    ShowArguments,
>)
    ensures
        r is Err <==> untellable(options@.image) || untellable(icon_of(options@)),
        r matches Err(error) ==> error == Error::InvalidNotification,
        r matches Ok(arguments) ==> arguments@ == arguments_for(options@, update_only),
{
    let urgency = match options.urgency {
        Some(urgency) => urgency,
        None => Urgency::Normal,
    };
    let (channel_id, channel_name, channel_description, channel_urgency) = match &options.channel {
        Some(channel) => (
            channel.id.clone(),
            channel.name.clone(),
            text::copy_opt(&channel.description),
            channel.importance,
        ),
        None => {
            let (id, name) = default_channel(urgency);
            (id.to_owned(), name.to_owned(), None, urgency)
        },
    };
    let importance: i32 = match channel_urgency {
        Urgency::Low => 0,
        Urgency::Normal => 1,
        Urgency::Critical => 2,
    };
    let silent = match &options.sound {
        Some(Sound::Silent) => true,
        _ => false,
    };
    let image = match told_path(&options.image) {
        Ok(image) => image,
        Err(error) => {
            return Err(error);
        },
    };
    let mut channel_group: Vec<String> = Vec::new();
    if let Some(channel) = &options.channel {
        if let Some((group_id, group_name)) = &channel.group {
            channel_group.push(group_id.clone());
            channel_group.push(group_name.clone());
        }
    }
    assert(text::texts(channel_group@) == channel_group_of(options@));
    let mut conversation: Vec<Option<String>> = Vec::new();
    let mut group_conversation = false;
    if let Some(about) = &options.conversation {
        let icon = match told_path(&about.icon) {
            Ok(icon) => icon,
            Err(error) => {
                return Err(error);
            },
        };
        conversation.push(Some(about.id.clone()));
        conversation.push(Some(about.name.clone()));
        conversation.push(icon);
        group_conversation = about.group_conversation;
    }
    assert(opt_texts(conversation@) == conversation_of(options@));
    let (message_senders, message_texts, message_timestamps) = message_columns(
        &options.conversation_messages,
    );
    let (progress_current, progress_total) = progress_numbers(options.progress);
    let visibility: i32 = match options.lock_screen_visibility {
        None => -2,
        Some(LockScreenVisibility::Public) => 0,
        Some(LockScreenVisibility::Private) => 1,
        Some(LockScreenVisibility::Secret) => 2,
    };
    let badge_count: i32 = match options.badge_count {
        None => -1,
        Some(count) => if count > 0x7fff_ffff {
            0x7fff_ffff
        } else {
            count as i32
        },
    };
    let (metadata_keys, metadata_values) = metadata_columns(&options.metadata);
    let (action_ids, action_titles, action_kinds, action_placeholders) = action_columns(
        &options.actions,
    );
    let arguments = ShowArguments {
        id: options.id.clone(),
        title: text::copy_opt(&options.title),
        body: text::copy_opt(&options.body),
        subtitle: text::copy_opt(&options.subtitle),
        channel_id,
        channel_name,
        channel_description,
        channel_group,
        importance,
        silent,
        bypass_dnd: options.bypass_dnd,
        badge_count,
        group: text::copy_opt(&options.group),
        image,
        conversation,
        group_conversation,
        message_senders,
        message_texts,
        message_timestamps,
        progress_current,
        progress_total,
        when_ms: when_millis(options.timestamp),
        persistent: options.persistent,
        visibility,
        metadata_keys,
        metadata_values,
        action_ids,
        action_titles,
        action_kinds,
        action_placeholders,
        update_only,
    };
    assert(arguments@ =~= arguments_for(options@, update_only));
    Ok(arguments)
}

/// A value of the Java side as a yes, a no, or neither.
pub open spec fn known_flag(value: i32) -> Option<bool> {
    if value == 0 {
        Some(false)
    } else if value == 1 {
        Some(true)
    } else {
        None
    }
}

pub fn settings_bool(value: i32) -> (r: Option<bool>)
    ensures
        r == known_flag(value),
{
    if value == 0 {
        Some(false)
    } else if value == 1 {
        Some(true)
    } else {
        None
    }
}

/// Settings as the Java side reports them, each -1 where it is not known.
#[derive(Clone, Copy, Debug, PartialEq, Eq, Structural)]
pub struct ReportedSettings {
    pub enabled: i32,
    pub urgency: i32,
    pub sound: i32,
    pub badge: i32,
    pub customized: i32,
    pub priority: i32,
}

/// The user's settings, as the Java side reports them: an error where it reports none.
pub fn settings_from(values: Option<ReportedSettings>) -> (r: Result<NotificationSettings>)
    ensures
        r == match values {
            Some(values) => Ok::<NotificationSettings, Error>(
                NotificationSettings {
                    enabled: values.enabled == 1,
                    urgency: if values.urgency == 0 {
                        Some(Urgency::Low)
                    } else if values.urgency == 1 {
                        Some(Urgency::Normal)
                    } else if values.urgency == 2 {
                        Some(Urgency::Critical)
                    } else {
                        None
                    },
                    sound_enabled: known_flag(values.sound),
                    badge_enabled: known_flag(values.badge),
                    customized_by_user: known_flag(values.customized),
                    priority_conversation: known_flag(values.priority),
                },
            ),
            None => Err(Error::Unknown),
        },
{
    match values {
        Some(values) => Ok(
            NotificationSettings {
                enabled: values.enabled == 1,
                urgency: match values.urgency {
                    0 => Some(Urgency::Low),
                    1 => Some(Urgency::Normal),
                    2 => Some(Urgency::Critical),
                    _ => None,
                },
                sound_enabled: settings_bool(values.sound),
                badge_enabled: settings_bool(values.badge),
                customized_by_user: settings_bool(values.customized),
                priority_conversation: settings_bool(values.priority),
            },
        ),
        None => Err(Error::Unknown),
    }
}

/// The channel and the conversation that a scope is about.
pub fn scope_ids(scope: &SettingsScope) -> (r: (Option<String>, Option<String>))
    ensures
        (text::opt_text(r.0), text::opt_text(r.1)) == match *scope {
            SettingsScope::App => (None, None),
            SettingsScope::Channel { channel_id } => (Some(channel_id@), None),
            SettingsScope::Conversation { channel_id, conversation_id } => (
                Some(channel_id@),
                Some(conversation_id@),
            ),
        },
{
    match scope {
        SettingsScope::App => (None, None),
        SettingsScope::Channel { channel_id } => (Some(channel_id.clone()), None),
        SettingsScope::Conversation { channel_id, conversation_id } => (
            Some(channel_id.clone()),
            Some(conversation_id.clone()),
        ),
    }
}

/// The texts that are there.
pub open spec fn present(list: Seq<Option<Seq<char>>>) -> Seq<Seq<char>>
    decreases list.len(),
{
    if list.len() == 0 {
        Seq::empty()
    } else {
        match list.last() {
            Some(text) => present(list.drop_last()).push(text),
            None => present(list.drop_last()),
        }
    }
}

/// The ids of the notifications on screen, as the Java side lists them: an error where it lists
/// none.
pub fn active_ids(listed: &Option<Vec<Option<String>>>) -> (r: Result<Vec<String>>)
    ensures
        match *listed {
            Some(list) => r matches Ok(ids) && text::texts(ids@) == present(opt_texts(list@)),
            None => r == Err::<Vec<String>, Error>(Error::Unknown),
        },
{
    match listed {
        Some(list) => {
            let mut ids: Vec<String> = Vec::new();
            let ghost all = opt_texts(list@);
            assert(text::texts(ids@) == Seq::<Seq<char>>::empty());
            for i in 0..list.len()
                invariant
                    all == opt_texts(list@),
                    text::texts(ids@) == present(all.take(i as int)),
            {
                let ghost before = text::texts(ids@);
                assert(all.take(i + 1).drop_last() == all.take(i as int));
                match &list[i] {
                    Some(id) => {
                        ids.push(id.clone());
                        assert(text::texts(ids@) == before.push(id@));
                    },
                    None => {},
                }
            }
            assert(all.take(all.len() as int) == all);
            Ok(ids)
        },
        None => Err(Error::Unknown),
    }
}

/// The first few pairs of two columns, without those that lack a key or a value.
pub open spec fn paired(
    keys: Seq<Option<Seq<char>>>,
    values: Seq<Option<Seq<char>>>,
    count: nat,
) -> Seq<(Seq<char>, Seq<char>)>
    decreases count,
{
    if count == 0 {
        Seq::empty()
    } else {
        let earlier = paired(keys, values, (count - 1) as nat);
        match (keys[count - 1], values[count - 1]) {
            (Some(key), Some(value)) => earlier.push((key, value)),
            _ => earlier,
        }
    }
}

/// The metadata in two columns: as far as both go.
pub open spec fn metadata_in(
    keys: Option<Seq<Option<Seq<char>>>>,
    values: Option<Seq<Option<Seq<char>>>>,
) -> Seq<(Seq<char>, Seq<char>)> {
    match (keys, values) {
        (Some(keys), Some(values)) => paired(
            keys,
            values,
            if keys.len() < values.len() {
                keys.len()
            } else {
                values.len()
            },
        ),
        _ => Seq::empty(),
    }
}

pub open spec fn opt_column(column: Option<Vec<Option<String>>>) -> Option<Seq<Option<Seq<char>>>> {
    match column {
        Some(column) => Some(opt_texts(column@)),
        None => None,
    }
}

/// Puts the two columns of metadata together again.
pub fn read_metadata(
    keys: &Option<Vec<Option<String>>>,
    values: &Option<Vec<Option<String>>>,
) -> (r: Vec<(String, String)>)
    ensures
        super::pairs(r@) == metadata_in(opt_column(*keys), opt_column(*values)),
{
    let mut metadata: Vec<(String, String)> = Vec::new();
    assert(super::pairs(metadata@) == Seq::<(Seq<char>, Seq<char>)>::empty());
    match (keys, values) {
        (Some(keys), Some(values)) => {
            let count: usize = if keys.len() < values.len() {
                keys.len()
            } else {
                values.len()
            };
            let ghost all_keys = opt_texts(keys@);
            let ghost all_values = opt_texts(values@);
            for i in 0..count
                invariant
                    count <= keys@.len(),
                    count <= values@.len(),
                    all_keys == opt_texts(keys@),
                    all_values == opt_texts(values@),
                    super::pairs(metadata@) == paired(all_keys, all_values, i as nat),
            {
                let ghost before = super::pairs(metadata@);
                match (&keys[i], &values[i]) {
                    (Some(key), Some(value)) => {
                        metadata.push((key.clone(), value.clone()));
                        assert(super::pairs(metadata@) == before.push((key@, value@)));
                    },
                    _ => {},
                }
            }
        },
        _ => {},
    }
    metadata
}

/// A text, or the empty one.
pub open spec fn or_empty(text: Option<Seq<char>>) -> Seq<char> {
    match text {
        Some(text) => text,
        None => Seq::empty(),
    }
}

fn text_or_empty(text: Option<String>) -> (r: String)
    ensures
        r@ == or_empty(text::opt_text(text)),
{
    match text {
        Some(text) => text,
        None => String::new(),
    }
}

/// What the user did, in the Java side's terms.
pub open spec fn kind_of(
    code: i32,
    action_id: Option<Seq<char>>,
    reply: Option<Seq<char>>,
) -> Option<KindModel> {
    if code == KIND_ACTIVATED {
        Some(KindModel::Activated)
    } else if code == KIND_DISMISSED {
        Some(KindModel::Dismissed)
    } else if code == KIND_ACTION {
        Some(KindModel::Action { id: or_empty(action_id) })
    } else if code == KIND_REPLY {
        Some(KindModel::Reply { action_id: or_empty(action_id), text: or_empty(reply) })
    } else {
        None
    }
}

/// What the user did, as the Java side reports it. A report without a notification, or of something
/// unheard of, is ignored.
pub fn interaction_from(
    notification_id: Option<String>,
    code: i32,
    action_id: Option<String>,
    reply: Option<String>,
    keys: &Option<Vec<Option<String>>>,
    values: &Option<Vec<Option<String>>>,
) -> (r: Option<Interaction>)
    ensures
        match r {
            Some(interaction) => Some(interaction@),
            None => None,
        } == match (
            notification_id,
            kind_of(code, text::opt_text(action_id), text::opt_text(reply)),
        ) {
            (Some(id), Some(kind)) => Some(
                InteractionModel {
                    notification_id: id@,
                    kind,
                    metadata: metadata_in(opt_column(*keys), opt_column(*values)),
                },
            ),
            _ => None,
        },
{
    let notification_id = match notification_id {
        Some(id) => id,
        None => {
            return None;
        },
    };
    let kind = if code == KIND_ACTIVATED {
        InteractionKind::Activated
    } else if code == KIND_DISMISSED {
        InteractionKind::Dismissed
    } else if code == KIND_ACTION {
        InteractionKind::Action { id: text_or_empty(action_id) }
    } else if code == KIND_REPLY {
        InteractionKind::Reply { action_id: text_or_empty(action_id), text: text_or_empty(reply) }
    } else {
        return None;
    };
    Some(Interaction { notification_id, kind, metadata: read_metadata(keys, values) })
}

/// The texts of a column, all of them there.
pub open spec fn all_present(column: Seq<Seq<char>>) -> Seq<Option<Seq<char>>> {
    column.map_values(|text: Seq<char>| Some(text))
}

/// The metadata that goes out with a notification comes back with every interaction: all the pairs,
/// in order.
pub proof fn metadata_comes_back(options: OptionsModel, update_only: bool)
    ensures
        metadata_in(
            Some(all_present(arguments_for(options, update_only).metadata_keys)),
            Some(all_present(arguments_for(options, update_only).metadata_values)),
        ) == options.metadata,
{
    let keys = all_present(arguments_for(options, update_only).metadata_keys);
    let values = all_present(arguments_for(options, update_only).metadata_values);
    columns_come_back(options.metadata, keys, values, options.metadata.len());
    assert(options.metadata.take(options.metadata.len() as int) == options.metadata);
}

proof fn columns_come_back(
    metadata: Seq<(Seq<char>, Seq<char>)>,
    keys: Seq<Option<Seq<char>>>,
    values: Seq<Option<Seq<char>>>,
    count: nat,
)
    requires
        count <= metadata.len(),
        keys.len() == metadata.len(),
        values.len() == metadata.len(),
        forall|i: int| 0 <= i < metadata.len() ==> #[trigger] keys[i] == Some(metadata[i].0),
        forall|i: int| 0 <= i < metadata.len() ==> #[trigger] values[i] == Some(metadata[i].1),
    ensures
        paired(keys, values, count) == metadata.take(count as int),
    decreases count,
{
    if count > 0 {
        columns_come_back(metadata, keys, values, (count - 1) as nat);
        assert(keys[count - 1] == Some(metadata[count - 1].0));
        assert(values[count - 1] == Some(metadata[count - 1].1));
        assert(metadata.take(count as int) == metadata.take(count - 1).push(metadata[count - 1]));
    } else {
        assert(metadata.take(0) == Seq::<(Seq<char>, Seq<char>)>::empty());
    }
}

} // verus!

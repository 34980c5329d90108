//! Notifications on Linux: the `org.freedesktop.Notifications` service.

use super::options::{Action, ActionKind, NotificationOptions, OptionsModel};
use super::{
    copy_pairs, Error, Interaction, InteractionKind, InteractionModel, KindModel,
    NotificationSettings, Progress, Result, Sound, Urgency,
};
use crate::bus;
use crate::bus::{BusError, BusFailure};
use crate::path;
use crate::path::FilePath;
use crate::sorted;
use crate::table;
use crate::table::{Table, TableKey};
use crate::text;
use crate::time::TimeSpan;
use vstd::prelude::*;

verus! {

pub const DESTINATION: &'static str = "org.freedesktop.Notifications";

pub const OBJECT_PATH: &'static str = "/org/freedesktop/Notifications";

/// How long, in seconds, the daemon may take to answer.
pub const METHOD_TIMEOUT: u64 = 25;

/// What application action ids begin with on the wire, so that none is taken for one of the
/// reserved keys.
pub const ACTION_ID_PREFIX: &'static str = "app.";

/// The key of the action that a click on the notification itself invokes.
pub const DEFAULT_KEY: &'static str = "default";

/// The key of the action that is shown as a reply field.
pub const INLINE_REPLY_KEY: &'static str = "inline-reply";

/// What the daemon can do.
#[derive(Clone, Copy, Debug, PartialEq, Eq, Structural)]
pub struct Capabilities {
    pub actions: bool,
    pub body_markup: bool,
    pub inline_reply: bool,
}

/// What a daemon with these capabilities can do.
pub open spec fn capabilities_in(list: Seq<String>) -> Capabilities {
    Capabilities {
        actions: text::texts(list).contains("actions"@),
        body_markup: text::texts(list).contains("body-markup"@),
        inline_reply: text::texts(list).contains("inline-reply"@),
    }
}

fn lists(list: &Vec<String>, item: &str) -> (r: bool)
    ensures
        r == text::texts(list@).contains(item@),
{
    for i in 0..list.len()
        invariant
            forall|j: int| 0 <= j < i ==> (#[trigger] text::texts(list@)[j]) != item@,
    {
        if text::same(list[i].as_str(), item) {
            assert(text::texts(list@)[i as int] == item@);
            return true;
        }
    }
    false
}

/// The name of the error says that there is no notification daemon.
pub open spec fn no_daemon(name: Seq<char>) -> bool {
    ||| name == "org.freedesktop.DBus.Error.ServiceUnknown"@
    ||| name == "org.freedesktop.DBus.Error.NameHasNoOwner"@
}

fn says_no_daemon(name: &str) -> (r: bool)
    ensures
        r == no_daemon(name@),
{
    text::same(name, "org.freedesktop.DBus.Error.ServiceUnknown") || text::same(
        name,
        "org.freedesktop.DBus.Error.NameHasNoOwner",
    )
}

/// What a failure on the bus means for notifications.
pub open spec fn bus_failure(error: BusFailure) -> Error {
    match error {
        BusFailure::Method(name) => if no_daemon(name) {
            Error::NoService
        } else {
            Error::DBus
        },
        BusFailure::Standard(name) => if no_daemon(name) {
            Error::NoService
        } else {
            Error::DBus
        },
        _ => Error::DBus,
    }
}

/// What a failure on the bus means for notifications: without a daemon there is no service.
pub fn map_bus_error(error: &BusError) -> (r: Error)
    ensures
        r == bus_failure(error@),
{
    let missing = match error {
        BusError::Method(name) => says_no_daemon(name.as_str()),
        BusError::Standard(name) => says_no_daemon(name.as_str()),
        _ => false,
    };
    if missing {
        Error::NoService
    } else {
        Error::DBus
    }
}

/// What came of a call to the daemon.
pub fn map_zbus_error<T>(result: std::result::Result<T, zbus::Error>) -> (r: Result<T>)
    ensures
        r == match result {
            Ok(value) => Ok(value),
            Err(error) => Err(bus_failure(bus::described(error))),
        },
{
    match bus::outcome(result) {
        Ok(value) => Ok(value),
        Err(error) => Err(map_bus_error(&error)),
    }
}

/// What came of closing a notification. A daemon may answer with an error where the notification is
/// already gone; that is fine.
pub fn close_outcome(result: std::result::Result<(), BusError>) -> (r: Result<()>)
    ensures
        r == match result {
            Ok(_) => Ok::<(), Error>(()),
            Err(error) => if error is Method && bus_failure(error@) == Error::DBus {
                Ok(())
            } else {
                Err(bus_failure(error@))
            },
        },
{
    match result {
        Ok(_) => Ok(()),
        Err(error) => match map_bus_error(&error) {
            Error::DBus => match error {
                BusError::Method(_) => Ok(()),
                _ => Err(Error::DBus),
            },
            other => Err(other),
        },
    }
}

/// What a character is written as where the daemon reads markup.
pub open spec fn markup_char(c: char) -> Seq<char> {
    if c == '&' {
        "&amp;"@
    } else if c == '<' {
        "&lt;"@
    } else if c == '>' {
        "&gt;"@
    } else {
        seq![c]
    }
}

/// The text, written so that a daemon that reads markup shows just it.
pub open spec fn markup_text(text: Seq<char>) -> Seq<char>
    decreases text.len(),
{
    if text.len() == 0 {
        Seq::empty()
    } else {
        markup_text(text.drop_last()) + markup_char(text.last())
    }
}

/// The text, written so that a daemon that reads markup shows just it.
pub fn escape_markup(text: &str) -> (r: String)
    ensures
        r@ == markup_text(text@),
{
    let chars = text::chars_of(text);
    let mut out = String::new();
    for i in 0..chars.len()
        invariant
            out@ == markup_text(chars@.take(i as int)),
    {
        let c = chars[i];
        match c {
            '&' => out.append("&amp;"),
            '<' => out.append("&lt;"),
            '>' => out.append("&gt;"),
            _ => out.push(c),
        }
        proof {
            assert(chars@.take(i + 1).drop_last() == chars@.take(i as int));
            assert(out@ == markup_text(chars@.take(i as int)) + markup_char(c));
        }
    }
    assert(chars@.take(chars@.len() as int) == chars@);
    out
}

/// The text as it goes into the body.
pub open spec fn body_text(text: Seq<char>, capabilities: Capabilities) -> Seq<char> {
    if capabilities.body_markup {
        markup_text(text)
    } else {
        text
    }
}

fn body_line(text: &String, capabilities: Capabilities) -> (r: String)
    ensures
        r@ == body_text(text@, capabilities),
{
    if capabilities.body_markup {
        escape_markup(text.as_str())
    } else {
        text.clone()
    }
}

/// The most prominent line: the title, or the body where there is no title.
pub open spec fn summary_of(options: OptionsModel) -> Seq<char> {
    if !super::options::missing(options.title) {
        options.title->0
    } else if options.body is Some {
        options.body->0
    } else {
        Seq::empty()
    }
}

/// What stands below it: the body, unless that is already the summary, and the subtitle.
pub open spec fn body_of(options: OptionsModel, capabilities: Capabilities) -> Seq<char> {
    let below = if !super::options::missing(options.title) {
        options.body
    } else {
        None
    };
    match (below, options.subtitle) {
        (Some(body), Some(subtitle)) => body_text(body, capabilities) + "\n"@ + body_text(
            subtitle,
            capabilities,
        ),
        (Some(body), None) => body_text(body, capabilities),
        (None, Some(subtitle)) => body_text(subtitle, capabilities),
        (None, None) => Seq::empty(),
    }
}

/// The first quick-reply action.
pub open spec fn first_reply(actions: Seq<Action>) -> Option<int>
    decreases actions.len(),
{
    if actions.len() == 0 {
        None
    } else {
        match first_reply(actions.drop_last()) {
            Some(index) => Some(index),
            None => if actions.last().kind == ActionKind::Reply {
                Some(actions.len() - 1)
            } else {
                None
            },
        }
    }
}

/// The action that is shown as a reply field.
pub open spec fn inline_reply(actions: Seq<Action>, capabilities: Capabilities) -> Option<int> {
    if capabilities.actions && capabilities.inline_reply {
        first_reply(actions)
    } else {
        None
    }
}

/// The id of the action that is shown as a reply field.
pub open spec fn inline_reply_id(actions: Seq<Action>, capabilities: Capabilities) -> Option<
    Seq<char>,
> {
    match inline_reply(actions, capabilities) {
        Some(index) => Some(actions[index].id@),
        None => None,
    }
}

/// What an action is called on the wire.
pub open spec fn wire_key(actions: Seq<Action>, index: int, capabilities: Capabilities) -> Seq<
    char,
> {
    if inline_reply(actions, capabilities) == Some(index) {
        INLINE_REPLY_KEY@
    } else {
        ACTION_ID_PREFIX@ + actions[index].id@
    }
}

/// Keys and labels of the actions, in turn.
pub open spec fn wire_actions(actions: Seq<Action>, capabilities: Capabilities) -> Seq<Seq<char>> {
    if capabilities.actions {
        Seq::new(
            2 + 2 * actions.len(),
            |k: int|
                if k == 0 {
                    DEFAULT_KEY@
                } else if k == 1 {
                    "Open"@
                } else if k % 2 == 0 {
                    wire_key(actions, k / 2 - 1, capabilities)
                } else {
                    actions[k / 2 - 1].title@
                },
        )
    } else {
        Seq::empty()
    }
}

/// What the daemon is told on top of text and actions.
#[derive(Clone, Debug, PartialEq, Eq)]
pub enum HintValue {
    Byte(u8),
    Flag(bool),
    Number(i32),
    Text(String),
}

#[derive(Clone, Debug, PartialEq, Eq)]
pub struct Hint {
    pub name: &'static str,
    pub value: HintValue,
}

pub enum HintValueModel {
    Byte(u8),
    Flag(bool),
    Number(int),
    Text(Seq<char>),
}

pub struct HintModel {
    pub name: Seq<char>,
    pub value: HintValueModel,
}

impl View for Hint {
    type V = HintModel;

    open spec fn view(&self) -> HintModel {
        HintModel {
            name: self.name@,
            value: match self.value {
                HintValue::Byte(byte) => HintValueModel::Byte(byte),
                HintValue::Flag(flag) => HintValueModel::Flag(flag),
                HintValue::Number(number) => HintValueModel::Number(number as int),
                HintValue::Text(text) => HintValueModel::Text(text@),
            },
        }
    }
}

pub open spec fn hint_models(hints: Seq<Hint>) -> Seq<HintModel> {
    hints.map_values(|hint: Hint| hint@)
}

pub open spec fn byte_hint(name: Seq<char>, byte: u8) -> HintModel {
    HintModel { name, value: HintValueModel::Byte(byte) }
}

pub open spec fn flag_hint(name: Seq<char>) -> HintModel {
    HintModel { name, value: HintValueModel::Flag(true) }
}

pub open spec fn text_hint(name: Seq<char>, text: Seq<char>) -> HintModel {
    HintModel { name, value: HintValueModel::Text(text) }
}

/// One hint, or none.
pub open spec fn hint_if(condition: bool, hint: HintModel) -> Seq<HintModel> {
    if condition {
        seq![hint]
    } else {
        Seq::empty()
    }
}

/// A text hint where there is a text.
pub open spec fn hint_of(name: Seq<char>, text: Option<Seq<char>>) -> Seq<HintModel> {
    match text {
        Some(text) => seq![text_hint(name, text)],
        None => Seq::empty(),
    }
}

pub open spec fn urgency_byte(urgency: Option<Urgency>) -> u8 {
    match urgency {
        Some(Urgency::Low) => 0,
        Some(Urgency::Critical) => 2,
        _ => 1,
    }
}

/// How much is done, in percent: at most all of it.
pub open spec fn percent(current: u32, total: u32) -> int {
    if current as int * 100 / total as int > 100 {
        100
    } else {
        current as int * 100 / total as int
    }
}

pub open spec fn progress_hint(progress: Option<Progress>) -> Seq<HintModel> {
    match progress {
        Some(Progress::Determinate { current, total }) => seq![
            HintModel {
                name: "value"@,
                value: HintValueModel::Number(percent(current, total)),
            },
        ],
        _ => Seq::empty(),
    }
}

pub open spec fn sound_hint(sound: Option<Sound>) -> Seq<HintModel> {
    match sound {
        Some(Sound::Silent) => seq![flag_hint("suppress-sound"@)],
        Some(Sound::Named(name)) => seq![text_hint("sound-name"@, name@)],
        _ => Seq::empty(),
    }
}

/// What the empty reply field says.
pub open spec fn reply_placeholder(actions: Seq<Action>, capabilities: Capabilities) -> Option<
    Seq<char>,
> {
    match inline_reply(actions, capabilities) {
        Some(index) => text::opt_text(actions[index].placeholder),
        None => None,
    }
}

/// All the hints for a notification whose image, if any, is at this path.
pub open spec fn hints_of(
    options: OptionsModel,
    capabilities: Capabilities,
    app_id: Option<Seq<char>>,
    image: Option<Seq<u8>>,
) -> Seq<HintModel> {
    seq![byte_hint("urgency"@, urgency_byte(options.urgency))] + hint_of("desktop-entry"@, app_id)
        + hint_if(options.conversation is Some, text_hint("category"@, "im.received"@)) + hint_of(
        "image-path"@,
        match image {
            Some(path) => Some(path::lossy_text(path)),
            None => None,
        },
    ) + sound_hint(options.sound) + hint_of(
        "x-kde-reply-placeholder-text"@,
        reply_placeholder(options.actions, capabilities),
    ) + progress_hint(options.progress) + hint_if(options.persistent, flag_hint("resident"@))
}

/// How many milliseconds the daemon is to show the notification: zero for no limit, -1 to leave it
/// to the daemon.
pub open spec fn expire_timeout(persistent: bool, timeout: Option<TimeSpan>) -> int {
    if persistent {
        0
    } else {
        match timeout {
            Some(timeout) => {
                let millis = timeout.length() / 1_000_000;
                if millis < 1 {
                    1
                } else if millis > i32::MAX {
                    i32::MAX as int
                } else {
                    millis
                }
            },
            None => -1,
        }
    }
}

fn expiry(persistent: bool, timeout: &Option<TimeSpan>) -> (r: i32)
    ensures
        r == expire_timeout(persistent, *timeout),
{
    if persistent {
        return 0;
    }
    match timeout {
        Some(timeout) => {
            let millis: u128 = timeout.length_nanos() / 1_000_000;
            if millis < 1 {
                1
            } else if millis > 2_147_483_647 {
                2_147_483_647
            } else {
                millis as i32
            }
        },
        None => -1,
    }
}

/// What the daemon shows as the application's name: its id, or the name of its executable.
pub open spec fn app_name_text(app_id: Option<Seq<char>>, executable: Option<Seq<u8>>) -> Seq<
    char,
> {
    match app_id {
        Some(id) => id,
        None => match executable {
            Some(path) => match path::lossy_stem_text(path, path::PathStyle::Unix) {
                Some(stem) => stem,
                None => Seq::empty(),
            },
            None => Seq::empty(),
        },
    }
}

/// What the daemon shows as the application's name: its id, or the name of its executable.
pub fn app_name(app_id: &Option<String>, executable: &Option<FilePath>) -> (r: String)
    ensures
        r@ == app_name_text(text::opt_text(*app_id), path::opt_path(*executable)),
{
    match app_id {
        Some(id) => id.clone(),
        None => match executable {
            Some(path) => match path.lossy_stem(path::PathStyle::Unix) {
                Some(stem) => stem,
                None => String::new(),
            },
            None => String::new(),
        },
    }
}

/// A call of the daemon's `Notify` method.
#[derive(Debug)]
pub struct NotifyCall {
    pub app_name: String,
    /// The notification that this one replaces; zero for none.
    pub replaces_id: u32,
    pub summary: String,
    pub body: String,
    pub actions: Vec<String>,
    pub hints: Vec<Hint>,
    pub expire_timeout: i32,
    /// The action that is shown as a reply field.
    pub reply_action_id: Option<String>,
}

pub struct NotifyModel {
    pub app_name: Seq<char>,
    pub replaces_id: u32,
    pub summary: Seq<char>,
    pub body: Seq<char>,
    pub actions: Seq<Seq<char>>,
    pub hints: Seq<HintModel>,
    pub expire_timeout: int,
    pub reply_action_id: Option<Seq<char>>,
}

impl View for NotifyCall {
    type V = NotifyModel;

    open spec fn view(&self) -> NotifyModel {
        NotifyModel {
            app_name: self.app_name@,
            replaces_id: self.replaces_id,
            summary: self.summary@,
            body: self.body@,
            actions: text::texts(self.actions@),
            hints: hint_models(self.hints@),
            expire_timeout: self.expire_timeout as int,
            reply_action_id: text::opt_text(self.reply_action_id),
        }
    }
}

/// What is remembered of a shown notification, for the signals about it.
#[derive(Debug)]
pub struct Shown {
    pub id: String,
    pub metadata: Vec<(String, String)>,
    pub reply_action_id: Option<String>,
}

#[verifier::ext_equal]
pub struct ShownModel {
    pub id: Seq<char>,
    pub metadata: Seq<(Seq<char>, Seq<char>)>,
    pub reply_action_id: Option<Seq<char>>,
}

impl View for Shown {
    type V = ShownModel;

    open spec fn view(&self) -> ShownModel {
        ShownModel {
            id: self.id@,
            metadata: super::pairs(self.metadata@),
            reply_action_id: text::opt_text(self.reply_action_id),
        }
    }
}

/// What is known about the daemon and what it shows.
#[derive(Debug)]
pub struct Daemon {
    /// For each of our ids, the daemon's.
    server_ids: Table<String, u32>,
    /// For each of the daemon's ids, what we know of it.
    shown: Table<u32, Shown>,
    capabilities: Option<Capabilities>,
}

#[verifier::ext_equal]
pub struct DaemonModel {
    pub server_ids: Map<Seq<char>, u32>,
    pub shown: Map<u32, ShownModel>,
    pub capabilities: Option<Capabilities>,
}

pub open spec fn shown_in(map: Map<u32, Shown>) -> Map<u32, ShownModel> {
    Map::new(|id: u32| map.dom().contains(id), |id: u32| map[id]@)
}

impl View for Daemon {
    type V = DaemonModel;

    closed spec fn view(&self) -> DaemonModel {
        DaemonModel {
            server_ids: self.server_ids@,
            shown: shown_in(self.shown@),
            capabilities: self.capabilities,
        }
    }
}

/// What a signal of the daemon says.
#[derive(Debug)]
pub enum Signal {
    ActionInvoked { server_id: u32, key: String },
    NotificationReplied { server_id: u32, text: String },
    NotificationClosed { server_id: u32, reason: u32 },
}

/// The reason given where the user dismissed a notification.
pub const DISMISSED_BY_USER: u32 = 2;

/// Which action a key on the wire stands for.
pub open spec fn invoked(key: Seq<char>, reply_action_id: Option<Seq<char>>) -> KindModel {
    if key == DEFAULT_KEY@ {
        KindModel::Activated
    } else if key == INLINE_REPLY_KEY@ {
        KindModel::Action {
            id: match reply_action_id {
                Some(id) => id,
                None => key,
            },
        }
    } else if text::begins_with(key, ACTION_ID_PREFIX@) {
        KindModel::Action {
            id: key.subrange(ACTION_ID_PREFIX@.len() as int, key.len() as int),
        }
    } else {
        KindModel::Action { id: key }
    }
}

fn invoked_kind(key: &String, reply_action_id: &Option<String>) -> (r: InteractionKind)
    ensures
        r@ == invoked(key@, text::opt_text(*reply_action_id)),
{
    if text::same(key.as_str(), DEFAULT_KEY) {
        InteractionKind::Activated
    } else if text::same(key.as_str(), INLINE_REPLY_KEY) {
        InteractionKind::Action {
            id: match reply_action_id {
                Some(id) => id.clone(),
                None => key.clone(),
            },
        }
    } else {
        InteractionKind::Action {
            id: match text::strip_prefix(key.as_str(), ACTION_ID_PREFIX) {
                Some(id) => id,
                None => key.clone(),
            },
        }
    }
}

pub open spec fn interaction_with(shown: ShownModel, kind: KindModel) -> InteractionModel {
    InteractionModel { notification_id: shown.id, kind, metadata: shown.metadata }
}

impl DaemonModel {
    pub open spec fn empty() -> DaemonModel {
        DaemonModel { server_ids: Map::empty(), shown: Map::empty(), capabilities: None }
    }

    /// The daemon's id for a notification; zero for none.
    pub open spec fn server_id(self, id: Seq<char>) -> u32 {
        if self.server_ids.dom().contains(id) {
            self.server_ids[id]
        } else {
            0
        }
    }

    /// The call that shows a notification.
    pub open spec fn call(
        self,
        options: OptionsModel,
        capabilities: Capabilities,
        app_id: Option<Seq<char>>,
        executable: Option<Seq<u8>>,
        image: Option<Seq<u8>>,
    ) -> NotifyModel {
        NotifyModel {
            app_name: app_name_text(app_id, executable),
            replaces_id: self.server_id(options.id),
            summary: summary_of(options),
            body: body_of(options, capabilities),
            actions: wire_actions(options.actions, capabilities),
            hints: hints_of(options, capabilities, app_id, image),
            expire_timeout: expire_timeout(options.persistent, options.timeout),
            reply_action_id: inline_reply_id(options.actions, capabilities),
        }
    }

    /// The daemon shows a notification under this id of its own.
    pub open spec fn record(self, shown: ShownModel, replaces_id: u32, server_id: u32) -> DaemonModel {
        let kept = if replaces_id != 0 && replaces_id != server_id {
            self.shown.remove(replaces_id)
        } else {
            self.shown
        };
        DaemonModel {
            server_ids: self.server_ids.insert(shown.id, server_id),
            shown: kept.insert(server_id, shown),
            ..self
        }
    }

    /// The daemon does not show this notification any more.
    pub open spec fn forget(self, server_id: u32) -> DaemonModel {
        if self.shown.dom().contains(server_id) {
            let id = self.shown[server_id].id;
            DaemonModel {
                server_ids: if self.server_ids.dom().contains(id) && self.server_ids[id]
                    == server_id {
                    self.server_ids.remove(id)
                } else {
                    self.server_ids
                },
                shown: self.shown.remove(server_id),
                ..self
            }
        } else {
            self
        }
    }

    /// A restarted daemon shows nothing of ours.
    pub open spec fn forget_all(self) -> DaemonModel {
        DaemonModel { server_ids: Map::empty(), shown: Map::empty(), ..self }
    }

    /// What the application learns from a signal. Signals about what we did not show are ignored.
    pub open spec fn interaction(self, signal: Signal) -> Option<InteractionModel> {
        match signal {
            Signal::ActionInvoked { server_id, key } => if self.shown.dom().contains(server_id) {
                let shown = self.shown[server_id];
                Some(interaction_with(shown, invoked(key@, shown.reply_action_id)))
            } else {
                None
            },
            Signal::NotificationReplied { server_id, text } => if self.shown.dom().contains(
                server_id,
            ) {
                let shown = self.shown[server_id];
                match shown.reply_action_id {
                    Some(action_id) => Some(
                        interaction_with(shown, KindModel::Reply { action_id, text: text@ }),
                    ),
                    None => None,
                }
            } else {
                None
            },
            Signal::NotificationClosed { server_id, reason } => if self.shown.dom().contains(
                server_id,
            ) && reason == DISMISSED_BY_USER {
                Some(interaction_with(self.shown[server_id], KindModel::Dismissed))
            } else {
                None
            },
        }
    }

    pub open spec fn after_signal(self, signal: Signal) -> DaemonModel {
        match signal {
            Signal::NotificationClosed { server_id, .. } => self.forget(server_id),
            _ => self,
        }
    }

    /// Some notification on screen has this id.
    pub open spec fn shows(self, id: Seq<char>) -> bool {
        exists|server_id: u32| #[trigger]
            self.shown.dom().contains(server_id) && self.shown[server_id].id == id
    }
}

proof fn shown_after_insert(map: Map<u32, Shown>, id: u32, shown: Shown)
    ensures
        shown_in(map.insert(id, shown)) == shown_in(map).insert(id, shown@),
{
    assert(shown_in(map.insert(id, shown)) =~= shown_in(map).insert(id, shown@));
}

proof fn shown_after_remove(map: Map<u32, Shown>, id: u32)
    ensures
        shown_in(map.remove(id)) == shown_in(map).remove(id),
{
    assert(shown_in(map.remove(id)) =~= shown_in(map).remove(id));
}

fn push_hint(hints: &mut Vec<Hint>, name: &'static str, value: HintValue)
    ensures
        hint_models(final(hints)@) == hint_models(old(hints)@) + seq![Hint { name, value }@],
{
    hints.push(Hint { name, value });
    assert(hint_models(hints@) == hint_models(old(hints)@) + seq![Hint { name, value }@]);
}

fn push_text_hint(hints: &mut Vec<Hint>, name: &'static str, text: &Option<String>)
    ensures
        hint_models(final(hints)@) == hint_models(old(hints)@) + hint_of(
            name@,
            text::opt_text(*text),
        ),
{
    match text {
        Some(text) => {
            push_hint(hints, name, HintValue::Text(text.clone()));
        },
        None => {
            assert(hint_models(hints@) + Seq::<HintModel>::empty() == hint_models(hints@));
        },
    }
}

fn push_flag_hint(hints: &mut Vec<Hint>, name: &'static str, condition: bool)
    ensures
        hint_models(final(hints)@) == hint_models(old(hints)@) + hint_if(
            condition,
            flag_hint(name@),
        ),
{
    if condition {
        push_hint(hints, name, HintValue::Flag(true));
    } else {
        assert(hint_models(hints@) + Seq::<HintModel>::empty() == hint_models(hints@));
    }
}

fn push_sound_hint(hints: &mut Vec<Hint>, sound: &Option<Sound>)
    ensures
        hint_models(final(hints)@) == hint_models(old(hints)@) + sound_hint(*sound),
{
    match sound {
        Some(Sound::Silent) => {
            push_hint(hints, "suppress-sound", HintValue::Flag(true));
        },
        Some(Sound::Named(name)) => {
            push_hint(hints, "sound-name", HintValue::Text(name.clone()));
        },
        _ => {
            assert(hint_models(hints@) + Seq::<HintModel>::empty() == hint_models(hints@));
        },
    }
}

fn push_progress_hint(hints: &mut Vec<Hint>, progress: Option<Progress>)
    requires
        !(progress matches Some(progress) && super::zero_total(progress)),
    ensures
        hint_models(final(hints)@) == hint_models(old(hints)@) + progress_hint(progress),
{
    match progress {
        Some(Progress::Determinate { current, total }) => {
            let done: u64 = current as u64 * 100 / total as u64;
            let shown: i32 = if done > 100 {
                100
            } else {
                done as i32
            };
            push_hint(hints, "value", HintValue::Number(shown));
        },
        _ => {
            assert(hint_models(hints@) + Seq::<HintModel>::empty() == hint_models(hints@));
        },
    }
}

/// The keys and labels of the actions, and which of them is shown as a reply field.
fn actions_on_wire(actions: &Vec<Action>, capabilities: Capabilities) -> (r: (
    Vec<String>,
    Option<usize>,
))
    ensures
        text::texts(r.0@) == wire_actions(actions@, capabilities),
        r.1 matches Some(index) ==> index < actions@.len(),
        inline_reply(actions@, capabilities) == match r.1 {
            Some(index) => Some(index as int),
            None => None,
        },
{
    let mut list: Vec<String> = Vec::new();
    let mut reply: Option<usize> = None;
    if !capabilities.actions {
        assert(text::texts(list@) == Seq::<Seq<char>>::empty());
        return (list, reply);
    }
    list.push(DEFAULT_KEY.to_owned());
    list.push("Open".to_owned());
    for i in 0..actions.len()
        invariant
            capabilities.actions,
            reply matches Some(index) ==> index < i,
            inline_reply(actions@.take(i as int), capabilities) == match reply {
                Some(index) => Some(index as int),
                None => None,
            },
            text::texts(list@) == wire_actions(actions@.take(i as int), capabilities),
    {
        let ghost seen = actions@.take(i as int);
        let ghost longer = actions@.take(i + 1);
        let ghost before = text::texts(list@);
        proof {
            assert(longer.drop_last() == seen);
        }
        let action = &actions[i];
        let inline = action.kind == ActionKind::Reply && capabilities.inline_reply
            && reply.is_none();
        if inline {
            reply = Some(i);
            list.push(INLINE_REPLY_KEY.to_owned());
        } else {
            let mut key = ACTION_ID_PREFIX.to_owned();
            key.append(action.id.as_str());
            list.push(key);
        }
        list.push(action.title.clone());
        proof {
            assert(text::texts(list@) == before.push(wire_key(longer, i as int, capabilities)).push(
                action.title@,
            ));
            assert forall|k: int| 0 <= k < i implies wire_key(seen, k, capabilities) == wire_key(
                longer,
                k,
                capabilities,
            ) by {
                first_reply_is_inside(seen);
            }
            assert(wire_actions(longer, capabilities) =~= before.push(
                wire_key(longer, i as int, capabilities),
            ).push(action.title@));
        }
    }
    assert(actions@.take(actions@.len() as int) == actions@);
    (list, reply)
}

/// The first quick-reply action is one of the actions.
pub proof fn first_reply_is_inside(actions: Seq<Action>)
    ensures
        first_reply(actions) matches Some(index) ==> 0 <= index < actions.len()
            && actions[index].kind == ActionKind::Reply,
    decreases actions.len(),
{
    if actions.len() > 0 {
        first_reply_is_inside(actions.drop_last());
    }
}

/// The list holds what the map has for each of its keys, once, in the order of `ids`.
pub open spec fn lists_values(
    list: Seq<u32>,
    map: Map<Seq<char>, u32>,
    ids: Seq<Seq<char>>,
) -> bool {
    &&& ids.no_duplicates()
    &&& forall|id: Seq<char>| #[trigger] map.dom().contains(id) <==> ids.contains(id)
    &&& list == Seq::new(ids.len(), |i: int| map[ids[i]])
}

impl Daemon {
    pub fn new() -> (r: Daemon)
        ensures
            r@ == DaemonModel::empty(),
    {
        let r = Daemon { server_ids: Table::new(), shown: Table::new(), capabilities: None };
        assert(r@ =~= DaemonModel::empty());
        r
    }

    /// What the daemon is known to be able to do.
    pub fn known_capabilities(&self) -> (r: Option<Capabilities>)
        ensures
            r == self@.capabilities,
    {
        self.capabilities
    }

    /// What the daemon can do, by its own answer. Without one it is taken to be able to do nothing,
    /// until it is asked again.
    pub fn learn_capabilities(&mut self, answer: &Option<Vec<String>>) -> (r: Capabilities)
        ensures
            match *answer {
                Some(list) => r == capabilities_in(list@) && final(self)@ == (DaemonModel {
                    capabilities: Some(r),
                    ..old(self)@
                }),
                None => r == (Capabilities {
                    actions: false,
                    body_markup: false,
                    inline_reply: false,
                }) && final(self)@ == old(self)@,
            },
    {
        match answer {
            Some(list) => {
                let capabilities = Capabilities {
                    actions: lists(list, "actions"),
                    body_markup: lists(list, "body-markup"),
                    inline_reply: lists(list, "inline-reply"),
                };
                self.capabilities = Some(capabilities);
                capabilities
            },
            None => Capabilities { actions: false, body_markup: false, inline_reply: false },
        }
    }

    /// The call that shows a notification whose image, if any, is at the given place.
    pub fn notify_call(
        &self,
        options: &NotificationOptions,
        capabilities: Capabilities,
        app_id: &Option<String>,
        executable: &Option<FilePath>,
        image: &Option<FilePath>,
    ) -> (r: NotifyCall)
        requires
            !(options.progress matches Some(progress) && super::zero_total(progress)),
        ensures
            r@ == self@.call(
                options@,
                capabilities,
                text::opt_text(*app_id),
                path::opt_path(*executable),
                path::opt_path(*image),
            ),
    {
        let titled = match &options.title {
            Some(title) => !text::is_blank(title.as_str()),
            None => false,
        };
        let summary = if titled {
            match &options.title {
                Some(title) => title.clone(),
                None => String::new(),
            }
        } else {
            match &options.body {
                Some(body) => body.clone(),
                None => String::new(),
            }
        };
        let mut body = String::new();
        let mut lines: bool = false;
        if titled {
            if let Some(text) = &options.body {
                body = body_line(text, capabilities);
                lines = true;
            }
        }
        if let Some(text) = &options.subtitle {
            let line = body_line(text, capabilities);
            if lines {
                body.append("\n");
                body.append(line.as_str());
            } else {
                body = line;
            }
        }
        let (actions, reply) = actions_on_wire(&options.actions, capabilities);
        let (reply_action_id, placeholder) = match reply {
            Some(index) => (
                Some(options.actions[index].id.clone()),
                text::copy_opt(&options.actions[index].placeholder),
            ),
            None => (None, None),
        };
        let hints = hint_list(options, app_id, image, &placeholder);
        let replaces_id = match self.server_ids.get(&options.id) {
            Some(server_id) => *server_id,
            None => 0,
        };
        let call = NotifyCall {
            app_name: app_name(app_id, executable),
            replaces_id,
            summary,
            body,
            actions,
            hints,
            expire_timeout: expiry(options.persistent, &options.timeout),
            reply_action_id,
        };
        assert(call@.body == body_of(options@, capabilities));
        call
    }

    /// The daemon shows a notification under this id of its own.
    pub fn record(&mut self, options: &NotificationOptions, call: &NotifyCall, server_id: u32)
        ensures
            final(self)@ == old(self)@.record(
                ShownModel {
                    id: options@.id,
                    metadata: options@.metadata,
                    reply_action_id: call@.reply_action_id,
                },
                call.replaces_id,
                server_id,
            ),
    {
        self.server_ids.insert(options.id.clone(), server_id);
        if call.replaces_id != 0 && call.replaces_id != server_id {
            proof {
                shown_after_remove(self.shown@, call.replaces_id);
            }
            self.shown.remove(&call.replaces_id);
        }
        let shown = Shown {
            id: options.id.clone(),
            metadata: copy_pairs(&options.metadata),
            reply_action_id: text::copy_opt(&call.reply_action_id),
        };
        proof {
            shown_after_insert(self.shown@, server_id, shown);
        }
        self.shown.insert(server_id, shown);
    }

    /// The notification to close, if it is on screen.
    pub fn to_cancel(&self, id: &str) -> (r: Option<u32>)
        ensures
            r == if self@.server_ids.dom().contains(id@) {
                Some(self@.server_ids[id@])
            } else {
                None
            },
    {
        match self.server_ids.get(&id.to_owned()) {
            Some(server_id) => Some(*server_id),
            None => None,
        }
    }

    /// All the notifications to close: for each that is on screen its id, once.
    pub fn all_to_cancel(&self) -> (r: Vec<u32>)
        ensures
            exists|ids: Seq<Seq<char>>| #[trigger] lists_values(r@, self@.server_ids, ids),
    {
        let ids = self.server_ids.keys();
        let mut all: Vec<u32> = Vec::new();
        let ghost listed = text::texts(ids@);
        proof {
            assert forall|k: int| 0 <= k < ids@.len() implies self.server_ids@.dom().contains(
                (#[trigger] ids@[k])@,
            ) by {
                assert(table::key_listed(ids@, ids@[k]@));
            }
        }
        for i in 0..ids.len()
            invariant
                forall|k: int| 0 <= k < ids@.len() ==> self.server_ids@.dom().contains(
                    (#[trigger] ids@[k])@,
                ),
                all@.len() == i,
                forall|k: int| 0 <= k < i ==> #[trigger] all@[k] == self.server_ids@[ids@[k]@],
        {
            match self.server_ids.get(&ids[i]) {
                Some(server_id) => {
                    all.push(*server_id);
                },
                None => {},
            }
        }
        proof {
            assert forall|i: int, j: int|
                0 <= i < j < listed.len() implies #[trigger] listed[i] != #[trigger] listed[j] by {
                assert(ids@[i].id() != ids@[j].id());
            }
            assert forall|id: Seq<char>| #[trigger]
                self@.server_ids.dom().contains(id) <==> listed.contains(id) by {
                assert(table::key_listed(ids@, id) <==> self.server_ids@.dom().contains(id));
                if listed.contains(id) {
                    let k = choose|k: int| 0 <= k < listed.len() && listed[k] == id;
                    assert(ids@[k].id() == id);
                }
                if table::key_listed(ids@, id) {
                    let k = choose|k: int| 0 <= k < ids@.len() && (#[trigger] ids@[k]).id() == id;
                    assert(listed[k] == id);
                }
            }
            assert(all@ =~= Seq::new(listed.len(), |i: int| self@.server_ids[listed[i]]));
            assert(lists_values(all@, self@.server_ids, listed));
        }
        all
    }

    /// What the application learns from a signal.
    pub fn handle_signal(&mut self, signal: Signal) -> (r: Option<Interaction>)
        ensures
            final(self)@ == old(self)@.after_signal(signal),
            match r {
                Some(interaction) => Some(interaction@),
                None => None,
            } == old(self)@.interaction(signal),
    {
        match signal {
            Signal::ActionInvoked { server_id, key } => match self.shown.get(&server_id) {
                Some(shown) => Some(
                    Interaction {
                        notification_id: shown.id.clone(),
                        kind: invoked_kind(&key, &shown.reply_action_id),
                        metadata: copy_pairs(&shown.metadata),
                    },
                ),
                None => None,
            },
            Signal::NotificationReplied { server_id, text } => match self.shown.get(&server_id) {
                Some(shown) => match &shown.reply_action_id {
                    Some(action_id) => Some(
                        Interaction {
                            notification_id: shown.id.clone(),
                            kind: InteractionKind::Reply { action_id: action_id.clone(), text },
                            metadata: copy_pairs(&shown.metadata),
                        },
                    ),
                    None => None,
                },
                None => None,
            },
            Signal::NotificationClosed { server_id, reason } => {
                let (id, metadata) = match self.shown.get(&server_id) {
                    Some(shown) => (shown.id.clone(), copy_pairs(&shown.metadata)),
                    None => {
                        return None;
                    },
                };
                proof {
                    shown_after_remove(self.shown@, server_id);
                }
                self.shown.remove(&server_id);
                let current = match self.server_ids.get(&id) {
                    Some(latest) => *latest == server_id,
                    None => false,
                };
                if current {
                    self.server_ids.remove(&id);
                }
                if reason == DISMISSED_BY_USER {
                    Some(
                        Interaction {
                            notification_id: id,
                            kind: InteractionKind::Dismissed,
                            metadata,
                        },
                    )
                } else {
                    None
                }
            },
        }
    }

    /// The daemon's name has a new owner. Unless nobody had it before, a daemon went away and with
    /// it everything it showed; a change that cannot be read counts as one.
    pub fn owner_changed(&mut self, had_owner: Option<bool>)
        ensures
            final(self)@ == if had_owner == Some(false) {
                old(self)@
            } else {
                old(self)@.forget_all()
            },
    {
        let restarted = match had_owner {
            Some(had) => had,
            None => true,
        };
        if restarted {
            self.server_ids.clear();
            self.shown.clear();
            assert(self@.shown =~= Map::<u32, ShownModel>::empty());
        }
    }

    /// The ids of the notifications on screen, in order and each once.
    pub fn active_notification_ids(&self) -> (r: Vec<String>)
        ensures
            sorted::ascending(text::texts(r@)),
            forall|id: Seq<char>| #[trigger] text::texts(r@).contains(id) <==> self@.shows(id),
    {
        let server_ids = self.shown.keys();
        let mut ids: Vec<String> = Vec::new();
        let ghost shown = self@.shown;
        for i in 0..server_ids.len()
            invariant
                shown == self@.shown,
                forall|server_id: u32| #[trigger]
                    table::key_listed(server_ids@, server_id) <==> shown.dom().contains(server_id),
                sorted::ascending(text::texts(ids@)),
                forall|id: Seq<char>| #[trigger]
                    text::texts(ids@).contains(id) <==> exists|k: int|
                        0 <= k < i && shown[#[trigger] server_ids@[k]].id == id,
        {
            let ghost before = text::texts(ids@);
            assert(table::key_listed(server_ids@, server_ids@[i as int]));
            match self.shown.get(&server_ids[i]) {
                Some(entry) => {
                    sorted::insert(&mut ids, entry.id.as_str());
                    proof {
                        assert(shown[server_ids@[i as int]].id == entry.id@);
                        assert forall|id: Seq<char>| #[trigger]
                            text::texts(ids@).contains(id) <==> exists|k: int|
                                0 <= k < i + 1 && shown[#[trigger] server_ids@[k]].id == id by {
                            assert(text::texts(ids@).contains(id) <==> before.contains(id) || id
                                == entry.id@);
                            if before.contains(id) {
                                let k = choose|k: int|
                                    0 <= k < i && shown[#[trigger] server_ids@[k]].id == id;
                                assert(shown[server_ids@[k]].id == id);
                            }
                        }
                    }
                },
                None => {},
            }
        }
        proof {
            assert forall|id: Seq<char>| #[trigger] text::texts(ids@).contains(id) <==> self@.shows(
                id,
            ) by {
                if text::texts(ids@).contains(id) {
                    let k = choose|k: int|
                        0 <= k < server_ids@.len() && shown[#[trigger] server_ids@[k]].id == id;
                    assert(table::key_listed(server_ids@, server_ids@[k]));
                    assert(self@.shown.dom().contains(server_ids@[k]));
                }
                if self@.shows(id) {
                    let server_id = choose|server_id: u32| #[trigger]
                        self@.shown.dom().contains(server_id) && self@.shown[server_id].id == id;
                    assert(table::key_listed(server_ids@, server_id));
                    let k = choose|k: int|
                        0 <= k < server_ids@.len() && #[trigger] server_ids@[k] == server_id;
                    assert(shown[server_ids@[k]].id == id);
                }
            }
        }
        ids
    }
}

fn hint_list(
    options: &NotificationOptions,
    app_id: &Option<String>,
    image: &Option<FilePath>,
    placeholder: &Option<String>,
) -> (r: Vec<Hint>)
    requires
        !(options.progress matches Some(progress) && super::zero_total(progress)),
    ensures
        forall|capabilities: Capabilities|
            reply_placeholder(options@.actions, capabilities) == text::opt_text(*placeholder)
                ==> hint_models(r@) == #[trigger] hints_of(
                options@,
                capabilities,
                text::opt_text(*app_id),
                path::opt_path(*image),
            ),
{
    let mut hints: Vec<Hint> = Vec::new();
    let urgency: u8 = match options.urgency {
        Some(Urgency::Low) => 0,
        Some(Urgency::Critical) => 2,
        _ => 1,
    };
    push_hint(&mut hints, "urgency", HintValue::Byte(urgency));
    assert(hint_models(hints@) == seq![byte_hint("urgency"@, urgency_byte(options@.urgency))]);
    push_text_hint(&mut hints, "desktop-entry", app_id);
    if options.conversation.is_some() {
        push_hint(&mut hints, "category", HintValue::Text("im.received".to_owned()));
    } else {
        assert(hint_models(hints@) + Seq::<HintModel>::empty() == hint_models(hints@));
    }
    let resolved = match image {
        Some(path) => Some(path.to_text_lossy()),
        None => None,
    };
    push_text_hint(&mut hints, "image-path", &resolved);
    push_sound_hint(&mut hints, &options.sound);
    push_text_hint(&mut hints, "x-kde-reply-placeholder-text", placeholder);
    push_progress_hint(&mut hints, options.progress);
    push_flag_hint(&mut hints, "resident", options.persistent);
    hints
}

/// The notification with its bar moved: shown again, in place and without a sound.
pub fn update_progress(options: NotificationOptions) -> (r: NotificationOptions)
    ensures
        r@ == (OptionsModel { sound: Some(Sound::Silent), ..options@ }),
{
    NotificationOptions { sound: Some(Sound::Silent), ..options }
}

/// The user's settings, as far as they are known: notifications are enabled where the daemon
/// answers.
pub fn notification_settings(reached: Result<()>) -> (r: Result<NotificationSettings>)
    ensures
        r == match reached {
            Ok(_) => Ok::<NotificationSettings, Error>(NotificationSettings::only_enabled(true)),
            Err(Error::NoService) => Ok(NotificationSettings::only_enabled(false)),
            Err(error) => Err(error),
        },
{
    match reached {
        Ok(_) => Ok(NotificationSettings::knowing_enabled(true)),
        Err(Error::NoService) => Ok(NotificationSettings::knowing_enabled(false)),
        Err(error) => Err(error),
    }
}

} // verus!

//! System notifications, and what users do with them.

pub mod android;
pub mod android_laws;
pub mod apple;
pub mod apple_laws;
pub mod center;
pub mod center_laws;
pub mod daemon_laws;
pub mod linux;
pub mod linux_laws;
pub mod options;
pub mod requests;
pub mod showing_laws;
pub mod toast_laws;
pub mod validity_laws;
pub mod windows;
pub mod windows_laws;

use crate::text;
use vstd::prelude::*;

verus! {

/// What can go wrong while showing or managing notifications.
#[derive(Clone, Copy, Debug, PartialEq, Eq, Structural)]
pub enum Error {
    /// The Android environment could not be reached.
    AndroidEnvironment,
    /// A call into Java failed.
    Java,
    /// A call into Windows failed.
    Windows,
    /// A call over the message bus failed.
    DBus,
    /// A notification image or other file could not be used.
    Io,
    /// The notification has no title and no body.
    Empty,
    /// An id, action, channel or other field is malformed.
    InvalidNotification,
    /// The user or system does not let this application show notifications.
    PermissionDenied,
    /// The application does not run from an app bundle.
    NoAppBundle,
    /// An interaction handler has already been set; only one is allowed.
    HandlerAlreadySet,
    /// No notification service is there to show notifications.
    NoService,
    /// This platform is unsupported.
    Unsupported,
    /// Anything else.
    Unknown,
}

pub type Result<T> = std::result::Result<T, Error>;

/// What each error says. Where a system has more to say, its words come after these.
pub open spec fn error_text(error: Error) -> Seq<char> {
    match error {
        Error::AndroidEnvironment => "couldn't access the Android/Java environment"@,
        Error::Java => "Java error: "@,
        Error::Windows => "Windows API error: "@,
        Error::DBus => "D-Bus error: "@,
        Error::Io => "I/O error: "@,
        Error::Empty => "the notification has no title or body"@,
        Error::InvalidNotification => "invalid notification field"@,
        Error::PermissionDenied => "no permission to show notifications"@,
        Error::NoAppBundle => "the app isn't running from an app bundle"@,
        Error::HandlerAlreadySet => "an interaction handler was already set"@,
        Error::NoService => "no notification service is available"@,
        Error::Unsupported => "this platform is unsupported"@,
        Error::Unknown => "unknown error"@,
    }
}

impl Error {
    /// What the error says. Where a system has more to say, its words come after these.
    pub fn message(self) -> (r: &'static str)
        ensures
            r@ == error_text(self),
    {
        match self {
            Error::AndroidEnvironment => "couldn't access the Android/Java environment",
            Error::Java => "Java error: ",
            Error::Windows => "Windows API error: ",
            Error::DBus => "D-Bus error: ",
            Error::Io => "I/O error: ",
            Error::Empty => "the notification has no title or body",
            Error::InvalidNotification => "invalid notification field",
            Error::PermissionDenied => "no permission to show notifications",
            Error::NoAppBundle => "the app isn't running from an app bundle",
            Error::HandlerAlreadySet => "an interaction handler was already set",
            Error::NoService => "no notification service is available",
            Error::Unsupported => "this platform is unsupported",
            Error::Unknown => "unknown error",
        }
    }
}

/// How prominently a notification should interrupt the user.
#[derive(Clone, Copy, Debug, PartialEq, Eq, Structural)]
pub enum Urgency {
    /// Delivered quietly: no popup banner, no sound.
    Low,
    /// The platform's regular notification behavior.
    Normal,
    /// Time-sensitive: pops up over other content and stays visible longer, where supported.
    Critical,
}

impl Default for Urgency {
    fn default() -> (r: Urgency)
        ensures
            r == Urgency::Normal,
    {
        Urgency::Normal
    }
}

/// The sound played when a notification is shown.
#[derive(Clone, Debug, PartialEq, Eq)]
pub enum Sound {
    /// The platform's default notification sound.
    Default,
    /// No sound.
    Silent,
    /// A named sound, resolved in a platform-specific way.
    Named(String),
}

impl Default for Sound {
    fn default() -> (r: Sound)
        ensures
            r == Sound::Default,
    {
        Sound::Default
    }
}

impl Sound {
    pub fn copy(&self) -> (r: Sound)
        ensures
            r == *self,
    {
        match self {
            Sound::Default => Sound::Default,
            Sound::Silent => Sound::Silent,
            Sound::Named(name) => Sound::Named(name.clone()),
        }
    }
}

/// Progress shown on a notification, e.g. for a download.
#[derive(Clone, Copy, Debug, PartialEq, Eq, Structural)]
pub enum Progress {
    /// A busy indicator with no specific completion amount.
    Indeterminate,
    /// A bar filled to `current` out of `total`. More than `total` counts as complete; `total`
    /// must not be zero.
    Determinate { current: u32, total: u32 },
}

/// A bar without a length.
pub open spec fn zero_total(progress: Progress) -> bool {
    progress matches Progress::Determinate { total, .. } && total == 0
}

pub fn has_zero_total(progress: Progress) -> (r: bool)
    ensures
        r == zero_total(progress),
{
    match progress {
        Progress::Determinate { total, .. } => total == 0,
        Progress::Indeterminate => false,
    }
}

/// How much of a notification appears on the lock screen.
#[derive(Clone, Copy, Debug, PartialEq, Eq, Structural)]
pub enum LockScreenVisibility {
    /// The full content is shown.
    Public,
    /// The notification's presence is shown, but the system redacts its content.
    Private,
    /// The notification doesn't appear at all.
    Secret,
}

/// A user interaction with a previously shown notification.
#[derive(Clone, Debug, PartialEq, Eq)]
pub struct Interaction {
    /// The id of the notification that was interacted with.
    pub notification_id: String,
    /// What the user did.
    pub kind: InteractionKind,
    /// The metadata that was attached to the notification.
    pub metadata: Vec<(String, String)>,
}

/// The ways a user can interact with a notification.
#[derive(Clone, Debug, PartialEq, Eq)]
pub enum InteractionKind {
    /// The user tapped the notification body itself.
    Activated,
    /// The user dismissed the notification without acting on it.
    Dismissed,
    /// The user pressed one of the notification's action buttons.
    Action { id: String },
    /// The user submitted text through a quick-reply action.
    Reply { action_id: String, text: String },
    /// The user asked to see this application's own notification settings screen.
    OpenSettings,
}

/// An interaction, spelled out.
pub struct InteractionModel {
    pub notification_id: Seq<char>,
    pub kind: KindModel,
    pub metadata: Seq<(Seq<char>, Seq<char>)>,
}

pub enum KindModel {
    Activated,
    Dismissed,
    Action { id: Seq<char> },
    Reply { action_id: Seq<char>, text: Seq<char> },
    OpenSettings,
}

impl View for InteractionKind {
    type V = KindModel;

    open spec fn view(&self) -> KindModel {
        match *self {
            InteractionKind::Activated => KindModel::Activated,
            InteractionKind::Dismissed => KindModel::Dismissed,
            InteractionKind::Action { id } => KindModel::Action { id: id@ },
            InteractionKind::Reply { action_id, text } => KindModel::Reply {
                action_id: action_id@,
                text: text@,
            },
            InteractionKind::OpenSettings => KindModel::OpenSettings,
        }
    }
}

impl View for Interaction {
    type V = InteractionModel;

    open spec fn view(&self) -> InteractionModel {
        InteractionModel {
            notification_id: self.notification_id@,
            kind: self.kind@,
            metadata: pairs(self.metadata@),
        }
    }
}

/// The characters of each pair in a list.
pub open spec fn pairs(list: Seq<(String, String)>) -> Seq<(Seq<char>, Seq<char>)> {
    list.map_values(|pair: (String, String)| (pair.0@, pair.1@))
}

pub fn copy_pairs(list: &Vec<(String, String)>) -> (r: Vec<(String, String)>)
    ensures
        r@ == list@,
{
    let mut copy: Vec<(String, String)> = Vec::new();
    for i in 0..list.len()
        invariant
            copy@ == list@.take(i as int),
    {
        copy.push((list[i].0.clone(), list[i].1.clone()));
        assert(list@.take(i + 1) == list@.take(i as int).push(list@[i as int]));
    }
    assert(list@.take(list@.len() as int) == list@);
    copy
}

/// What a settings query or settings screen should be scoped to.
#[derive(Clone, Debug, PartialEq, Eq)]
pub enum SettingsScope {
    /// The application's overall notification settings.
    App,
    /// One channel's settings.
    Channel { channel_id: String },
    /// One conversation's settings within a channel.
    Conversation { channel_id: String, conversation_id: String },
}

impl SettingsScope {
    /// No id is blank.
    pub open spec fn is_valid(self) -> bool {
        match self {
            SettingsScope::App => true,
            SettingsScope::Channel { channel_id } => !text::blank(channel_id@),
            SettingsScope::Conversation { channel_id, conversation_id } => !text::blank(channel_id@)
                && !text::blank(conversation_id@),
        }
    }

    pub fn validate(&self) -> (r: Result<()>)
        ensures
            r == if self.is_valid() {
                Ok::<(), Error>(())
            } else {
                Err(Error::InvalidNotification)
            },
    {
        let valid = match self {
            SettingsScope::App => true,
            SettingsScope::Channel { channel_id } => !text::is_blank(channel_id.as_str()),
            SettingsScope::Conversation { channel_id, conversation_id } => {
                !text::is_blank(channel_id.as_str()) && !text::is_blank(conversation_id.as_str())
            },
        };
        if valid {
            Ok(())
        } else {
            Err(Error::InvalidNotification)
        }
    }
}

/// A snapshot of the user's notification settings, as far as the platform reports them.
#[derive(Clone, Copy, Debug, PartialEq, Eq, Structural)]
pub struct NotificationSettings {
    /// Whether notifications in the requested scope can be shown at all.
    pub enabled: bool,
    /// The user's effective urgency for the channel or conversation.
    pub urgency: Option<Urgency>,
    /// Whether sound is allowed.
    pub sound_enabled: Option<bool>,
    /// Whether badges are allowed.
    pub badge_enabled: Option<bool>,
    /// Whether the user changed these settings.
    pub customized_by_user: Option<bool>,
    /// Whether the user marked this conversation as a priority conversation.
    pub priority_conversation: Option<bool>,
}

impl NotificationSettings {
    /// Only whether notifications can be shown is known.
    pub open spec fn only_enabled(enabled: bool) -> NotificationSettings {
        NotificationSettings {
            enabled,
            urgency: None,
            sound_enabled: None,
            badge_enabled: None,
            customized_by_user: None,
            priority_conversation: None,
        }
    }

    pub fn knowing_enabled(enabled: bool) -> (r: NotificationSettings)
        ensures
            r == NotificationSettings::only_enabled(enabled),
    {
        NotificationSettings {
            enabled,
            urgency: None,
            sound_enabled: None,
            badge_enabled: None,
            customized_by_user: None,
            priority_conversation: None,
        }
    }
}

} // verus!

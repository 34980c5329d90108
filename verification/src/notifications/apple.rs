//! Notifications on iOS and macOS: what the notification center is told, and what it reports.

use super::options::{Action, ActionKind, NotificationOptions, OptionsModel};
use super::{
    Error, Interaction, InteractionKind, InteractionModel, KindModel, NotificationSettings, Result,
    Sound, Urgency,
};
use crate::fnv;
use crate::path;
use crate::path::FilePath;
use crate::text;
use crate::time::Timestamp;
use vstd::prelude::*;
use vstd::utf8::*;

verus! {

/// The key that the metadata is kept under.
pub const METADATA_KEY: &'static str = "robius.metadata";

/// The category of notifications without actions, so that their dismissals are reported too.
pub const BASE_CATEGORY_ID: &'static str = "robius-notifications-base";

/// The URL of the system's settings for notifications on macOS.
pub const MACOS_SETTINGS_URL: &'static str =
    "x-apple.systempreferences:com.apple.Notifications-Settings.extension";

/// The shortest time, in nanoseconds, that the system can be told to wait.
pub const SHORTEST_WAIT_NANOS: u128 = 1_000_000;

/// The system only shows notifications of an application in a bundle.
pub fn ensure_app_bundle(has_identifier: bool) -> (r: Result<()>)
    ensures
        r == if has_identifier {
            Ok::<(), Error>(())
        } else {
            Err(Error::NoAppBundle)
        },
{
    if has_identifier {
        Ok(())
    } else {
        Err(Error::NoAppBundle)
    }
}

/// How long the system is to wait with a scheduled notification: never less than the shortest time
/// it takes.
pub fn trigger_nanos(scheduled_time: Option<Timestamp>, now: &Timestamp) -> (r: Option<u128>)
    ensures
        match scheduled_time {
            Some(time) => r matches Some(nanos) && nanos == if time.nanos_after(*now)
                < SHORTEST_WAIT_NANOS {
                SHORTEST_WAIT_NANOS as int
            } else {
                time.nanos_after(*now)
            },
            None => r is None,
        },
{
    match scheduled_time {
        Some(time) => {
            let wait: i128 = time.instant_nanos() - now.instant_nanos();
            if wait < 1_000_000 {
                Some(SHORTEST_WAIT_NANOS)
            } else {
                Some(wait as u128)
            }
        },
        None => None,
    }
}

/// What the user is asked for.
#[derive(Clone, Copy, Debug, PartialEq, Eq, Structural)]
pub struct AuthorizationRequest {
    pub alert: bool,
    pub sound: bool,
    pub badge: bool,
    /// The system's settings link to those of the application.
    pub provides_settings: bool,
    /// Notifications are delivered quietly and nobody is asked.
    pub provisional: bool,
    pub critical_alerts: bool,
}

/// What the user is asked for. Critical alerts make the system ask, so a provisional request leaves
/// them out.
pub open spec fn authorization_for(
    provides_settings: bool,
    uses_critical_alerts: bool,
    provisional: bool,
) -> AuthorizationRequest {
    AuthorizationRequest {
        alert: true,
        sound: true,
        badge: true,
        provides_settings,
        provisional,
        critical_alerts: uses_critical_alerts && !provisional,
    }
}

pub fn authorization_request(
    provides_settings: bool,
    uses_critical_alerts: bool,
    provisional: bool,
) -> (r: AuthorizationRequest)
    ensures
        r == authorization_for(provides_settings, uses_critical_alerts, provisional),
{
    AuthorizationRequest {
        alert: true,
        sound: true,
        badge: true,
        provides_settings,
        provisional,
        critical_alerts: uses_critical_alerts && !provisional,
    }
}

/// Why the system did not grant a permission.
#[derive(Clone, Copy, Debug, PartialEq, Eq, Structural)]
pub enum AuthorizationFailure {
    NotAllowed,
    Other,
}

/// What the user decided. Not being allowed is a decision too.
pub fn permission_result(granted: bool, failure: Option<AuthorizationFailure>) -> (r: Result<bool>)
    ensures
        r == if granted {
            Ok::<bool, Error>(true)
        } else if failure == Some(AuthorizationFailure::Other) {
            Err(Error::Unknown)
        } else {
            Ok(false)
        },
{
    if granted {
        return Ok(true);
    }
    match failure {
        None => Ok(false),
        Some(AuthorizationFailure::NotAllowed) => Ok(false),
        Some(AuthorizationFailure::Other) => Err(Error::Unknown),
    }
}

/// Whether the system lets an application show notifications.
#[derive(Clone, Copy, Debug, PartialEq, Eq, Structural)]
pub enum AuthorizationStatus {
    NotDetermined,
    Denied,
    Authorized,
    Provisional,
    Ephemeral,
    /// Something unheard of.
    Other,
}

/// One of the user's settings.
#[derive(Clone, Copy, Debug, PartialEq, Eq, Structural)]
pub enum SettingState {
    NotSupported,
    Disabled,
    Enabled,
    /// Something unheard of.
    Other,
}

pub open spec fn known_setting(setting: SettingState) -> Option<bool> {
    match setting {
        SettingState::Enabled => Some(true),
        SettingState::Disabled => Some(false),
        _ => None,
    }
}

pub fn setting_flag(setting: SettingState) -> (r: Option<bool>)
    ensures
        r == known_setting(setting),
{
    match setting {
        SettingState::Enabled => Some(true),
        SettingState::Disabled => Some(false),
        _ => None,
    }
}

/// The user's settings, as the system reports them. Limited grants count: notifications are shown.
pub fn map_settings(
    status: AuthorizationStatus,
    sound: SettingState,
    badge: SettingState,
) -> (r: NotificationSettings)
    ensures
        r == (NotificationSettings {
            enabled: status == AuthorizationStatus::Authorized || status
                == AuthorizationStatus::Provisional || status == AuthorizationStatus::Ephemeral,
            urgency: None,
            sound_enabled: known_setting(sound),
            badge_enabled: known_setting(badge),
            customized_by_user: None,
            priority_conversation: None,
        }),
{
    NotificationSettings {
        enabled: status == AuthorizationStatus::Authorized || status
            == AuthorizationStatus::Provisional || status == AuthorizationStatus::Ephemeral,
        urgency: None,
        sound_enabled: setting_flag(sound),
        badge_enabled: setting_flag(badge),
        customized_by_user: None,
        priority_conversation: None,
    }
}

/// The Apple systems.
#[derive(Clone, Copy, Debug, PartialEq, Eq, Structural)]
pub enum AppleSystem {
    Ios,
    MacOs,
    Other,
}

/// What came of opening the settings: iOS takes the request where the URL makes sense, macOS says
/// whether it opened them, and other systems have none to open.
pub fn settings_opened(system: AppleSystem, valid_url: bool, opened: bool) -> (r: Result<()>)
    ensures
        r == match system {
            AppleSystem::Ios => if valid_url {
                Ok::<(), Error>(())
            } else {
                Err(Error::Unknown)
            },
            AppleSystem::MacOs => if valid_url && opened {
                Ok(())
            } else {
                Err(Error::Unsupported)
            },
            AppleSystem::Other => Err(Error::Unsupported),
        },
{
    match system {
        AppleSystem::Ios => if valid_url {
            Ok(())
        } else {
            Err(Error::Unknown)
        },
        AppleSystem::MacOs => if valid_url && opened {
            Ok(())
        } else {
            Err(Error::Unsupported)
        },
        AppleSystem::Other => Err(Error::Unsupported),
    }
}

/// A sound that the system can play.
#[derive(Clone, Debug, PartialEq, Eq)]
pub enum SystemSound {
    Default { critical: bool },
    Named { name: String, critical: bool },
}

/// The sound of a notification: nothing for silence. Critical alerts need the critical variants.
pub open spec fn sound_for(sound: Option<Sound>, critical: bool) -> Option<SystemSound> {
    match sound {
        Some(Sound::Silent) => None,
        Some(Sound::Named(name)) => Some(SystemSound::Named { name, critical }),
        _ => Some(SystemSound::Default { critical }),
    }
}

pub fn notification_sound(sound: &Option<Sound>, critical: bool) -> (r: Option<SystemSound>)
    ensures
        r == sound_for(*sound, critical),
{
    match sound {
        Some(Sound::Silent) => None,
        Some(Sound::Named(name)) => Some(SystemSound::Named { name: name.clone(), critical }),
        _ => Some(SystemSound::Default { critical }),
    }
}

/// How much a notification interrupts.
#[derive(Clone, Copy, Debug, PartialEq, Eq, Structural)]
pub enum InterruptionLevel {
    Passive,
    Active,
    TimeSensitive,
    Critical,
}

/// How much a notification interrupts: the system decides where nothing is set.
pub open spec fn level_for(urgency: Option<Urgency>, bypass_dnd: bool) -> Option<
    InterruptionLevel,
> {
    if bypass_dnd {
        Some(InterruptionLevel::Critical)
    } else {
        match urgency {
            Some(Urgency::Low) => Some(InterruptionLevel::Passive),
            Some(Urgency::Normal) => Some(InterruptionLevel::Active),
            Some(Urgency::Critical) => Some(InterruptionLevel::TimeSensitive),
            None => None,
        }
    }
}

pub fn interruption_level(urgency: Option<Urgency>, bypass_dnd: bool) -> (r: Option<
    InterruptionLevel,
>)
    ensures
        r == level_for(urgency, bypass_dnd),
{
    if bypass_dnd {
        return Some(InterruptionLevel::Critical);
    }
    match urgency {
        Some(Urgency::Low) => Some(InterruptionLevel::Passive),
        Some(Urgency::Normal) => Some(InterruptionLevel::Active),
        Some(Urgency::Critical) => Some(InterruptionLevel::TimeSensitive),
        None => None,
    }
}

/// Keys and values in turn: this keeps their order, and keys that come twice.
pub open spec fn flat(metadata: Seq<(Seq<char>, Seq<char>)>) -> Seq<Seq<char>> {
    Seq::new(
        2 * metadata.len(),
        |k: int|
            if k % 2 == 0 {
                metadata[k / 2].0
            } else {
                metadata[k / 2].1
            },
    )
}

/// The metadata as it is stored with a notification.
pub fn flat_metadata(metadata: &Vec<(String, String)>) -> (r: Vec<String>)
    ensures
        text::texts(r@) == flat(super::pairs(metadata@)),
{
    let mut list: Vec<String> = Vec::new();
    let ghost pairs = super::pairs(metadata@);
    assert(text::texts(list@) =~= flat(pairs.take(0)));
    for i in 0..metadata.len()
        invariant
            pairs == super::pairs(metadata@),
            text::texts(list@) == flat(pairs.take(i as int)),
    {
        let ghost before = text::texts(list@);
        list.push(metadata[i].0.clone());
        list.push(metadata[i].1.clone());
        proof {
            assert(text::texts(list@) == before.push(pairs[i as int].0).push(pairs[i as int].1));
            assert(text::texts(list@) =~= flat(pairs.take(i + 1)));
        }
    }
    assert(pairs.take(pairs.len() as int) == pairs);
    list
}

/// The pairs of a list of keys and values in turn. A key without a value at the end is dropped.
pub open spec fn paired(list: Seq<Seq<char>>) -> Seq<(Seq<char>, Seq<char>)> {
    Seq::new(list.len() / 2, |i: int| (list[2 * i], list[2 * i + 1]))
}

/// The metadata that was stored with a notification; none where nothing was.
pub fn metadata_from_content(stored: &Option<Vec<String>>) -> (r: Vec<(String, String)>)
    ensures
        super::pairs(r@) == match *stored {
            Some(list) => paired(text::texts(list@)),
            None => Seq::empty(),
        },
{
    let mut pairs: Vec<(String, String)> = Vec::new();
    match stored {
        Some(list) => {
            let count: usize = list.len() / 2;
            for i in 0..count
                invariant
                    count == list.len() / 2,
                    pairs@.len() == i,
                    forall|k: int|
                        0 <= k < i ==> (#[trigger] pairs@[k]) == (list@[2 * k], list@[2 * k + 1]),
            {
                pairs.push((list[2 * i].clone(), list[2 * i + 1].clone()));
            }
            assert(super::pairs(pairs@) =~= paired(text::texts(list@)));
        },
        None => {
            assert(super::pairs(pairs@) =~= Seq::<(Seq<char>, Seq<char>)>::empty());
        },
    }
    pairs
}

/// Metadata comes back as it was stored: all the pairs, in order.
pub proof fn metadata_comes_back(metadata: Seq<(Seq<char>, Seq<char>)>)
    ensures
        paired(flat(metadata)) == metadata,
{
    assert forall|i: int| 0 <= i < metadata.len() implies paired(flat(metadata))[i]
        == metadata[i] by {
        assert((2 * i) / 2 == i);
        assert((2 * i + 1) / 2 == i);
        assert(flat(metadata)[2 * i] == metadata[i].0);
        assert(flat(metadata)[2 * i + 1] == metadata[i].1);
    }
    assert(paired(flat(metadata)) =~= metadata);
}

/// The hash after a field and the byte that ends it.
pub open spec fn field_hash(hash: u64, field: Seq<char>) -> u64 {
    fnv::mixed(fnv::hashed(hash, encode_utf8(field)), 0)
}

pub open spec fn flag_text(flag: bool) -> Seq<char> {
    if flag {
        "1"@
    } else {
        "0"@
    }
}

/// The hash after an action, with everything that tells it from another.
pub open spec fn action_hash(hash: u64, action: Action) -> u64 {
    let hash = field_hash(hash, action.id@);
    let hash = field_hash(hash, action.title@);
    let hash = field_hash(
        hash,
        if action.kind == ActionKind::Reply {
            "reply"@
        } else {
            "button"@
        },
    );
    let hash = field_hash(
        hash,
        match action.placeholder {
            Some(placeholder) => placeholder@,
            None => ""@,
        },
    );
    let hash = field_hash(hash, flag_text(action.destructive));
    field_hash(hash, flag_text(action.foreground))
}

pub open spec fn actions_hash(actions: Seq<Action>) -> u64
    decreases actions.len(),
{
    if actions.len() == 0 {
        fnv::OFFSET_BASIS
    } else {
        action_hash(actions_hash(actions.drop_last()), actions.last())
    }
}

/// The category of notifications with these actions: the same in every run.
pub open spec fn category_text(actions: Seq<Action>) -> Seq<char> {
    if actions.len() == 0 {
        BASE_CATEGORY_ID@
    } else {
        "robius-notifications-actions-"@ + text::hex_text(actions_hash(actions) as nat, 16)
    }
}

fn mix_field(hash: u64, field: &str) -> (r: u64)
    ensures
        r == field_hash(hash, field@),
{
    fnv::mix(fnv::mix_text(hash, field), 0)
}

fn mix_flag(hash: u64, flag: bool) -> (r: u64)
    ensures
        r == field_hash(hash, flag_text(flag)),
{
    if flag {
        mix_field(hash, "1")
    } else {
        mix_field(hash, "0")
    }
}

fn mix_action(hash: u64, action: &Action) -> (r: u64)
    ensures
        r == action_hash(hash, *action),
{
    let hash = mix_field(hash, action.id.as_str());
    let hash = mix_field(hash, action.title.as_str());
    let hash = if action.kind == ActionKind::Reply {
        mix_field(hash, "reply")
    } else {
        mix_field(hash, "button")
    };
    let hash = match &action.placeholder {
        Some(placeholder) => mix_field(hash, placeholder.as_str()),
        None => mix_field(hash, ""),
    };
    let hash = mix_flag(hash, action.destructive);
    mix_flag(hash, action.foreground)
}

/// The category of notifications with these actions: the same in every run.
pub fn category_id(actions: &Vec<Action>) -> (r: String)
    ensures
        r@ == category_text(actions@),
{
    if actions.len() == 0 {
        return BASE_CATEGORY_ID.to_owned();
    }
    let mut hash: u64 = fnv::OFFSET_BASIS;
    for i in 0..actions.len()
        invariant
            hash == actions_hash(actions@.take(i as int)),
    {
        hash = mix_action(hash, &actions[i]);
        assert(actions@.take(i + 1).drop_last() == actions@.take(i as int));
    }
    assert(actions@.take(actions@.len() as int) == actions@);
    let mut id = "robius-notifications-actions-".to_owned();
    id.append(text::hex(hash, 16).as_str());
    id
}

/// The categories that the system knows from us.
#[derive(Debug)]
pub struct Categories {
    ids: Vec<String>,
    /// The system was asked for the categories of earlier runs.
    seeded: bool,
}

#[verifier::ext_equal]
pub struct CategoriesModel {
    pub ids: Seq<Seq<char>>,
    pub seeded: bool,
}

impl View for Categories {
    type V = CategoriesModel;

    closed spec fn view(&self) -> CategoriesModel {
        CategoriesModel { ids: text::texts(self.ids@), seeded: self.seeded }
    }
}

/// The list with one more, unless it is there.
pub open spec fn including(ids: Seq<Seq<char>>, id: Seq<char>) -> Seq<Seq<char>> {
    if ids.contains(id) {
        ids
    } else {
        ids.push(id)
    }
}

pub open spec fn including_all(ids: Seq<Seq<char>>, more: Seq<Seq<char>>) -> Seq<Seq<char>>
    decreases more.len(),
{
    if more.len() == 0 {
        ids
    } else {
        including(including_all(ids, more.drop_last()), more.last())
    }
}

/// What has to be registered before a notification is shown.
#[derive(Debug)]
pub struct Registration {
    pub category_id: String,
    /// The base category has to be made.
    pub new_base: bool,
    /// The category of the actions has to be made.
    pub new_category: bool,
}

impl Categories {
    pub fn new() -> (r: Categories)
        ensures
            r@ == (CategoriesModel { ids: Seq::empty(), seeded: false }),
    {
        let r = Categories { ids: Vec::new(), seeded: false };
        assert(r@.ids == Seq::<Seq<char>>::empty());
        r
    }

    /// Whether the system has still to be asked for the categories of earlier runs. That is done
    /// once.
    pub fn needs_seeding(&mut self) -> (r: bool)
        ensures
            r == !old(self)@.seeded,
            final(self)@ == (CategoriesModel { seeded: true, ..old(self)@ }),
    {
        let first = !self.seeded;
        self.seeded = true;
        first
    }

    fn knows(&self, id: &str) -> (r: bool)
        ensures
            r == self@.ids.contains(id@),
    {
        for i in 0..self.ids.len()
            invariant
                forall|j: int| 0 <= j < i ==> (#[trigger] self@.ids[j]) != id@,
        {
            if text::same(self.ids[i].as_str(), id) {
                assert(self@.ids[i as int] == id@);
                return true;
            }
        }
        false
    }

    /// Adds a category, unless it is known.
    pub fn register(&mut self, id: &str) -> (r: bool)
        ensures
            r == !old(self)@.ids.contains(id@),
            final(self)@ == (CategoriesModel {
                ids: including(old(self)@.ids, id@),
                ..old(self)@
            }),
    {
        if self.knows(id) {
            return false;
        }
        self.ids.push(id.to_owned());
        assert(self@.ids == old(self)@.ids.push(id@));
        true
    }

    /// Adds the categories that the system knows from earlier runs, so that notifications still on
    /// screen keep their actions.
    pub fn seed(&mut self, existing: &Vec<String>)
        ensures
            final(self)@ == (CategoriesModel {
                ids: including_all(old(self)@.ids, text::texts(existing@)),
                ..old(self)@
            }),
    {
        let ghost more = text::texts(existing@);
        for i in 0..existing.len()
            invariant
                more == text::texts(existing@),
                self@ == (CategoriesModel {
                    ids: including_all(old(self)@.ids, more.take(i as int)),
                    ..old(self)@
                }),
        {
            self.register(existing[i].as_str());
            assert(more.take(i + 1).drop_last() == more.take(i as int));
        }
        assert(more.take(more.len() as int) == more);
    }

    /// What has to be registered before a notification with these actions is shown.
    pub fn ensure_registered(&mut self, actions: &Vec<Action>) -> (r: Registration)
        ensures
            r.category_id@ == category_text(actions@),
            r.new_base == !old(self)@.ids.contains(BASE_CATEGORY_ID@),
            r.new_category == !including(old(self)@.ids, BASE_CATEGORY_ID@).contains(
                category_text(actions@),
            ),
            final(self)@ == (CategoriesModel {
                ids: including(
                    including(old(self)@.ids, BASE_CATEGORY_ID@),
                    category_text(actions@),
                ),
                ..old(self)@
            }),
    {
        let id = category_id(actions);
        let new_base = self.register(BASE_CATEGORY_ID);
        let new_category = self.register(id.as_str());
        Registration { category_id: id, new_base, new_category }
    }
}

/// Once a notification is shown, its category and the base one are known, and every category that
/// was known still is.
pub proof fn categories_are_never_lost(
    ids: Seq<Seq<char>>,
    actions: Seq<Action>,
    known: Seq<char>,
)
    requires
        ids.contains(known),
    ensures
        ({
            let after = including(including(ids, BASE_CATEGORY_ID@), category_text(actions));
            &&& after.contains(BASE_CATEGORY_ID@)
            &&& after.contains(category_text(actions))
            &&& after.contains(known)
        }),
{
    including_includes(ids, BASE_CATEGORY_ID@, known);
    let with_base = including(ids, BASE_CATEGORY_ID@);
    including_includes(with_base, category_text(actions), known);
    including_includes(with_base, category_text(actions), BASE_CATEGORY_ID@);
}

proof fn including_includes(ids: Seq<Seq<char>>, id: Seq<char>, known: Seq<char>)
    ensures
        including(ids, id).contains(id),
        ids.contains(known) ==> including(ids, id).contains(known),
{
    if !ids.contains(id) {
        assert(ids.push(id)[ids.len() as int] == id);
    }
    if ids.contains(known) {
        let k = choose|k: int| 0 <= k < ids.len() && ids[k] == known;
        assert(including(ids, id)[k] == known);
    }
}

/// After seeding, the categories of earlier runs are known, and every category that was known still
/// is.
pub proof fn seeding_loses_nothing(ids: Seq<Seq<char>>, more: Seq<Seq<char>>, known: Seq<char>)
    requires
        ids.contains(known) || more.contains(known),
    ensures
        including_all(ids, more).contains(known),
    decreases more.len(),
{
    if more.len() > 0 {
        let before = including_all(ids, more.drop_last());
        including_includes(before, more.last(), known);
        if known != more.last() {
            if more.contains(known) {
                let k = choose|k: int| 0 <= k < more.len() && more[k] == known;
                assert(more.drop_last()[k] == known);
            }
            seeding_loses_nothing(ids, more.drop_last(), known);
        }
    }
}

/// The id by which notifications are stacked: the group where one is set, or else the conversation.
pub open spec fn thread_of(options: OptionsModel) -> Option<Seq<char>> {
    match options.group {
        Some(group) => Some(group),
        None => match options.conversation {
            Some(conversation) => Some(conversation.id),
            None => None,
        },
    }
}

pub fn thread_id(options: &NotificationOptions) -> (r: Option<String>)
    ensures
        text::opt_text(r) == thread_of(options@),
{
    match &options.group {
        Some(group) => Some(group.clone()),
        None => match &options.conversation {
            Some(conversation) => Some(conversation.id.clone()),
            None => None,
        },
    }
}

/// What a notification's content is made of.
#[derive(Debug)]
pub struct Content {
    pub title: Option<String>,
    pub subtitle: Option<String>,
    pub body: Option<String>,
    pub badge_count: Option<u32>,
    pub thread_id: Option<String>,
    pub sound: Option<SystemSound>,
    pub interruption_level: Option<InterruptionLevel>,
    /// The metadata, keys and values in turn; nothing where there is none.
    pub metadata: Option<Vec<String>>,
}

/// Works out what a notification's content is made of. Its image and its category come on top.
pub fn build_content(options: &NotificationOptions) -> (r: Content)
    ensures
        text::opt_text(r.title) == options@.title,
        text::opt_text(r.subtitle) == options@.subtitle,
        text::opt_text(r.body) == options@.body,
        r.badge_count == options@.badge_count,
        text::opt_text(r.thread_id) == thread_of(options@),
        r.sound == sound_for(options@.sound, options@.bypass_dnd),
        r.interruption_level == level_for(options@.urgency, options@.bypass_dnd),
        r.metadata is Some <==> options@.metadata.len() > 0,
        r.metadata matches Some(list) ==> text::texts(list@) == flat(options@.metadata),
{
    Content {
        title: text::copy_opt(&options.title),
        subtitle: text::copy_opt(&options.subtitle),
        body: text::copy_opt(&options.body),
        badge_count: options.badge_count,
        thread_id: thread_id(options),
        sound: notification_sound(&options.sound, options.bypass_dnd),
        interruption_level: interruption_level(options.urgency, options.bypass_dnd),
        metadata: if options.metadata.len() > 0 {
            Some(flat_metadata(&options.metadata))
        } else {
            None
        },
    }
}

/// The name of the copy of an image that the system may take for itself.
pub open spec fn copy_name_text(pid: u32, count: u32, path: Seq<u8>) -> Seq<char> {
    "robius-notification-"@ + text::decimal_text(pid as nat) + "-"@ + text::decimal_text(
        count as nat,
    ) + match path::extension_text(path, path::PathStyle::Unix) {
        Some(extension) => "."@ + extension,
        None => Seq::empty(),
    }
}

/// The name of the copy of an image that the system may take for itself. Its extension says what it
/// is, so it stays.
pub fn attachment_copy_name(pid: u32, count: u32, path: &FilePath) -> (r: String)
    ensures
        r@ == copy_name_text(pid, count, path.bytes@),
{
    let mut name = "robius-notification-".to_owned();
    name.append(text::decimal(pid as u64).as_str());
    name.append("-");
    name.append(text::decimal(count as u64).as_str());
    if let Some(extension) = path.extension(path::PathStyle::Unix) {
        name.append(".");
        name.append(extension.as_str());
    }
    assert(name@ == copy_name_text(pid, count, path.bytes@));
    name
}

/// What an action's button looks like.
#[derive(Debug)]
pub struct ActionButton {
    pub id: String,
    pub title: String,
    pub destructive: bool,
    pub foreground: bool,
    /// For a quick-reply action, what its empty field says.
    pub placeholder: Option<String>,
}

/// What an action's button looks like.
pub fn build_action(action: &Action) -> (r: ActionButton)
    ensures
        r.id == action.id,
        r.title == action.title,
        r.destructive == action.destructive,
        r.foreground == action.foreground,
        text::opt_text(r.placeholder) == match action.kind {
            ActionKind::Button => None,
            ActionKind::Reply => match action.placeholder {
                Some(placeholder) => Some(placeholder@),
                None => Some(""@),
            },
        },
{
    ActionButton {
        id: action.id.clone(),
        title: action.title.clone(),
        destructive: action.destructive,
        foreground: action.foreground,
        placeholder: match action.kind {
            ActionKind::Button => None,
            ActionKind::Reply => match &action.placeholder {
                Some(placeholder) => Some(placeholder.clone()),
                None => Some("".to_owned()),
            },
        },
    }
}

/// What the user did, given the identifiers that the system uses for taps and dismissals.
pub open spec fn response_kind(
    action_id: Seq<char>,
    default_id: Seq<char>,
    dismiss_id: Seq<char>,
    reply: Option<Seq<char>>,
) -> KindModel {
    if action_id == default_id {
        KindModel::Activated
    } else if action_id == dismiss_id {
        KindModel::Dismissed
    } else {
        match reply {
            Some(text) => KindModel::Reply { action_id, text },
            None => KindModel::Action { id: action_id },
        }
    }
}

/// What the user did, as the system reports it.
pub fn interaction_from(
    notification_id: String,
    action_id: String,
    default_id: &str,
    dismiss_id: &str,
    reply: Option<String>,
    stored: &Option<Vec<String>>,
) -> (r: Interaction)
    ensures
        r@ == (InteractionModel {
            notification_id: notification_id@,
            kind: response_kind(action_id@, default_id@, dismiss_id@, text::opt_text(reply)),
            metadata: match *stored {
                Some(list) => paired(text::texts(list@)),
                None => Seq::empty(),
            },
        }),
{
    let kind = if text::same(action_id.as_str(), default_id) {
        InteractionKind::Activated
    } else if text::same(action_id.as_str(), dismiss_id) {
        InteractionKind::Dismissed
    } else {
        match reply {
            Some(text) => InteractionKind::Reply { action_id, text },
            None => InteractionKind::Action { id: action_id },
        }
    };
    Interaction { notification_id, kind, metadata: metadata_from_content(stored) }
}

/// The user asked for the application's settings, from one notification or from none.
pub fn open_settings_interaction(
    notification: Option<String>,
    stored: &Option<Vec<String>>,
) -> (r: Interaction)
    ensures
        r@ == match notification {
            Some(id) => InteractionModel {
                notification_id: id@,
                kind: KindModel::OpenSettings,
                metadata: match *stored {
                    Some(list) => paired(text::texts(list@)),
                    None => Seq::empty(),
                },
            },
            None => InteractionModel {
                notification_id: Seq::empty(),
                kind: KindModel::OpenSettings,
                metadata: Seq::empty(),
            },
        },
{
    match notification {
        Some(id) => Interaction {
            notification_id: id,
            kind: InteractionKind::OpenSettings,
            metadata: metadata_from_content(stored),
        },
        None => {
            let r = Interaction {
                notification_id: String::new(),
                kind: InteractionKind::OpenSettings,
                metadata: Vec::new(),
            };
            assert(r@.metadata == Seq::<(Seq<char>, Seq<char>)>::empty());
            r
        },
    }
}

/// How notifications are presented while the application is in the foreground.
#[derive(Clone, Copy, Debug, PartialEq, Eq, Structural)]
pub struct Presentation {
    pub banner: bool,
    pub list: bool,
    /// What older systems have in place of banners and the list.
    pub alert: bool,
    pub sound: bool,
    pub badge: bool,
}

pub fn presentation_options(has_banners: bool) -> (r: Presentation)
    ensures
        r == (Presentation {
            banner: has_banners,
            list: has_banners,
            alert: !has_banners,
            sound: true,
            badge: true,
        }),
{
    Presentation {
        banner: has_banners,
        list: has_banners,
        alert: !has_banners,
        sound: true,
        badge: true,
    }
}

/// A message of a conversation, as the system is told of it.
#[derive(Debug)]
pub struct Communication {
    pub conversation_id: String,
    pub sender_name: String,
    pub body: Option<String>,
    /// The name of the group, where the conversation is one.
    pub group_name: Option<String>,
    /// Nameless stand-ins for the members of the group: the system takes a message for one to a
    /// group only where it has several recipients.
    pub recipients: Vec<String>,
}

/// A nameless stand-in for a member of a conversation.
pub open spec fn member_text(conversation_id: Seq<char>, number: nat) -> Seq<char> {
    conversation_id + "#member-"@ + text::decimal_text(number)
}

fn member(conversation_id: &String, number: u64) -> (r: String)
    ensures
        r@ == member_text(conversation_id@, number as nat),
{
    let mut value = conversation_id.clone();
    value.append("#member-");
    value.append(text::decimal(number).as_str());
    value
}

/// A message of a conversation, as the system is told of it: nothing without a conversation, or
/// where the system cannot be told.
pub fn communication(options: &NotificationOptions, supported: bool) -> (r: Option<Communication>)
    ensures
        r is Some <==> supported && options@.conversation is Some,
        r matches Some(message) ==> {
            let conversation = options@.conversation->0;
            &&& message.conversation_id@ == conversation.id
            &&& message.sender_name@ == super::center::sender_of(options@.title, conversation.name)
            &&& text::opt_text(message.body) == options@.body
            &&& text::opt_text(message.group_name) == if conversation.group_conversation {
                Some(conversation.name)
            } else {
                None
            }
            &&& text::texts(message.recipients@) == if conversation.group_conversation {
                seq![member_text(conversation.id, 1), member_text(conversation.id, 2)]
            } else {
                Seq::empty()
            }
        },
{
    let conversation = match &options.conversation {
        Some(conversation) => conversation,
        None => {
            return None;
        },
    };
    if !supported {
        return None;
    }
    let sender_name = match &options.title {
        Some(title) => {
            proof {
                text::trimmed_trims(title@);
            }
            let trimmed = text::trim(title.as_str());
            if trimmed.as_str().is_empty() {
                conversation.name.clone()
            } else {
                trimmed
            }
        },
        None => conversation.name.clone(),
    };
    let mut recipients: Vec<String> = Vec::new();
    let mut group_name: Option<String> = None;
    if conversation.group_conversation {
        recipients.push(member(&conversation.id, 1));
        recipients.push(member(&conversation.id, 2));
        group_name = Some(conversation.name.clone());
    }
    assert(text::texts(recipients@) == if conversation.group_conversation {
        seq![member_text(conversation.id@, 1), member_text(conversation.id@, 2)]
    } else {
        Seq::<Seq<char>>::empty()
    });
    Some(
        Communication {
            conversation_id: conversation.id.clone(),
            sender_name,
            body: text::copy_opt(&options.body),
            group_name,
            recipients,
        },
    )
}

} // verus!

//! What Apple's systems are told, and asked for, in terms of what the application asked for.

use super::apple;
use super::apple::{InterruptionLevel, SettingState, SystemSound};
use super::options::{Action, ActionKind, OptionsModel};
use super::requests;
use super::requests::{PermissionStep, Platform};
use super::{Error, KindModel, Sound, Urgency};
use crate::fnv;
use crate::path;
use crate::path::PathStyle;
use crate::text;
use vstd::prelude::*;
use vstd::utf8::*;

verus! {

/// The more urgent, the more a notification interrupts; one that may interrupt everything is critical,
/// whatever its urgency. Where nothing is set, the system decides.
pub proof fn urgent_notifications_interrupt(urgency: Option<Urgency>, bypass_dnd: bool)
    ensures
        bypass_dnd <==> apple::level_for(urgency, bypass_dnd) == Some(InterruptionLevel::Critical),
        !bypass_dnd ==> {
            &&& urgency == Some(Urgency::Low) <==> apple::level_for(urgency, bypass_dnd) == Some(
                InterruptionLevel::Passive,
            )
            &&& urgency == Some(Urgency::Normal) <==> apple::level_for(urgency, bypass_dnd) == Some(
                InterruptionLevel::Active,
            )
            &&& urgency == Some(Urgency::Critical) <==> apple::level_for(urgency, bypass_dnd)
                == Some(InterruptionLevel::TimeSensitive)
            &&& urgency is None <==> apple::level_for(urgency, bypass_dnd) is None
        },
{
}

/// Silence is silent, and nothing else is. A named sound is the one of that name, and a critical
/// notification's is the critical one.
pub proof fn notifications_sound_as_asked(sound: Option<Sound>, critical: bool)
    ensures
        sound == Some(Sound::Silent) <==> apple::sound_for(sound, critical) is None,
        apple::sound_for(sound, critical) matches Some(
            SystemSound::Named { name, critical: loud },
        ) ==> sound == Some(Sound::Named(name)) && loud == critical,
        apple::sound_for(sound, critical) matches Some(SystemSound::Default { critical: loud })
            ==> loud == critical && !(sound matches Some(Sound::Named(_))),
        sound matches Some(Sound::Named(_)) ==> apple::sound_for(sound, critical) matches Some(
            SystemSound::Named { .. },
        ),
{
}

/// The user is asked for alerts, sounds and badges, and for critical alerts where the application uses
/// them and the request is not a provisional one.
pub proof fn authorization_is_asked_for(
    provides_settings: bool,
    uses_critical_alerts: bool,
    provisional: bool,
)
    ensures
        ({
            let asked = apple::authorization_for(
                provides_settings,
                uses_critical_alerts,
                provisional,
            );
            &&& asked.alert && asked.sound && asked.badge
            &&& asked.provides_settings == provides_settings
            &&& asked.provisional == provisional
            &&& asked.critical_alerts <==> uses_critical_alerts && !provisional
        }),
{
}

/// Each system finds out about permission in its own way; a system that has no notifications has no
/// permission for them either.
pub proof fn permission_is_found_out(
    platform: Platform,
    provides_settings: bool,
    uses_critical_alerts: bool,
    provisional: bool,
)
    ensures
        ({
            let step = requests::permission_step(
                platform,
                provides_settings,
                uses_critical_alerts,
                provisional,
            );
            &&& platform == Platform::Android ==> step == if provisional {
                Ok::<PermissionStep, Error>(PermissionStep::ReportCurrent)
            } else {
                Ok(PermissionStep::Prompt)
            }
            &&& platform == Platform::Windows ==> step == Ok::<PermissionStep, Error>(
                PermissionStep::ReportCurrent,
            )
            &&& platform == Platform::Linux ==> step == Ok::<PermissionStep, Error>(
                PermissionStep::Granted,
            )
            &&& platform == Platform::Unsupported ==> step == Err::<PermissionStep, Error>(
                Error::Unsupported,
            )
            &&& platform == Platform::Apple <==> (step matches Ok(PermissionStep::Authorize(asked))
                && asked.alert && asked.sound && asked.badge && asked.provisional == provisional
                && asked.provides_settings == provides_settings && asked.critical_alerts == (
            uses_critical_alerts && !provisional))
        }),
        platform.schedules() <==> platform == Platform::Apple || platform == Platform::Windows,
{
}

/// A setting is known where it is on or off.
pub proof fn settings_are_on_or_off(setting: SettingState)
    ensures
        apple::known_setting(setting) == Some(true) <==> setting == SettingState::Enabled,
        apple::known_setting(setting) == Some(false) <==> setting == SettingState::Disabled,
{
}

/// Metadata is stored as keys and values in turn, in its order, and read the same way.
pub proof fn metadata_is_stored_in_turn(
    metadata: Seq<(Seq<char>, Seq<char>)>,
    stored: Seq<Seq<char>>,
    i: int,
)
    ensures
        apple::flat(metadata).len() == 2 * metadata.len(),
        0 <= i < metadata.len() ==> apple::flat(metadata)[2 * i] == metadata[i].0,
        0 <= i < metadata.len() ==> apple::flat(metadata)[2 * i + 1] == metadata[i].1,
        2 * apple::paired(stored).len() <= stored.len() < 2 * apple::paired(stored).len() + 2,
        0 <= i < apple::paired(stored).len() ==> apple::paired(stored)[i].0 == stored[2 * i],
        0 <= i < apple::paired(stored).len() ==> apple::paired(stored)[i].1 == stored[2 * i + 1],
{
    assert((2 * i) / 2 == i);
    assert((2 * i + 1) / 2 == i);
    assert((2 * i) % 2 == 0);
    assert((2 * i + 1) % 2 == 1);
}

/// Notifications without actions share the base category. Any others' goes by a hash over the actions.
pub proof fn categories_go_by_the_actions(actions: Seq<Action>)
    ensures
        actions.len() == 0 ==> apple::category_text(actions) == apple::BASE_CATEGORY_ID@,
        actions.len() > 0 ==> apple::category_text(actions) == "robius-notifications-actions-"@
            + text::hex_text(apple::actions_hash(actions) as nat, 16),
{
}

/// The hash goes over every action in turn, and over everything that tells one from another: its id, its
/// title, its kind, its placeholder and its two flags. A zero byte ends each of these.
pub proof fn hashes_take_each_action(
    actions: Seq<Action>,
    next: Action,
    kind: Seq<char>,
    placeholder: Seq<char>,
    destructive: Seq<char>,
    foreground: Seq<char>,
)
    requires
        kind == match next.kind {
            ActionKind::Button => "button"@,
            ActionKind::Reply => "reply"@,
        },
        next.placeholder is None ==> placeholder.len() == 0,
        next.placeholder matches Some(text) ==> placeholder == text@,
        destructive == if next.destructive {
            seq!['1']
        } else {
            seq!['0']
        },
        foreground == if next.foreground {
            seq!['1']
        } else {
            seq!['0']
        },
    ensures
        apple::actions_hash(Seq::empty()) == 0xcbf2_9ce4_8422_2325,
        ({
            let before = apple::actions_hash(actions);
            let first = fnv::hashed(before, encode_utf8(next.id@).push(0));
            let second = fnv::hashed(first, encode_utf8(next.title@).push(0));
            let third = fnv::hashed(second, encode_utf8(kind).push(0));
            let fourth = fnv::hashed(third, encode_utf8(placeholder).push(0));
            let fifth = fnv::hashed(fourth, encode_utf8(destructive).push(0));
            apple::actions_hash(actions.push(next)) == fnv::hashed(
                fifth,
                encode_utf8(foreground).push(0),
            )
        }),
{
    reveal_strlit("1");
    reveal_strlit("0");
    reveal_strlit("");
    assert("1"@ =~= seq!['1']);
    assert("0"@ =~= seq!['0']);
    assert(next.placeholder is None ==> placeholder =~= ""@);
    assert(actions.push(next).drop_last() =~= actions);
    assert(encode_utf8(next.id@).push(0).drop_last() =~= encode_utf8(next.id@));
    assert(encode_utf8(next.title@).push(0).drop_last() =~= encode_utf8(next.title@));
    assert(encode_utf8(kind).push(0).drop_last() =~= encode_utf8(kind));
    assert(encode_utf8(placeholder).push(0).drop_last() =~= encode_utf8(placeholder));
    assert(encode_utf8(destructive).push(0).drop_last() =~= encode_utf8(destructive));
    assert(encode_utf8(foreground).push(0).drop_last() =~= encode_utf8(foreground));
}

/// Notifications are stacked by their group where they have one, or else by their conversation.
pub proof fn notifications_are_stacked(options: OptionsModel)
    ensures
        options.group matches Some(group) ==> apple::thread_of(options) == Some(group),
        options.group is None ==> (options.conversation matches Some(conversation)
            ==> apple::thread_of(options) == Some(conversation.id)),
        options.group is None && options.conversation is None ==> apple::thread_of(options) is None,
{
}

/// A tap opens the notification, a dismissal dismisses it; anything else is an action, or a reply where
/// something was typed.
pub proof fn responses_tell_what_was_done(
    action_id: Seq<char>,
    default_id: Seq<char>,
    dismiss_id: Seq<char>,
    reply: Option<Seq<char>>,
)
    ensures
        ({
            let kind = apple::response_kind(action_id, default_id, dismiss_id, reply);
            &&& kind is Activated <==> action_id == default_id
            &&& kind is Dismissed <==> action_id == dismiss_id && action_id != default_id
            &&& kind matches KindModel::Action { id } ==> id == action_id && reply is None
            &&& kind matches KindModel::Reply { action_id: id, text } ==> id == action_id && reply
                == Some(text)
        }),
{
}

/// The known categories grow by what is new to them, at the end, and keep the rest as it is.
pub proof fn known_categories_grow_at_the_end(ids: Seq<Seq<char>>, id: Seq<char>)
    ensures
        ids.contains(id) ==> apple::including(ids, id) == ids,
        !ids.contains(id) ==> apple::including(ids, id).len() == ids.len() + 1 && apple::including(
            ids,
            id,
        ).last() == id && apple::including(ids, id).drop_last() == ids,
{
    assert(ids.push(id).drop_last() =~= ids);
}

/// The members of a conversation are numbered.
pub proof fn members_are_numbered(conversation_id: Seq<char>, number: nat)
    ensures
        apple::member_text(conversation_id, number) == conversation_id + seq![
            '#',
            'm',
            'e',
            'm',
            'b',
            'e',
            'r',
            '-',
        ] + text::decimal_text(number),
{
    reveal_strlit("#member-");
    assert("#member-"@ =~= seq!['#', 'm', 'e', 'm', 'b', 'e', 'r', '-']);
}

/// An image's copy is named by the process and a count, and keeps the image's extension.
pub proof fn copies_keep_the_extension(pid: u32, count: u32, path: Seq<u8>)
    ensures
        ({
            let number = "robius-notification-"@ + text::decimal_text(pid as nat) + seq!['-']
                + text::decimal_text(count as nat);
            match path::extension_text(path, PathStyle::Unix) {
                Some(extension) => apple::copy_name_text(pid, count, path) == number + seq!['.']
                    + extension,
                None => apple::copy_name_text(pid, count, path) == number,
            }
        }),
{
    reveal_strlit("-");
    reveal_strlit(".");
    assert("-"@ =~= seq!['-']);
    assert("."@ =~= seq!['.']);
    let number = "robius-notification-"@ + text::decimal_text(pid as nat) + seq!['-']
        + text::decimal_text(count as nat);
    assert(number + Seq::<char>::empty() =~= number);
    match path::extension_text(path, PathStyle::Unix) {
        Some(extension) => {
            assert(number + (seq!['.'] + extension) =~= number + seq!['.'] + extension);
        },
        None => {},
    }
}

} // verus!

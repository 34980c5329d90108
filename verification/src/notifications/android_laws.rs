//! What the Java side is told, in terms of what the application asked for.

use super::android;
use super::options::{ActionKind, OptionsModel};
use super::{KindModel, LockScreenVisibility, Progress, Sound, Urgency};
use crate::path;
use vstd::prelude::*;

verus! {

/// A notification goes to its channel, with that channel's importance. Without one it goes to the
/// default channel of its urgency, which is a normal one where nothing is set.
pub proof fn notifications_go_to_their_channel(options: OptionsModel, update_only: bool)
    ensures
        ({
            let told = android::arguments_for(options, update_only);
            &&& options.channel matches Some(channel) ==> {
                &&& told.channel_id == channel.id@
                &&& told.channel_name == channel.name@
                &&& told.channel_description == match channel.description {
                    Some(description) => Some(description@),
                    None => None,
                }
                &&& told.importance == match channel.importance {
                    Urgency::Low => 0i32,
                    Urgency::Normal => 1,
                    Urgency::Critical => 2,
                }
                &&& channel.group is None ==> told.channel_group.len() == 0
                &&& channel.group matches Some(group) ==> told.channel_group.len() == 2
                    && told.channel_group[0] == group.0@ && told.channel_group[1] == group.1@
            }
            &&& options.channel is None ==> {
                &&& told.channel_description is None
                &&& told.channel_group.len() == 0
                &&& options.urgency == Some(Urgency::Low) ==> {
                    &&& told.channel_id == "robius.notifications.default.quiet"@
                    &&& told.channel_name == "Quiet notifications"@
                    &&& told.importance == 0
                }
                &&& options.urgency is None || options.urgency == Some(Urgency::Normal) ==> {
                    &&& told.channel_id == "robius.notifications.default"@
                    &&& told.channel_name == "Notifications"@
                    &&& told.importance == 1
                }
                &&& options.urgency == Some(Urgency::Critical) ==> {
                    &&& told.channel_id == "robius.notifications.default.urgent"@
                    &&& told.channel_name == "Urgent notifications"@
                    &&& told.importance == 2
                }
            }
        }),
{
}

/// What needs no rewriting is told as it was set.
pub proof fn notifications_are_told_as_they_are(options: OptionsModel, update_only: bool)
    ensures
        ({
            let told = android::arguments_for(options, update_only);
            &&& told.id == options.id
            &&& told.title == options.title
            &&& told.body == options.body
            &&& told.subtitle == options.subtitle
            &&& told.group == options.group
            &&& told.persistent == options.persistent
            &&& told.bypass_dnd == options.bypass_dnd
            &&& told.update_only == update_only
            &&& told.silent <==> options.sound == Some(Sound::Silent)
            &&& options.image is None ==> told.image is None
            &&& options.image matches Some(image) ==> told.image == path::as_text(image)
            &&& options.conversation is None ==> told.conversation.len() == 0
                && !told.group_conversation
            &&& options.conversation matches Some(conversation) ==> {
                &&& told.group_conversation == conversation.group_conversation
                &&& told.conversation.len() == 3
                &&& told.conversation[0] == Some(conversation.id)
                &&& told.conversation[1] == Some(conversation.name)
                &&& conversation.icon is None ==> told.conversation[2] is None
                &&& conversation.icon matches Some(icon) ==> told.conversation[2] == path::as_text(
                    icon,
                )
            }
        }),
{
}

/// Messages, metadata and actions are told in columns, each in its order.
pub proof fn lists_are_told_in_columns(options: OptionsModel, update_only: bool, i: int)
    ensures
        ({
            let told = android::arguments_for(options, update_only);
            &&& told.message_senders.len() == options.conversation_messages.len()
            &&& told.message_texts.len() == options.conversation_messages.len()
            &&& told.message_timestamps.len() == options.conversation_messages.len()
            &&& 0 <= i < options.conversation_messages.len() ==> {
                let message = options.conversation_messages[i];
                &&& told.message_senders[i] == message.sender
                &&& told.message_texts[i] == message.text
                &&& message.timestamp_ms <= 0x7fff_ffff_ffff_ffff ==> told.message_timestamps[i]
                    == message.timestamp_ms
                &&& message.timestamp_ms > 0x7fff_ffff_ffff_ffff ==> told.message_timestamps[i]
                    == 0x7fff_ffff_ffff_ffff
            }
            &&& told.metadata_keys.len() == options.metadata.len()
            &&& told.metadata_values.len() == options.metadata.len()
            &&& 0 <= i < options.metadata.len() ==> told.metadata_keys[i] == options.metadata[i].0
                && told.metadata_values[i] == options.metadata[i].1
            &&& told.action_ids.len() == options.actions.len()
            &&& told.action_titles.len() == options.actions.len()
            &&& told.action_kinds.len() == options.actions.len()
            &&& told.action_placeholders.len() == options.actions.len()
            &&& 0 <= i < options.actions.len() ==> {
                let action = options.actions[i];
                &&& told.action_ids[i] == action.id@
                &&& told.action_titles[i] == action.title@
                &&& told.action_kinds[i] == match action.kind {
                    ActionKind::Button => 0i32,
                    ActionKind::Reply => 1,
                }
                &&& action.placeholder is None ==> told.action_placeholders[i] is None
                &&& action.placeholder matches Some(placeholder) ==> told.action_placeholders[i]
                    == Some(placeholder@)
            }
        }),
{
}

/// Progress never goes past its end, and is as far as was said unless that is more than can be told.
/// No progress has the end -1, and progress without an end has the end 0.
pub proof fn progress_is_told_as_it_is(options: OptionsModel, update_only: bool)
    ensures
        ({
            let (done, end) = android::arguments_for(options, update_only).progress;
            &&& options.progress is None ==> done == 0 && end == -1
            &&& options.progress == Some(Progress::Indeterminate) ==> done == 0 && end == 0
            &&& options.progress matches Some(Progress::Determinate { current, total }) ==> {
                &&& 0 <= done <= end <= 2_147_483_647
                &&& total <= 2_147_483_647 ==> end == total
                &&& total > 2_147_483_647 ==> end == 2_147_483_647
                &&& current <= end ==> done == current
                &&& current > end ==> done == end
            }
        }),
{
}

/// A time is told in milliseconds after the epoch, as far as that goes: 0 before the epoch, and -1
/// where there is none.
pub proof fn times_are_told_in_milliseconds(options: OptionsModel, update_only: bool)
    ensures
        ({
            let told = android::arguments_for(options, update_only).when_ms;
            &&& options.timestamp is None ==> told == -1
            &&& options.timestamp matches Some(time) ==> {
                let nanos = time.secs * 1_000_000_000 + time.nanos;
                &&& nanos < 0 ==> told == 0
                &&& 0 <= nanos && time.secs < 9_000_000_000_000_000 ==> told * 1_000_000 <= nanos < (
                told + 1) * 1_000_000
                &&& told <= 0x7fff_ffff_ffff_ffff
            }
        }),
{
}

/// What the lock screen may show, and the number on the badge, are told by number. Of a larger number
/// the largest is told that can be.
pub proof fn settings_are_told_by_number(options: OptionsModel, update_only: bool)
    ensures
        ({
            let told = android::arguments_for(options, update_only);
            &&& told.visibility == match options.lock_screen_visibility {
                None => -2int,
                Some(LockScreenVisibility::Public) => 0,
                Some(LockScreenVisibility::Private) => 1,
                Some(LockScreenVisibility::Secret) => 2,
            }
            &&& options.badge_count is None ==> told.badge_count == -1
            &&& options.badge_count matches Some(count) ==> {
                &&& count <= 2_147_483_647 ==> told.badge_count == count
                &&& count > 2_147_483_647 ==> told.badge_count == 2_147_483_647
            }
        }),
{
}

/// The Java side says no by 0 and yes by 1; anything else says neither.
pub proof fn flags_are_read_by_number(value: i32)
    ensures
        android::known_flag(value) == Some(false) <==> value == 0,
        android::known_flag(value) == Some(true) <==> value == 1,
        android::known_flag(value) is None <==> value != 0 && value != 1,
{
}

/// What the user did is told by number, with the action and the reply where they belong to it.
pub proof fn interactions_are_read_by_number(
    code: i32,
    action_id: Option<Seq<char>>,
    reply: Option<Seq<char>>,
)
    ensures
        ({
            let action = match action_id {
                Some(id) => id,
                None => Seq::empty(),
            };
            let typed = match reply {
                Some(text) => text,
                None => Seq::empty(),
            };
            let kind = android::kind_of(code, action_id, reply);
            &&& code == 0 ==> kind == Some(KindModel::Activated)
            &&& code == 1 ==> kind == Some(KindModel::Dismissed)
            &&& code == 2 ==> kind == Some(KindModel::Action { id: action })
            &&& code == 3 ==> kind == Some(KindModel::Reply { action_id: action, text: typed })
            &&& code < 0 || code > 3 ==> kind is None
        }),
{
}

/// A list that grows by a text grows by it once; what is not there adds nothing.
pub proof fn texts_that_are_there_are_kept(list: Seq<Option<Seq<char>>>, next: Option<Seq<char>>)
    ensures
        android::present(Seq::empty()).len() == 0,
        android::present(list.push(next)) == match next {
            Some(text) => android::present(list).push(text),
            None => android::present(list),
        },
{
    assert(list.push(next).drop_last() =~= list);
}

/// Keys and values are paired as far as both columns go, in their order. A pair that lacks either is
/// left out, and a column that is missing leaves nothing to pair.
pub proof fn metadata_is_read_in_pairs(
    keys: Seq<Option<Seq<char>>>,
    values: Seq<Option<Seq<char>>>,
    key: Option<Seq<char>>,
    value: Option<Seq<char>>,
    more: Seq<Option<Seq<char>>>,
)
    requires
        keys.len() == values.len(),
    ensures
        ({
            let before = android::metadata_in(Some(keys), Some(values));
            let after = android::metadata_in(Some(keys.push(key)), Some(values.push(value)));
            &&& keys.len() == 0 ==> before.len() == 0
            &&& key is Some && value is Some ==> after == before.push(
                (key->Some_0, value->Some_0),
            )
            &&& key is None || value is None ==> after == before
            &&& android::metadata_in(Some(keys + more), Some(values)) == before
            &&& android::metadata_in(Some(keys), Some(values + more)) == before
        }),
        android::metadata_in(None, Some(values)).len() == 0,
        android::metadata_in(Some(keys), None).len() == 0,
        android::metadata_in(None, None).len() == 0,
{
    pairs_look_no_further(keys, values, keys.push(key), values.push(value), keys.len());
    pairs_look_no_further(keys, values, keys + more, values, keys.len());
    pairs_look_no_further(keys, values, keys, values + more, keys.len());
}

proof fn pairs_look_no_further(
    keys: Seq<Option<Seq<char>>>,
    values: Seq<Option<Seq<char>>>,
    longer_keys: Seq<Option<Seq<char>>>,
    longer_values: Seq<Option<Seq<char>>>,
    count: nat,
)
    requires
        count <= keys.len() <= longer_keys.len(),
        count <= values.len() <= longer_values.len(),
        forall|i: int| 0 <= i < keys.len() ==> #[trigger] longer_keys[i] == keys[i],
        forall|i: int| 0 <= i < values.len() ==> #[trigger] longer_values[i] == values[i],
    ensures
        android::paired(keys, values, count) == android::paired(longer_keys, longer_values, count),
    decreases count,
{
    if count > 0 {
        pairs_look_no_further(keys, values, longer_keys, longer_values, (count - 1) as nat);
        assert(longer_keys[count - 1] == keys[count - 1]);
        assert(longer_values[count - 1] == values[count - 1]);
    }
}

} // verus!

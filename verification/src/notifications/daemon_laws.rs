//! What the notification daemon is told, in terms of what the application asked for.

use super::linux;
use super::linux::{Capabilities, DaemonModel, HintModel, HintValueModel, Signal};
use super::options::{Action, ActionKind, OptionsModel};
use super::{Error, KindModel, Progress, Sound, Urgency};
use crate::bus::BusFailure;
use crate::path;
use crate::text;
use vstd::prelude::*;

verus! {

/// A notification is on screen for as long as was asked for, to the millisecond: as many milliseconds
/// as are in the time, but at least one and no more than the daemon can count. Without a time the
/// daemon decides; a persistent one has no limit.
pub proof fn notifications_stay_as_long_as_asked(
    daemon: DaemonModel,
    options: OptionsModel,
    capabilities: Capabilities,
    app_id: Option<Seq<char>>,
    executable: Option<Seq<u8>>,
    image: Option<Seq<u8>>,
)
    ensures
        ({
            let expire = daemon.call(
                options,
                capabilities,
                app_id,
                executable,
                image,
            ).expire_timeout;
            &&& options.persistent ==> expire == 0
            &&& !options.persistent && options.timeout is None ==> expire == -1
            &&& !options.persistent ==> (options.timeout matches Some(time) ==> {
                let nanos = time.secs * 1_000_000_000 + time.nanos;
                &&& 1 <= expire <= 2_147_483_647
                &&& nanos < 1_000_000 ==> expire == 1
                &&& 1_000_000 <= nanos < 2_147_483_648_000_000 ==> expire * 1_000_000 <= nanos < (
                expire + 1) * 1_000_000
                &&& nanos >= 2_147_483_648_000_000 ==> expire == 2_147_483_647
                &&& 1 <= time.secs <= 2_147_483 && time.nanos == 0 ==> expire == time.secs * 1000
            })
        }),
{
}

/// The title is the most prominent line and the body stands below it, with the subtitle after it on a
/// line of its own. Without a title the body is the prominent line, and is not repeated below.
pub proof fn texts_stand_where_they_belong(
    daemon: DaemonModel,
    options: OptionsModel,
    capabilities: Capabilities,
    app_id: Option<Seq<char>>,
    executable: Option<Seq<u8>>,
    image: Option<Seq<u8>>,
)
    requires
        !capabilities.body_markup,
    ensures
        ({
            let call = daemon.call(options, capabilities, app_id, executable, image);
            let titled = options.title matches Some(title) && !text::blank(title);
            &&& titled ==> call.summary == options.title->0
            &&& !titled ==> call.summary == match options.body {
                Some(body) => body,
                None => Seq::empty(),
            }
            &&& titled ==> call.body == match (options.body, options.subtitle) {
                (Some(body), Some(subtitle)) => body.push('\n') + subtitle,
                (Some(body), None) => body,
                (None, Some(subtitle)) => subtitle,
                (None, None) => Seq::empty(),
            }
            &&& !titled ==> call.body == match options.subtitle {
                Some(subtitle) => subtitle,
                None => Seq::empty(),
            }
        }),
{
    reveal_strlit("\n");
    match (options.body, options.subtitle) {
        (Some(body), Some(subtitle)) => {
            assert(body + "\n"@ == body.push('\n'));
        },
        _ => {},
    }
}

/// Where the daemon reads markup, the lines of the body are written, and the summary is not.
pub proof fn bodies_are_written_for_the_daemon(
    daemon: DaemonModel,
    options: OptionsModel,
    capabilities: Capabilities,
    app_id: Option<Seq<char>>,
    executable: Option<Seq<u8>>,
    image: Option<Seq<u8>>,
    title: Seq<char>,
    body: Seq<char>,
)
    requires
        capabilities.body_markup,
        options.title == Some(title),
        !text::blank(title),
        options.body == Some(body),
        options.subtitle is None,
    ensures
        daemon.call(options, capabilities, app_id, executable, image).body == linux::markup_text(
            body,
        ),
        daemon.call(options, capabilities, app_id, executable, image).summary == title,
{
}

/// Text is written character by character: `&`, `<` and `>` in their written forms, and everything
/// else as it is.
pub proof fn text_is_written_character_by_character(left: Seq<char>, right: Seq<char>, c: char)
    ensures
        linux::markup_text(left + right) == linux::markup_text(left) + linux::markup_text(right),
        linux::markup_text(Seq::empty()) == Seq::<char>::empty(),
        linux::markup_text(seq![c]) == if c == '&' {
            seq!['&', 'a', 'm', 'p', ';']
        } else if c == '<' {
            seq!['&', 'l', 't', ';']
        } else if c == '>' {
            seq!['&', 'g', 't', ';']
        } else {
            seq![c]
        },
    decreases right.len(),
{
    reveal_strlit("&amp;");
    reveal_strlit("&lt;");
    reveal_strlit("&gt;");
    assert(seq![c].drop_last() == Seq::<char>::empty());
    assert(seq![c].last() == c);
    assert(linux::markup_text(seq![c]) == linux::markup_text(Seq::empty()) + linux::markup_char(c));
    assert(Seq::<char>::empty() + linux::markup_char(c) == linux::markup_char(c));
    if c == '&' {
        assert("&amp;"@ =~= seq!['&', 'a', 'm', 'p', ';']);
    }
    if c == '<' {
        assert("&lt;"@ =~= seq!['&', 'l', 't', ';']);
    }
    if c == '>' {
        assert("&gt;"@ =~= seq!['&', 'g', 't', ';']);
    }
    if right.len() == 0 {
        assert(left + right == left);
        assert(linux::markup_text(left) + linux::markup_text(right) == linux::markup_text(left));
    } else {
        text_is_written_character_by_character(left, right.drop_last(), c);
        assert((left + right).drop_last() == left + right.drop_last());
        assert((left + right).last() == right.last());
        assert(linux::markup_text(left) + (linux::markup_text(right.drop_last())
            + linux::markup_char(right.last())) == (linux::markup_text(left) + linux::markup_text(
            right.drop_last(),
        )) + linux::markup_char(right.last()));
    }
}

proof fn first_reply_is_first(actions: Seq<Action>, index: int)
    ensures
        linux::first_reply(actions) == Some(index) <==> 0 <= index < actions.len()
            && actions[index].kind == ActionKind::Reply && forall|j: int|
            0 <= j < index ==> (#[trigger] actions[j]).kind != ActionKind::Reply,
        linux::first_reply(actions) is None <==> forall|j: int|
            0 <= j < actions.len() ==> (#[trigger] actions[j]).kind != ActionKind::Reply,
    decreases actions.len(),
{
    if actions.len() > 0 {
        let rest = actions.drop_last();
        let last = actions.len() - 1;
        first_reply_is_first(rest, index);
        assert forall|j: int| 0 <= j < rest.len() implies rest[j] == #[trigger] actions[j] by {}
        match linux::first_reply(rest) {
            Some(at) => {
                first_reply_is_first(rest, at);
                assert(rest[at].kind == ActionKind::Reply);
                assert(actions[at].kind == ActionKind::Reply);
            },
            None => {
                assert(forall|j: int|
                    0 <= j < rest.len() ==> (#[trigger] rest[j]).kind != ActionKind::Reply);
                assert forall|j: int| 0 <= j < last implies (#[trigger] actions[j]).kind
                    != ActionKind::Reply by {
                    assert(rest[j].kind != ActionKind::Reply);
                }
            },
        }
    }
}

/// Every action is offered, in its place and under its title, after the click on the notification
/// itself. The first quick reply is offered as a reply field where the daemon has one; every other
/// action goes by its own id, so that no two actions share a key.
pub proof fn actions_are_offered(
    daemon: DaemonModel,
    options: OptionsModel,
    capabilities: Capabilities,
    app_id: Option<Seq<char>>,
    executable: Option<Seq<u8>>,
    image: Option<Seq<u8>>,
    index: int,
)
    requires
        0 <= index < options.actions.len(),
    ensures
        ({
            let call = daemon.call(options, capabilities, app_id, executable, image);
            let action = options.actions[index];
            let field = capabilities.inline_reply && action.kind == ActionKind::Reply && forall|
                j: int,
            |
                0 <= j < index ==> (#[trigger] options.actions[j]).kind != ActionKind::Reply;
            &&& !capabilities.actions ==> call.actions.len() == 0 && call.reply_action_id is None
            &&& capabilities.actions ==> {
                &&& call.actions.len() == 2 + 2 * options.actions.len()
                &&& call.actions[0] == seq!['d', 'e', 'f', 'a', 'u', 'l', 't']
                &&& call.actions[1] == seq!['O', 'p', 'e', 'n']
                &&& call.actions[2 * index + 3] == action.title@
                &&& call.actions[2 * index + 2] == if field {
                    seq!['i', 'n', 'l', 'i', 'n', 'e', '-', 'r', 'e', 'p', 'l', 'y']
                } else {
                    seq!['a', 'p', 'p', '.'] + action.id@
                }
                &&& field ==> call.reply_action_id == Some(action.id@)
            }
        }),
{
    reveal_strlit("default");
    reveal_strlit("Open");
    reveal_strlit("inline-reply");
    reveal_strlit("app.");
    first_reply_is_first(options.actions, index);
    assert("default"@ =~= seq!['d', 'e', 'f', 'a', 'u', 'l', 't']);
    assert("Open"@ =~= seq!['O', 'p', 'e', 'n']);
    assert("inline-reply"@ =~= seq!['i', 'n', 'l', 'i', 'n', 'e', '-', 'r', 'e', 'p', 'l', 'y']);
    assert("app."@ =~= seq!['a', 'p', 'p', '.']);
    assert((2 * index + 2) / 2 - 1 == index);
    assert((2 * index + 3) / 2 - 1 == index);
    assert((2 * index + 2) % 2 == 0);
    assert((2 * index + 3) % 2 == 1);
}

/// Without a quick reply, or where the daemon has no field for it, no action gets the field.
pub proof fn reply_fields_need_a_quick_reply(
    daemon: DaemonModel,
    options: OptionsModel,
    capabilities: Capabilities,
    app_id: Option<Seq<char>>,
    executable: Option<Seq<u8>>,
    image: Option<Seq<u8>>,
)
    ensures
        daemon.call(options, capabilities, app_id, executable, image).reply_action_id is Some <==> {
            &&& capabilities.actions
            &&& capabilities.inline_reply
            &&& exists|j: int|
                0 <= j < options.actions.len() && (#[trigger] options.actions[j]).kind
                    == ActionKind::Reply
        },
{
    first_reply_is_first(options.actions, 0);
}

proof fn in_either<T>(left: Seq<T>, right: Seq<T>, item: T)
    ensures
        (left + right).contains(item) <==> left.contains(item) || right.contains(item),
{
    let both = left + right;
    if left.contains(item) {
        let i = choose|i: int| 0 <= i < left.len() && left[i] == item;
        assert(both[i] == item);
    }
    if right.contains(item) {
        let i = choose|i: int| 0 <= i < right.len() && right[i] == item;
        assert(both[left.len() + i] == item);
    }
    if both.contains(item) {
        let i = choose|i: int| 0 <= i < both.len() && both[i] == item;
        if i < left.len() {
            assert(left[i] == item);
        } else {
            assert(right[i - left.len()] == item);
        }
    }
}

proof fn one_of_one<T>(only: T, item: T)
    ensures
        seq![only].contains(item) <==> only == item,
        !Seq::<T>::empty().contains(item),
{
    if only == item {
        assert(seq![only][0] == item);
    }
}

proof fn hints_come_in_pieces(
    options: OptionsModel,
    capabilities: Capabilities,
    app_id: Option<Seq<char>>,
    image: Option<Seq<u8>>,
    hint: HintModel,
)
    ensures
        linux::hints_of(options, capabilities, app_id, image).contains(hint) <==> {
            ||| seq![linux::byte_hint("urgency"@, linux::urgency_byte(options.urgency))].contains(
                hint,
            )
            ||| linux::hint_of("desktop-entry"@, app_id).contains(hint)
            ||| linux::hint_if(
                options.conversation is Some,
                linux::text_hint("category"@, "im.received"@),
            ).contains(hint)
            ||| linux::hint_of(
                "image-path"@,
                match image {
                    Some(path) => Some(path::lossy_text(path)),
                    None => None,
                },
            ).contains(hint)
            ||| linux::sound_hint(options.sound).contains(hint)
            ||| linux::hint_of(
                "x-kde-reply-placeholder-text"@,
                linux::reply_placeholder(options.actions, capabilities),
            ).contains(hint)
            ||| linux::progress_hint(options.progress).contains(hint)
            ||| linux::hint_if(options.persistent, linux::flag_hint("resident"@)).contains(hint)
        },
{
    let urgency = seq![linux::byte_hint("urgency"@, linux::urgency_byte(options.urgency))];
    let entry = linux::hint_of("desktop-entry"@, app_id);
    let category = linux::hint_if(
        options.conversation is Some,
        linux::text_hint("category"@, "im.received"@),
    );
    let picture = linux::hint_of(
        "image-path"@,
        match image {
            Some(path) => Some(path::lossy_text(path)),
            None => None,
        },
    );
    let sound = linux::sound_hint(options.sound);
    let placeholder = linux::hint_of(
        "x-kde-reply-placeholder-text"@,
        linux::reply_placeholder(options.actions, capabilities),
    );
    let progress = linux::progress_hint(options.progress);
    let resident = linux::hint_if(options.persistent, linux::flag_hint("resident"@));
    in_either(
        urgency + entry + category + picture + sound + placeholder + progress,
        resident,
        hint,
    );
    in_either(urgency + entry + category + picture + sound + placeholder, progress, hint);
    in_either(urgency + entry + category + picture + sound, placeholder, hint);
    in_either(urgency + entry + category + picture, sound, hint);
    in_either(urgency + entry + category, picture, hint);
    in_either(urgency + entry, category, hint);
    in_either(urgency, entry, hint);
}

proof fn one_text_or_none(name: Seq<char>, text: Option<Seq<char>>, hint: HintModel)
    ensures
        linux::hint_of(name, text).contains(hint) <==> (text matches Some(text) && hint.name
            == name && hint.value == HintValueModel::Text(text)),
{
    match text {
        Some(text) => {
            one_of_one(linux::text_hint(name, text), hint);
        },
        None => {},
    }
}

proof fn one_or_none(condition: bool, only: HintModel, hint: HintModel)
    ensures
        linux::hint_if(condition, only).contains(hint) <==> condition && hint.name == only.name
            && hint.value == only.value,
{
    one_of_one(only, hint);
}

proof fn sounds_have_one_hint(sound: Option<Sound>, hint: HintModel)
    ensures
        linux::sound_hint(sound).contains(hint) <==> {
            ||| hint.name == "suppress-sound"@ && sound == Some(Sound::Silent) && hint.value
                == HintValueModel::Flag(true)
            ||| hint.name == "sound-name"@ && (sound matches Some(Sound::Named(name))
                && hint.value == HintValueModel::Text(name@))
        },
{
    match sound {
        Some(Sound::Silent) => one_of_one(linux::flag_hint("suppress-sound"@), hint),
        Some(Sound::Named(name)) => one_of_one(linux::text_hint("sound-name"@, name@), hint),
        _ => {},
    }
}

proof fn bars_have_one_hint(progress: Option<Progress>, hint: HintModel)
    ensures
        linux::progress_hint(progress).contains(hint) <==> hint.name == "value"@ && (
        progress matches Some(Progress::Determinate { current, total }) && hint.value
            == HintValueModel::Number(linux::percent(current, total))),
{
    match progress {
        Some(Progress::Determinate { current, total }) => one_of_one(
            HintModel {
                name: "value"@,
                value: HintValueModel::Number(linux::percent(current, total)),
            },
            hint,
        ),
        _ => {},
    }
}

/// The hints are just those that what was asked for calls for. The placeholder is that of the first reply among
/// the actions, if there is one.
pub proof fn hints_say_what_was_asked_for(
    daemon: DaemonModel,
    options: OptionsModel,
    capabilities: Capabilities,
    app_id: Option<Seq<char>>,
    executable: Option<Seq<u8>>,
    image: Option<Seq<u8>>,
    reply: Option<int>,
    hint: HintModel,
)
    requires
        match reply {
            Some(index) => 0 <= index < options.actions.len() && options.actions[index].kind
                == ActionKind::Reply && forall|j: int|
                0 <= j < index ==> (#[trigger] options.actions[j]).kind != ActionKind::Reply,
            None => forall|j: int|
                0 <= j < options.actions.len() ==> (#[trigger] options.actions[j]).kind
                    != ActionKind::Reply,
        },
    ensures
        daemon.call(options, capabilities, app_id, executable, image).hints.contains(hint) <==> {
            ||| hint.name == "urgency"@ && hint.value == HintValueModel::Byte(
                match options.urgency {
                    Some(Urgency::Low) => 0u8,
                    Some(Urgency::Normal) => 1,
                    Some(Urgency::Critical) => 2,
                    None => 1,
                },
            )
            ||| hint.name == "desktop-entry"@ && (app_id matches Some(id) && hint.value
                == HintValueModel::Text(id))
            ||| hint.name == "category"@ && options.conversation is Some && hint.value
                == HintValueModel::Text("im.received"@)
            ||| hint.name == "image-path"@ && (image matches Some(image) && hint.value
                == HintValueModel::Text(path::lossy_text(image)))
            ||| hint.name == "suppress-sound"@ && options.sound == Some(Sound::Silent)
                && hint.value == HintValueModel::Flag(true)
            ||| hint.name == "sound-name"@ && (options.sound matches Some(Sound::Named(name))
                && hint.value == HintValueModel::Text(name@))
            ||| hint.name == "x-kde-reply-placeholder-text"@ && capabilities.actions
                && capabilities.inline_reply && (reply matches Some(index) && (
            options.actions[index].placeholder matches Some(placeholder) && hint.value
                == HintValueModel::Text(placeholder@)))
            ||| hint.name == "value"@ && (options.progress matches Some(
                Progress::Determinate { current, total },
            ) && hint.value == HintValueModel::Number(linux::percent(current, total)))
            ||| hint.name == "resident"@ && options.persistent && hint.value
                == HintValueModel::Flag(true)
        },
{
    hints_come_in_pieces(options, capabilities, app_id, image, hint);
    one_of_one(linux::byte_hint("urgency"@, linux::urgency_byte(options.urgency)), hint);
    one_text_or_none("desktop-entry"@, app_id, hint);
    one_or_none(
        options.conversation is Some,
        linux::text_hint("category"@, "im.received"@),
        hint,
    );
    one_text_or_none(
        "image-path"@,
        match image {
            Some(path) => Some(path::lossy_text(path)),
            None => None,
        },
        hint,
    );
    sounds_have_one_hint(options.sound, hint);
    let placeholder = linux::reply_placeholder(options.actions, capabilities);
    one_text_or_none("x-kde-reply-placeholder-text"@, placeholder, hint);
    match reply {
        Some(index) => first_reply_is_first(options.actions, index),
        None => first_reply_is_first(options.actions, 0),
    }
    bars_have_one_hint(options.progress, hint);
    one_or_none(options.persistent, linux::flag_hint("resident"@), hint);
}

/// A bar is filled by how much is done: as many whole percent as there are, and no more than a
/// hundred.
pub proof fn bars_show_how_much_is_done(current: u32, total: u32)
    requires
        total > 0,
    ensures
        current >= total ==> linux::percent(current, total) == 100,
        current < total ==> linux::percent(current, total) * total <= current * 100 < (
        linux::percent(current, total) + 1) * total,
{
    let whole = current as int * 100;
    let t = total as int;
    assert(whole / t * t <= whole < (whole / t + 1) * t) by (nonlinear_arith)
        requires
            t > 0,
    ;
    if current >= total {
        assert(whole / t >= 100) by (nonlinear_arith)
            requires
                whole >= 100 * t,
                t > 0,
        ;
    } else {
        assert(whole / t < 100) by (nonlinear_arith)
            requires
                0 <= whole < 100 * t,
                t > 0,
        ;
    }
}

/// The daemon shows the application under its id, or else under the name of its executable.
pub proof fn applications_go_by_their_id(
    daemon: DaemonModel,
    options: OptionsModel,
    capabilities: Capabilities,
    app_id: Option<Seq<char>>,
    executable: Option<Seq<u8>>,
    image: Option<Seq<u8>>,
)
    ensures
        ({
            let call = daemon.call(options, capabilities, app_id, executable, image);
            &&& app_id matches Some(id) ==> call.app_name == id
            &&& app_id is None && executable is None ==> call.app_name.len() == 0
            &&& app_id is None ==> (executable matches Some(path) ==> match path::final_component(
                path,
                path::PathStyle::Unix,
            ) {
                Some(name) => call.app_name == path::lossy_text(path::name_stem(name)),
                None => call.app_name.len() == 0,
            })
        }),
{
}

/// What replaces a notification on screen is told apart from what is new: only a notification that
/// is shown under its id is replaced, and by the number the daemon gave it.
pub proof fn only_what_is_shown_is_replaced(
    daemon: DaemonModel,
    options: OptionsModel,
    capabilities: Capabilities,
    app_id: Option<Seq<char>>,
    executable: Option<Seq<u8>>,
    image: Option<Seq<u8>>,
)
    ensures
        daemon.call(options, capabilities, app_id, executable, image).replaces_id
            == if daemon.server_ids.dom().contains(options.id) {
            daemon.server_ids[options.id]
        } else {
            0u32
        },
{
}

/// A notification is reported as dismissed only where the user did it, and any closing makes it
/// unknown; other notifications stay.
pub proof fn closing_concerns_one_notification(
    daemon: DaemonModel,
    server_id: u32,
    other: u32,
    reason: u32,
)
    requires
        other != server_id,
    ensures
        ({
            let signal = Signal::NotificationClosed { server_id, reason };
            let after = daemon.after_signal(signal);
            &&& daemon.interaction(signal) is Some <==> daemon.shown.dom().contains(server_id)
                && reason == 2
            &&& daemon.interaction(signal) matches Some(interaction) ==> interaction.kind
                == KindModel::Dismissed && interaction.notification_id
                == daemon.shown[server_id].id && interaction.metadata
                == daemon.shown[server_id].metadata
            &&& !after.shown.dom().contains(server_id)
            &&& daemon.shown.dom().contains(other) ==> after.shown.dom().contains(other)
                && after.shown[other] == daemon.shown[other]
        }),
{
}

/// What a daemon can do is what it lists.
pub proof fn capabilities_are_what_is_listed(list: Seq<String>)
    ensures
        linux::capabilities_in(list).actions <==> exists|i: int|
            0 <= i < list.len() && (#[trigger] list[i])@ == "actions"@,
        linux::capabilities_in(list).body_markup <==> exists|i: int|
            0 <= i < list.len() && (#[trigger] list[i])@ == "body-markup"@,
        linux::capabilities_in(list).inline_reply <==> exists|i: int|
            0 <= i < list.len() && (#[trigger] list[i])@ == "inline-reply"@,
{
    listed_is_among(list, "actions"@);
    listed_is_among(list, "body-markup"@);
    listed_is_among(list, "inline-reply"@);
}

proof fn listed_is_among(list: Seq<String>, name: Seq<char>)
    ensures
        text::texts(list).contains(name) <==> exists|i: int|
            0 <= i < list.len() && (#[trigger] list[i])@ == name,
{
    if text::texts(list).contains(name) {
        let i = choose|i: int| 0 <= i < text::texts(list).len() && text::texts(list)[i] == name;
        assert(list[i]@ == name);
    }
    if exists|i: int| 0 <= i < list.len() && (#[trigger] list[i])@ == name {
        let i = choose|i: int| 0 <= i < list.len() && (#[trigger] list[i])@ == name;
        assert(text::texts(list)[i] == name);
    }
}

/// A daemon that is not there is told from every other failure, whoever reports it.
pub proof fn a_missing_daemon_is_known(error: BusFailure)
    ensures
        linux::bus_failure(error) == Error::NoService <==> {
            ||| error matches BusFailure::Method(name) && (name
                == "org.freedesktop.DBus.Error.ServiceUnknown"@ || name
                == "org.freedesktop.DBus.Error.NameHasNoOwner"@)
            ||| error matches BusFailure::Standard(name) && (name
                == "org.freedesktop.DBus.Error.ServiceUnknown"@ || name
                == "org.freedesktop.DBus.Error.NameHasNoOwner"@)
        },
        linux::bus_failure(error) != Error::NoService ==> linux::bus_failure(error) == Error::DBus,
{
}

} // verus!

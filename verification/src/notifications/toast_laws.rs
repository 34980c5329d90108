//! What toasts look like and how long they last, in terms of what the application asked for.

use super::options::{Action, ActionKind, OptionsModel};
use super::windows;
use super::windows::{ArgumentsModel, ToastsModel};
use super::{KindModel, Sound, Urgency};
use crate::fnv;
use crate::percent;
use crate::text;
use crate::time::{TimeSpan, Timestamp};
use vstd::prelude::*;
use vstd::utf8::*;

verus! {

/// What stands between two pieces of a text is in the text.
proof fn between<T>(front: Seq<T>, middle: Seq<T>, back: Seq<T>, whole: Seq<T>)
    requires
        whole == front + middle + back,
    ensures
        exists|at: int|
            0 <= at && at + middle.len() <= whole.len() && #[trigger] whole.subrange(
                at,
                at + middle.len(),
            ) == middle,
{
    let at = front.len() as int;
    assert(whole.subrange(at, at + middle.len()) =~= middle);
}

proof fn regrouped<T>(
    front: Seq<T>,
    lines: (Seq<T>, Seq<T>, Seq<T>, Seq<T>),
    back: (Seq<T>, Seq<T>, Seq<T>, Seq<T>, Seq<T>, Seq<T>),
)
    ensures
        front + lines.0 + lines.1 + lines.2 + lines.3 + back.0 + back.1 + back.2 + back.3 + back.4
            + back.5 == front + (lines.0 + lines.1 + lines.2 + lines.3) + (back.0 + back.1 + back.2
            + back.3 + back.4 + back.5),
{
    let middle = lines.0 + lines.1 + lines.2 + lines.3;
    assert(front + lines.0 + lines.1 + lines.2 + lines.3 =~= front + middle);
    let start = front + middle;
    assert(start + back.0 + back.1 + back.2 + back.3 + back.4 + back.5 =~= start + (back.0 + back.1
        + back.2 + back.3 + back.4 + back.5));
}

/// A toast shows its title, its body and its subtitle, one under another, each written as text. What
/// was not set takes no line.
pub proof fn lines_stand_one_under_another(
    options: OptionsModel,
    quiet: bool,
    image: Option<Seq<char>>,
    value: Seq<char>,
    title: Seq<char>,
    body: Seq<char>,
    subtitle: Seq<char>,
)
    requires
        title == match options.title {
            Some(title) => "<text>"@ + windows::xml_text(title) + "</text>"@,
            None => Seq::empty(),
        },
        body == match options.body {
            Some(body) => "<text>"@ + windows::xml_text(body) + "</text>"@,
            None => Seq::empty(),
        },
        subtitle == match options.subtitle {
            Some(subtitle) => "<text>"@ + windows::xml_text(subtitle) + "</text>"@,
            None => Seq::empty(),
        },
    ensures
        ({
            let lines = "<visual><binding template=\"ToastGeneric\">"@ + title + body + subtitle;
            let toast = windows::toast_xml(options, quiet, image, value);
            exists|at: int|
                0 <= at && at + lines.len() <= toast.len() && #[trigger] toast.subrange(
                    at,
                    at + lines.len(),
                ) == lines
        }),
{
    let opening = "<visual><binding template=\"ToastGeneric\">"@;
    assert(title == windows::line_xml(options.title));
    assert(body == windows::line_xml(options.body));
    assert(subtitle == windows::line_xml(options.subtitle));
    let lines = opening + title + body + subtitle;
    let front = "<toast"@ + windows::attribute(
        "launch"@,
        windows::arguments_text(options.id, None, options.metadata),
    ) + windows::scenario_xml(options) + windows::duration_xml(options.timeout) + ">"@;
    let picture = windows::image_xml(image);
    let bar = windows::progress_xml(options, value);
    let closing = "</binding></visual>"@;
    let actions = windows::actions_xml(options);
    let audio = windows::audio_xml(options.sound, quiet);
    let end = "</toast>"@;
    let back = picture + bar + closing + actions + audio + end;
    let toast = windows::toast_xml(options, quiet, image, value);
    regrouped(front, (opening, title, body, subtitle), (picture, bar, closing, actions, audio, end));
    assert(toast == front + lines + back);
    between(front, lines, back, toast);
}

/// A toast that is to stay for twenty-five seconds or more is a long one; no other is.
pub proof fn long_toasts_stay_long(timeout: Option<TimeSpan>)
    ensures
        windows::duration_xml(timeout) == if (timeout matches Some(time) && time.secs
            * 1_000_000_000 + time.nanos >= 25_000_000_000) {
            " duration=\"long\""@
        } else {
            Seq::empty()
        },
{
}

/// What is critical is urgent; what else is persistent is a reminder; the rest is neither.
pub proof fn urgent_toasts_are_marked(options: OptionsModel)
    ensures
        options.urgency == Some(Urgency::Critical) ==> windows::scenario_xml(options)
            == " scenario=\"urgent\""@,
        options.urgency != Some(Urgency::Critical) && options.persistent ==> windows::scenario_xml(
            options,
        ) == " scenario=\"reminder\""@,
        options.urgency != Some(Urgency::Critical) && !options.persistent
            ==> windows::scenario_xml(options).len() == 0,
{
}

/// A toast is silent if it was to be, or if it is shown again. A name that the system knows is played;
/// for anything else the system picks the sound.
pub proof fn toasts_sound_as_asked(sound: Option<Sound>, quiet: bool)
    ensures
        quiet || sound == Some(Sound::Silent) ==> windows::audio_xml(sound, quiet)
            == "<audio silent=\"true\"/>"@,
        !quiet ==> (sound matches Some(Sound::Named(name)) ==> if text::begins_with(
            name@,
            "ms-winsoundevent:"@,
        ) || text::begins_with(name@, "ms-appx:"@) {
            windows::audio_xml(sound, quiet) == "<audio"@ + windows::attribute("src"@, name@)
                + "/>"@
        } else {
            windows::audio_xml(sound, quiet).len() == 0
        }),
        !quiet && !(sound matches Some(Sound::Named(_))) && sound != Some(Sound::Silent)
            ==> windows::audio_xml(sound, quiet).len() == 0,
{
}

/// A toast shows its image, if it has one, and its progress: as it is where the toast waits for its
/// time, and else as data that can be replaced.
pub proof fn toasts_show_image_and_progress(
    options: OptionsModel,
    image: Option<Seq<char>>,
    value: Seq<char>,
)
    ensures
        image is None ==> windows::image_xml(image).len() == 0,
        image matches Some(uri) ==> windows::image_xml(image)
            == "<image placement=\"hero\" src=\""@ + windows::xml_text(uri) + "\"/>"@,
        options.progress is None ==> windows::progress_xml(options, value).len() == 0,
        options.progress is Some && options.scheduled_time is None ==> windows::progress_xml(
            options,
            value,
        ) == "<progress value=\"{progressValue}\" status=\"{progressStatus}\"/>"@,
        options.progress is Some && options.scheduled_time is Some ==> windows::progress_xml(
            options,
            value,
        ) == "<progress value=\""@ + value + "\" status=\"\"/>"@,
{
    reveal_strlit("<image placement=\"hero\" src=\"");
    reveal_strlit("<image placement=\"hero\"");
    reveal_strlit(" ");
    reveal_strlit("src");
    reveal_strlit("=\"");
    reveal_strlit("\"");
    reveal_strlit("/>");
    reveal_strlit("\"/>");
    assert("<image placement=\"hero\" src=\""@ =~= "<image placement=\"hero\""@ + " "@ + "src"@
        + "=\""@);
    assert("\"/>"@ =~= "\""@ + "/>"@);
    match image {
        Some(uri) => {
            let text = windows::xml_text(uri);
            assert(windows::image_xml(image) =~= ("<image placement=\"hero\""@ + " "@ + "src"@
                + "=\""@) + text + ("\""@ + "/>"@));
        },
        None => {},
    }
}

/// Each action has a button of its own after those before it, with its title, and with what it takes
/// to tell which action of which notification it was. A reply's button belongs to its text box.
pub proof fn each_action_has_a_button(
    id: Seq<char>,
    metadata: Seq<(Seq<char>, Seq<char>)>,
    actions: Seq<Action>,
    next: Action,
)
    ensures
        windows::buttons_xml(id, metadata, Seq::empty()).len() == 0,
        windows::buttons_xml(id, metadata, actions.push(next)) == windows::buttons_xml(
            id,
            metadata,
            actions,
        ) + ("<action content=\""@ + windows::xml_text(next.title@) + "\" arguments=\""@
            + windows::xml_text(windows::arguments_text(id, Some(next.id@), metadata)) + if next.kind
            == ActionKind::Reply {
            "\" hint-inputId=\""@ + windows::xml_text(next.id@)
        } else {
            Seq::empty()
        } + "\"/>"@),
{
    assert(actions.push(next).drop_last() =~= actions);
    reveal_strlit("<action content=\"");
    reveal_strlit("<action");
    reveal_strlit(" ");
    reveal_strlit("content");
    reveal_strlit("=\"");
    reveal_strlit("\"");
    reveal_strlit("arguments");
    reveal_strlit("\" arguments=\"");
    reveal_strlit("hint-inputId");
    reveal_strlit("\" hint-inputId=\"");
    reveal_strlit("/>");
    reveal_strlit("\"/>");
    let title = windows::xml_text(next.title@);
    let arguments = windows::xml_text(windows::arguments_text(id, Some(next.id@), metadata));
    let own = windows::xml_text(next.id@);
    assert("<action content=\""@ =~= "<action"@ + " "@ + "content"@ + "=\""@);
    assert("\" arguments=\""@ =~= "\""@ + " "@ + "arguments"@ + "=\""@);
    assert("\" hint-inputId=\""@ =~= "\""@ + " "@ + "hint-inputId"@ + "=\""@);
    assert("\"/>"@ =~= "\""@ + "/>"@);
    if next.kind == ActionKind::Reply {
        assert(windows::button_xml(id, metadata, next) =~= ("<action"@ + " "@ + "content"@ + "=\""@)
            + title + ("\""@ + " "@ + "arguments"@ + "=\""@) + arguments + (("\""@ + " "@
            + "hint-inputId"@ + "=\""@) + own) + ("\""@ + "/>"@));
    } else {
        assert(windows::button_xml(id, metadata, next) =~= ("<action"@ + " "@ + "content"@ + "=\""@)
            + title + ("\""@ + " "@ + "arguments"@ + "=\""@) + arguments + Seq::<char>::empty() + (
        "\""@ + "/>"@));
    }
}

/// Replies have a text box, which asks with the placeholder, and buttons have none.
pub proof fn each_reply_has_a_text_box(actions: Seq<Action>, next: Action)
    ensures
        windows::inputs_xml(Seq::empty()).len() == 0,
        next.kind == ActionKind::Button ==> windows::inputs_xml(actions.push(next))
            == windows::inputs_xml(actions),
        next.kind == ActionKind::Reply ==> windows::inputs_xml(actions.push(next))
            == windows::inputs_xml(actions) + ("<input id=\""@ + windows::xml_text(next.id@)
            + "\" type=\"text\""@ + match next.placeholder {
            Some(placeholder) => " placeHolderContent=\""@ + windows::xml_text(placeholder@)
                + "\""@,
            None => Seq::empty(),
        } + "/>"@),
{
    assert(actions.push(next).drop_last() =~= actions);
    reveal_strlit("<input id=\"");
    reveal_strlit("<input");
    reveal_strlit(" ");
    reveal_strlit("id");
    reveal_strlit("=\"");
    reveal_strlit("\"");
    reveal_strlit(" type=\"text\"");
    reveal_strlit("\" type=\"text\"");
    reveal_strlit("placeHolderContent");
    reveal_strlit(" placeHolderContent=\"");
    assert("<input id=\""@ =~= "<input"@ + " "@ + "id"@ + "=\""@);
    assert("\" type=\"text\""@ =~= "\""@ + " type=\"text\""@);
    assert(" placeHolderContent=\""@ =~= " "@ + "placeHolderContent"@ + "=\""@);
    let own = windows::xml_text(next.id@);
    if next.kind == ActionKind::Reply {
        let rest = match next.placeholder {
            Some(placeholder) => " placeHolderContent=\""@ + windows::xml_text(placeholder@)
                + "\""@,
            None => Seq::empty(),
        };
        assert(windows::input_xml(next) =~= ("<input"@ + " "@ + "id"@ + "=\""@) + own + ("\""@
            + " type=\"text\""@) + rest + "/>"@);
    } else {
        assert(windows::inputs_xml(actions) + Seq::<char>::empty() =~= windows::inputs_xml(
            actions,
        ));
    }
}

/// The first five actions are shown, text boxes before buttons; a toast without any has no place for
/// them.
pub proof fn five_actions_are_shown(options: OptionsModel)
    ensures
        options.actions.len() == 0 ==> windows::actions_xml(options).len() == 0,
        options.actions.len() > 0 ==> ({
            let count = if options.actions.len() > 5 {
                5
            } else {
                options.actions.len() as int
            };
            let shown = options.actions.take(count);
            windows::actions_xml(options) == "<actions>"@ + windows::inputs_xml(shown)
                + windows::buttons_xml(options.id, options.metadata, shown) + "</actions>"@
        }),
{
    assert(options.actions.take(options.actions.len() as int) =~= options.actions);
}

/// Text is written character by character. What would be markup is written out; a control character
/// becomes a space; everything else stays.
pub proof fn text_is_written_one_by_one(text: Seq<char>, next: char)
    ensures
        windows::xml_text(Seq::empty()).len() == 0,
        windows::xml_text(text.push(next)) == windows::xml_text(text) + match next {
            '&' => seq!['&', 'a', 'm', 'p', ';'],
            '<' => seq!['&', 'l', 't', ';'],
            '>' => seq!['&', 'g', 't', ';'],
            '"' => seq!['&', 'q', 'u', 'o', 't', ';'],
            '\'' => seq!['&', 'a', 'p', 'o', 's', ';'],
            '\t' => seq!['\t'],
            '\n' => seq!['\n'],
            '\r' => seq!['\r'],
            '\u{FFFE}' => seq![' '],
            '\u{FFFF}' => seq![' '],
            _ => if next as u32 <= 31 {
                seq![' ']
            } else {
                seq![next]
            },
        },
{
    assert(text.push(next).drop_last() =~= text);
    reveal_strlit("&amp;");
    reveal_strlit("&lt;");
    reveal_strlit("&gt;");
    reveal_strlit("&quot;");
    reveal_strlit("&apos;");
    assert("&amp;"@ =~= seq!['&', 'a', 'm', 'p', ';']);
    assert("&lt;"@ =~= seq!['&', 'l', 't', ';']);
    assert("&gt;"@ =~= seq!['&', 'g', 't', ';']);
    assert("&quot;"@ =~= seq!['&', 'q', 'u', 'o', 't', ';']);
    assert("&apos;"@ =~= seq!['&', 'a', 'p', 'o', 's', ';']);
}

/// The system counts tenths of microseconds from the start of the year 1601, which was
/// 11,644,473,600 seconds before the epoch.
pub proof fn times_are_counted_in_ticks(time: Timestamp)
    requires
        0 <= time.secs < 900_000_000_000,
        time.nanos < 1_000_000_000,
    ensures
        ({
            let nanos = (time.secs + 11_644_473_600) * 1_000_000_000 + time.nanos;
            windows::ticks(time) * 100 <= nanos < (windows::ticks(time) + 1) * 100
        }),
{
    let since = time.instant() / 100;
    assert(windows::low_bits(since) == since) by {
        assert((since + 0x8000_0000_0000_0000) % 0x1_0000_0000_0000_0000 == since
            + 0x8000_0000_0000_0000);
    }
}

/// Times before the epoch count as the epoch.
pub proof fn early_times_are_the_epoch(time: Timestamp)
    requires
        time.secs < 0,
        time.nanos < 1_000_000_000,
    ensures
        windows::ticks(time) == 116_444_736_000_000_000,
{
}

/// A toast goes away when its time is over: as many nanoseconds after it was shown as it was to stay.
pub proof fn toasts_end_when_their_time_is_over(time: Timestamp, span: TimeSpan)
    ensures
        windows::later(time, span) - (time.secs * 1_000_000_000 + time.nanos) == span.secs
            * 1_000_000_000 + span.nanos,
{
}

/// A toast that is acted on tells of its own notification and metadata: of the action that was pressed
/// and what was typed for it, or that the toast itself was opened.
pub proof fn acting_tells_what_was_done(arguments: ArgumentsModel, reply: Option<Seq<char>>)
    ensures
        ({
            let told = windows::activation(arguments, reply);
            &&& told.notification_id == arguments.notification_id
            &&& told.metadata == arguments.metadata
            &&& arguments.action_id is None <==> told.kind is Activated
            &&& arguments.action_id matches Some(pressed) ==> {
                &&& reply is None ==> told.kind == (KindModel::Action { id: pressed })
                &&& reply matches Some(typed) ==> told.kind == (KindModel::Reply {
                    action_id: pressed,
                    text: typed,
                })
            }
        }),
{
}

/// One waiting toast is found by its tag alone. To remove all of ours is to remove those of our group,
/// and those that do not tell their group.
pub proof fn waiting_toasts_are_told_apart(
    tag: Option<Seq<char>>,
    group: Option<Seq<char>>,
    wanted: Seq<char>,
)
    ensures
        windows::removable(Some(wanted), tag, group) <==> (tag matches Some(tag) && tag == wanted),
        windows::removable(None, tag, group) <==> (group matches Some(group) ==> group == seq![
            'r',
            'o',
            'b',
            'i',
            'u',
            's',
        ]),
{
    reveal_strlit("robius");
    assert(windows::GROUP@ =~= seq!['r', 'o', 'b', 'i', 'u', 's']);
}

/// Toasts are shown under the application's id, or else under the one that was registered.
pub proof fn toasts_go_by_the_application(
    app_id: Option<Seq<char>>,
    registered: Option<Seq<char>>,
)
    ensures
        app_id matches Some(id) ==> windows::aumid_text(app_id, registered) == id,
        app_id is None ==> (registered matches Some(id) ==> windows::aumid_text(app_id, registered)
            == id),
        app_id is None && registered is None ==> windows::aumid_text(app_id, registered)
            == "{1AC14E77-02E7-4E5D-B744-2EB1AE5198B7}\\WindowsPowerShell\\v1.0\\powershell.exe"@,
{
}

/// The data of a tag is numbered from one on. No other tag's numbers change.
pub proof fn data_is_numbered_from_one(toasts: ToastsModel, tag: Seq<char>, other: Seq<char>)
    ensures
        !toasts.progress_seqs.dom().contains(tag) ==> toasts.next_number(tag) == 1,
        toasts.progress_seqs.dom().contains(tag) ==> toasts.next_number(tag) - 1
            == toasts.progress_seqs[tag],
        toasts.exhausted(tag) <==> toasts.progress_seqs.dom().contains(tag)
            && toasts.progress_seqs[tag] == u32::MAX,
        !toasts.exhausted(tag) ==> toasts.bumped(tag).progress_seqs[tag] == toasts.next_number(tag),
        toasts.bumped(tag).progress_seqs.dom().contains(tag),
        toasts.bumped(tag).tag_ids == toasts.tag_ids,
        other != tag ==> (toasts.bumped(tag).progress_seqs.dom().contains(other)
            <==> toasts.progress_seqs.dom().contains(other))
            && toasts.bumped(tag).progress_seqs[other] == toasts.progress_seqs[other],
{
}

/// The marks of a resolved path are taken off, and a share keeps its two backslashes.
pub proof fn marks_are_taken_off(path: Seq<char>)
    ensures
        windows::unmarked(seq!['\\', '\\', '?', '\\', 'U', 'N', 'C', '\\'] + path) == seq![
            '\\',
            '\\',
        ] + path,
        !(path.len() >= 4 && path.take(4) == seq!['U', 'N', 'C', '\\']) ==> windows::unmarked(
            seq!['\\', '\\', '?', '\\'] + path,
        ) == path,
        !(path.len() >= 4 && path.take(4) == seq!['\\', '\\', '?', '\\']) ==> windows::unmarked(path)
            == path,
{
    reveal_strlit("\\\\?\\UNC\\");
    reveal_strlit("\\\\?\\");
    reveal_strlit("\\\\");
    let long = seq!['\\', '\\', '?', '\\', 'U', 'N', 'C', '\\'];
    let short = seq!['\\', '\\', '?', '\\'];
    let unc = seq!['U', 'N', 'C', '\\'];
    assert("\\\\?\\UNC\\"@ =~= long);
    assert("\\\\?\\"@ =~= short);
    assert("\\\\"@ =~= seq!['\\', '\\']);
    let share = long + path;
    assert(share.subrange(0, 8) =~= long);
    assert(share.subrange(8, share.len() as int) =~= path);
    let local = short + path;
    assert(local.subrange(0, 4) =~= short);
    assert(local.subrange(4, local.len() as int) =~= path);
    if local.len() >= 8 && local.subrange(0, 8) == long {
        assert(path.take(4) =~= unc) by {
            assert forall|i: int| 0 <= i < 4 implies path[i] == unc[i] by {
                assert(local.subrange(0, 8)[i + 4] == path[i]);
                assert(long[i + 4] == unc[i]);
            }
        }
    }
    if path.len() >= 4 {
        assert(path.take(4) =~= path.subrange(0, 4));
        if path.len() >= 8 && path.subrange(0, 8) == long {
            assert(path.take(4) =~= short) by {
                assert forall|i: int| 0 <= i < 4 implies path[i] == short[i] by {
                    assert(path.subrange(0, 8)[i] == path[i]);
                    assert(long[i] == short[i]);
                }
            }
        }
    }
}

/// In a file's address a backslash is a slash, letters, digits and a few signs stay, and every other
/// character is written by its bytes.
pub proof fn addresses_are_written_one_by_one(path: Seq<char>, next: char)
    ensures
        windows::uri_text(Seq::empty()).len() == 0,
        windows::uri_text(path.push(next)) == windows::uri_text(path) + if next == '\\' {
            seq!['/']
        } else if ('A' <= next && next <= 'Z') || ('a' <= next && next <= 'z') || ('0' <= next
            && next <= '9') || next == '/' || next == ':' || next == '-' || next == '_' || next
            == '.' || next == '~' {
            seq![next]
        } else {
            windows::escaped_bytes(encode_utf8(seq![next]))
        },
{
    assert(path.push(next).drop_last() =~= path);
}

/// Each byte is mixed into the hash, and what comes of it is multiplied up within 64 bits.
pub proof fn hashes_take_each_byte(hash: u64, bytes: Seq<u8>, next: u8)
    ensures
        fnv::hashed(hash, Seq::empty()) == hash,
        fnv::hashed(hash, bytes.push(next)) == ((fnv::hashed(hash, bytes) ^ (next as u64))
            * 0x100_0000_01b3) % 0x1_0000_0000_0000_0000,
{
    assert(bytes.push(next).drop_last() =~= bytes);
}

/// The tag is the hash of the id's bytes, from the usual start, in sixteen digits.
pub proof fn tags_are_the_hash(id: Seq<char>)
    ensures
        windows::tag_text(id) == text::hex_text(
            fnv::hashed(0xcbf2_9ce4_8422_2325, encode_utf8(id)) as nat,
            16,
        ),
{
}

/// What a toast hands back names the notification, then the action if there is one, each in a field
/// of its own and written so that it holds no separator.
pub proof fn arguments_name_notification_and_action(id: Seq<char>, action_id: Seq<char>)
    ensures
        windows::arguments_text(id, None, Seq::empty()) == seq!['i', 'd', '='] + percent::encoded(
            id,
        ),
        windows::arguments_text(id, Some(action_id), Seq::empty()) == seq!['i', 'd', '=']
            + percent::encoded(id) + seq!['&', 'a', 'c', 't', 'i', 'o', 'n', '=']
            + percent::encoded(action_id),
{
    reveal_strlit("id");
    reveal_strlit("action");
    assert("id"@.push('=') =~= seq!['i', 'd', '=']);
    assert("action"@.push('=') =~= seq!['a', 'c', 't', 'i', 'o', 'n', '=']);
    let start = seq!['i', 'd', '='] + percent::encoded(id);
    let action = percent::encoded(action_id);
    assert(start.push('&') + (seq!['a', 'c', 't', 'i', 'o', 'n', '='] + action) =~= start + seq![
        '&',
        'a',
        'c',
        't',
        'i',
        'o',
        'n',
        '=',
    ] + action);
}

/// Each pair of the metadata follows in a field of its own, key and value with a colon between them.
pub proof fn arguments_carry_the_metadata(
    id: Seq<char>,
    action_id: Option<Seq<char>>,
    metadata: Seq<(Seq<char>, Seq<char>)>,
    key: Seq<char>,
    value: Seq<char>,
)
    ensures
        windows::arguments_text(id, action_id, metadata.push((key, value)))
            == windows::arguments_text(id, action_id, metadata) + seq!['&', 'm', '=']
            + percent::encoded(key) + seq![':'] + percent::encoded(value),
{
    reveal_strlit("m");
    assert("m"@.push('=') =~= seq!['m', '=']);
    assert(metadata.push((key, value)).drop_last() =~= metadata);
    let start = windows::arguments_text(id, action_id, metadata);
    let left = percent::encoded(key);
    let right = percent::encoded(value);
    assert(start.push('&') + (seq!['m', '='] + (left.push(':') + right)) =~= start + seq![
        '&',
        'm',
        '=',
    ] + left + seq![':'] + right);
}

/// The ids of toasts on screen are those that their tags stand for; a tag that is not ours adds none.
pub proof fn toasts_on_screen_are_known_by_tag(
    toasts: ToastsModel,
    tags: Seq<Option<Seq<char>>>,
    next: Option<Seq<char>>,
)
    ensures
        windows::known_ids(toasts, Seq::empty()).len() == 0,
        (next matches Some(tag) && toasts.tag_ids.dom().contains(tag)) ==> windows::known_ids(
            toasts,
            tags.push(next),
        ) == windows::known_ids(toasts, tags).push(toasts.tag_ids[next->Some_0]@),
        (next matches Some(tag) ==> !toasts.tag_ids.dom().contains(tag)) ==> windows::known_ids(
            toasts,
            tags.push(next),
        ) == windows::known_ids(toasts, tags),
{
    assert(tags.push(next).drop_last() =~= tags);
}

/// Each field is read by its name: the last id and the last action count, every pair of metadata is
/// kept, and what has another name or no value is skipped.
pub proof fn fields_are_read_by_name(
    before: ArgumentsModel,
    name: Seq<char>,
    value: Seq<char>,
    key: Seq<char>,
    more: Seq<char>,
)
    requires
        forall|i: int| 0 <= i < name.len() ==> #[trigger] name[i] != '=',
        forall|i: int| 0 <= i < key.len() ==> #[trigger] key[i] != ':',
    ensures
        ({
            let after = before.read(name + seq!['='] + value);
            let paired = before.read(seq!['m', '='] + key + seq![':'] + more);
            &&& name == seq!['i', 'd'] ==> after == (ArgumentsModel {
                notification_id: percent::decoded(value),
                ..before
            })
            &&& name == seq!['a', 'c', 't', 'i', 'o', 'n'] ==> after == (ArgumentsModel {
                action_id: Some(percent::decoded(value)),
                ..before
            })
            &&& name != seq!['i', 'd'] && name != seq!['a', 'c', 't', 'i', 'o', 'n'] && name
                != seq!['m'] ==> after == before
            &&& paired == (ArgumentsModel {
                metadata: before.metadata.push((percent::decoded(key), percent::decoded(more))),
                ..before
            })
            &&& before.read(name) == before
        }),
{
    reveal_strlit("id");
    reveal_strlit("action");
    reveal_strlit("m");
    assert("id"@ =~= seq!['i', 'd']);
    assert("action"@ =~= seq!['a', 'c', 't', 'i', 'o', 'n']);
    assert("m"@ =~= seq!['m']);
    percent::halves_of_joined(name, value, '=');
    assert(name.push('=') + value =~= name + seq!['='] + value);
    let pair = key.push(':') + more;
    percent::halves_of_joined(seq!['m'], pair, '=');
    assert(seq!['m'].push('=') + pair =~= seq!['m', '='] + key + seq![':'] + more);
    percent::halves_of_joined(key, more, ':');
    assert(seq!['m'] != seq!['i', 'd']) by {
        assert(seq!['m'].len() != seq!['i', 'd'].len());
    }
    assert(seq!['m'] != seq!['a', 'c', 't', 'i', 'o', 'n']) by {
        assert(seq!['m'].len() != seq!['a', 'c', 't', 'i', 'o', 'n'].len());
    }
    assert(seq!['i', 'd'] != seq!['a', 'c', 't', 'i', 'o', 'n']) by {
        assert(seq!['i', 'd'].len() != seq!['a', 'c', 't', 'i', 'o', 'n'].len());
    }
    text::before_first_is_prefix(name, '=', name.len() as int);
    assert(name.subrange(0, name.len() as int) =~= name);
}

/// Arguments are read field by field, from an ampersand to the next.
pub proof fn arguments_are_read_field_by_field(arguments: Seq<char>, next: Seq<char>)
    requires
        forall|i: int| 0 <= i < next.len() ==> #[trigger] next[i] != '&',
    ensures
        windows::arguments_of(next) == (ArgumentsModel {
            notification_id: Seq::empty(),
            action_id: None,
            metadata: Seq::empty(),
        }).read(next),
        windows::arguments_of(arguments + seq!['&'] + next) == windows::arguments_of(
            arguments,
        ).read(next),
{
    percent::one_piece(next, '&');
    assert(seq![next].drop_last() =~= Seq::<Seq<char>>::empty());
    assert(windows::read_all(Seq::<Seq<char>>::empty()) == ArgumentsModel::empty());
    assert(windows::read_all(seq![next]) == ArgumentsModel::empty().read(seq![next].last()));
    percent::last_piece(arguments, next, '&');
    assert(arguments.push('&') + next =~= arguments + seq!['&'] + next);
    let pieces = percent::pieces(arguments, '&');
    assert(pieces.push(next).drop_last() =~= pieces);
}

} // verus!

//! Notifications on Windows: toasts, described in XML.

use super::options::{Action, ActionKind, NotificationOptions, OptionsModel};
use super::{
    copy_pairs, Error, Interaction, InteractionKind, InteractionModel, KindModel, Progress, Result,
    Sound, Urgency,
};
use crate::fnv;
use crate::percent;
use crate::table::Table;
use crate::text;
use crate::time::{TimeSpan, Timestamp};
use vstd::prelude::*;
use vstd::utf8::*;

verus! {

/// All our toasts share one group; the tag alone identifies each notification.
pub const GROUP: &'static str = "robius";

/// The identity of a program that every system has, borrowed by applications without one.
pub const POWERSHELL_AUMID: &'static str =
    "{1AC14E77-02E7-4E5D-B744-2EB1AE5198B7}\\WindowsPowerShell\\v1.0\\powershell.exe";

/// The system's settings page for notifications.
pub const SETTINGS_URI: &'static str = "ms-settings:notifications";

/// How many actions a toast may have.
pub const MAX_ACTIONS: usize = 5;

/// A toast that stays at least this many nanoseconds is a long one.
pub const LONG_TOAST_NANOS: u128 = 25_000_000_000;

/// The code that says that a notification is already gone.
pub const NOT_FOUND: u32 = 0x8007_0490;

/// When the Unix epoch was, in ticks of 100 ns since the start of the year 1601.
pub const UNIX_EPOCH_TICKS: i64 = 116_444_736_000_000_000;

/// The tag of a notification: sixteen digits that are the same in every run.
pub open spec fn tag_text(id: Seq<char>) -> Seq<char> {
    text::hex_text(fnv::hashed(fnv::OFFSET_BASIS, encode_utf8(id)) as nat, 16)
}

/// The tag of a notification: sixteen digits that are the same in every run.
pub fn tag(id: &str) -> (r: String)
    ensures
        r@ == tag_text(id@),
{
    text::hex(fnv::mix_text(fnv::OFFSET_BASIS, id), 16)
}

/// The identity that toasts are shown under: the application's own, or else the one registered for
/// its process, or else a borrowed one.
pub open spec fn aumid_text(app_id: Option<Seq<char>>, registered: Option<Seq<char>>) -> Seq<char> {
    match (app_id, registered) {
        (Some(id), _) => id,
        (None, Some(id)) => id,
        (None, None) => POWERSHELL_AUMID@,
    }
}

/// The identity that toasts are shown under: the application's own, or else the one registered for
/// its process, or else a borrowed one.
pub fn aumid(app_id: &Option<String>, registered: &Option<String>) -> (r: String)
    ensures
        r@ == aumid_text(text::opt_text(*app_id), text::opt_text(*registered)),
{
    match app_id {
        Some(id) => id.clone(),
        None => match registered {
            Some(id) => id.clone(),
            None => POWERSHELL_AUMID.to_owned(),
        },
    }
}

/// What a character is written as in XML. Some control characters cannot be written at all; a space
/// takes their place.
pub open spec fn xml_char(c: char) -> Seq<char> {
    if c == '&' {
        "&amp;"@
    } else if c == '<' {
        "&lt;"@
    } else if c == '>' {
        "&gt;"@
    } else if c == '"' {
        "&quot;"@
    } else if c == '\'' {
        "&apos;"@
    } else if (c < ' ' && c != '\t' && c != '\n' && c != '\r') || c == '\u{FFFE}' || c
        == '\u{FFFF}' {
        seq![' ']
    } else {
        seq![c]
    }
}

/// The text as it is written in XML content and attribute values.
pub open spec fn xml_text(text: Seq<char>) -> Seq<char>
    decreases text.len(),
{
    if text.len() == 0 {
        Seq::empty()
    } else {
        xml_text(text.drop_last()) + xml_char(text.last())
    }
}

/// The text as it is written in XML content and attribute values.
pub fn escape_xml(text: &str) -> (r: String)
    ensures
        r@ == xml_text(text@),
{
    let chars = text::chars_of(text);
    let mut out = String::new();
    for i in 0..chars.len()
        invariant
            out@ == xml_text(chars@.take(i as int)),
    {
        let c = chars[i];
        if c == '&' {
            out.append("&amp;");
        } else if c == '<' {
            out.append("&lt;");
        } else if c == '>' {
            out.append("&gt;");
        } else if c == '"' {
            out.append("&quot;");
        } else if c == '\'' {
            out.append("&apos;");
        } else if (c < ' ' && c != '\t' && c != '\n' && c != '\r') || c == '\u{FFFE}' || c
            == '\u{FFFF}' {
            out.push(' ');
        } else {
            out.push(c);
        }
        proof {
            assert(chars@.take(i + 1).drop_last() == chars@.take(i as int));
            assert(out@ == xml_text(chars@.take(i as int)) + xml_char(c));
        }
    }
    assert(chars@.take(chars@.len() as int) == chars@);
    out
}

/// One named value.
pub open spec fn field(name: Seq<char>, value: Seq<char>) -> Seq<char> {
    name.push('=') + value
}

/// A key and its value.
pub open spec fn pair_field(pair: (Seq<char>, Seq<char>)) -> Seq<char> {
    field("m"@, percent::encoded(pair.0).push(':') + percent::encoded(pair.1))
}

pub open spec fn with_metadata(start: Seq<char>, metadata: Seq<(Seq<char>, Seq<char>)>) -> Seq<char>
    decreases metadata.len(),
{
    if metadata.len() == 0 {
        start
    } else {
        with_metadata(start, metadata.drop_last()).push('&') + pair_field(metadata.last())
    }
}

/// What is handed back when the user acts on a toast: which notification and action it was, and the
/// metadata.
pub open spec fn arguments_text(
    id: Seq<char>,
    action_id: Option<Seq<char>>,
    metadata: Seq<(Seq<char>, Seq<char>)>,
) -> Seq<char> {
    let start = field("id"@, percent::encoded(id));
    with_metadata(
        match action_id {
            Some(action_id) => start.push('&') + field("action"@, percent::encoded(action_id)),
            None => start,
        },
        metadata,
    )
}

/// Packs the notification's id, the pressed action's id and the metadata into one string: it is all
/// that the system hands back.
pub fn encode_arguments(
    notification_id: &str,
    action_id: Option<&String>,
    metadata: &Vec<(String, String)>,
) -> (r: String)
    ensures
        r@ == arguments_text(
            notification_id@,
            match action_id {
                Some(action_id) => Some(action_id@),
                None => None,
            },
            super::pairs(metadata@),
        ),
{
    let mut arguments = "id".to_owned();
    arguments.push('=');
    arguments.append(percent::percent_encode(notification_id).as_str());
    if let Some(action_id) = action_id {
        let ghost before = arguments@;
        arguments.push('&');
        arguments.append("action");
        arguments.push('=');
        arguments.append(percent::percent_encode(action_id.as_str()).as_str());
        assert(arguments@ == before.push('&') + field("action"@, percent::encoded(action_id@)));
    }
    let ghost start = arguments@;
    let ghost pairs = super::pairs(metadata@);
    for i in 0..metadata.len()
        invariant
            pairs == super::pairs(metadata@),
            arguments@ == with_metadata(start, pairs.take(i as int)),
    {
        let ghost before = arguments@;
        arguments.push('&');
        arguments.append("m");
        arguments.push('=');
        arguments.append(percent::percent_encode(metadata[i].0.as_str()).as_str());
        arguments.push(':');
        arguments.append(percent::percent_encode(metadata[i].1.as_str()).as_str());
        proof {
            assert(pairs.take(i + 1).drop_last() == pairs.take(i as int));
            assert(pairs.take(i + 1).last() == pairs[i as int]);
            assert(arguments@ == before.push('&') + pair_field(pairs[i as int]));
        }
    }
    assert(pairs.take(pairs.len() as int) == pairs);
    arguments
}

/// What the arguments of a toast say.
#[derive(Debug)]
pub struct Arguments {
    pub notification_id: String,
    pub action_id: Option<String>,
    pub metadata: Vec<(String, String)>,
}

#[verifier::ext_equal]
pub struct ArgumentsModel {
    pub notification_id: Seq<char>,
    pub action_id: Option<Seq<char>>,
    pub metadata: Seq<(Seq<char>, Seq<char>)>,
}

impl View for Arguments {
    type V = ArgumentsModel;

    open spec fn view(&self) -> ArgumentsModel {
        ArgumentsModel {
            notification_id: self.notification_id@,
            action_id: text::opt_text(self.action_id),
            metadata: super::pairs(self.metadata@),
        }
    }
}

impl ArgumentsModel {
    pub open spec fn empty() -> ArgumentsModel {
        ArgumentsModel { notification_id: Seq::empty(), action_id: None, metadata: Seq::empty() }
    }

    /// One more field is read. Fields that are not understood are skipped.
    pub open spec fn read(self, piece: Seq<char>) -> ArgumentsModel {
        match percent::halves(piece, '=') {
            Some((name, value)) => if name == "id"@ {
                ArgumentsModel { notification_id: percent::decoded(value), ..self }
            } else if name == "action"@ {
                ArgumentsModel { action_id: Some(percent::decoded(value)), ..self }
            } else if name == "m"@ {
                match percent::halves(value, ':') {
                    Some((key, value)) => ArgumentsModel {
                        metadata: self.metadata.push(
                            (percent::decoded(key), percent::decoded(value)),
                        ),
                        ..self
                    },
                    None => self,
                }
            } else {
                self
            },
            None => self,
        }
    }
}

/// What the fields say together: a later one wins over an earlier one of the same name.
pub open spec fn read_all(pieces: Seq<Seq<char>>) -> ArgumentsModel
    decreases pieces.len(),
{
    if pieces.len() == 0 {
        ArgumentsModel::empty()
    } else {
        read_all(pieces.drop_last()).read(pieces.last())
    }
}

/// What a toast's arguments say.
pub open spec fn arguments_of(arguments: Seq<char>) -> ArgumentsModel {
    read_all(percent::pieces(arguments, '&'))
}

fn read_piece(arguments: &mut Arguments, piece: &str)
    ensures
        final(arguments)@ == old(arguments)@.read(piece@),
{
    match percent::split_once(piece, '=') {
        Some((name, value)) => {
            if text::same(name.as_str(), "id") {
                arguments.notification_id = percent::percent_decode(value.as_str());
            } else if text::same(name.as_str(), "action") {
                arguments.action_id = Some(percent::percent_decode(value.as_str()));
            } else if text::same(name.as_str(), "m") {
                match percent::split_once(value.as_str(), ':') {
                    Some((key, value)) => {
                        let pair = (
                            percent::percent_decode(key.as_str()),
                            percent::percent_decode(value.as_str()),
                        );
                        arguments.metadata.push(pair);
                        assert(arguments@.metadata == old(arguments)@.metadata.push(
                            (pair.0@, pair.1@),
                        ));
                    },
                    None => {},
                }
            }
        },
        None => {},
    }
}

/// What a toast's arguments say: the inverse of [`encode_arguments`].
pub fn decode_arguments(arguments: &str) -> (r: Arguments)
    ensures
        r@ == arguments_of(arguments@),
{
    let pieces = percent::split(arguments, '&');
    let mut result = Arguments {
        notification_id: String::new(),
        action_id: None,
        metadata: Vec::new(),
    };
    assert(result@ =~= ArgumentsModel::empty());
    let ghost all = text::texts(pieces@);
    for i in 0..pieces.len()
        invariant
            all == text::texts(pieces@),
            result@ == read_all(all.take(i as int)),
    {
        read_piece(&mut result, pieces[i].as_str());
        assert(all.take(i + 1).drop_last() == all.take(i as int));
    }
    assert(all.take(all.len() as int) == all);
    result
}

/// What the user did by acting on a toast, given what was typed into the action's text box, if it
/// has one.
pub open spec fn activation(arguments: ArgumentsModel, reply: Option<Seq<char>>) -> InteractionModel {
    InteractionModel {
        notification_id: arguments.notification_id,
        kind: match (arguments.action_id, reply) {
            (None, _) => KindModel::Activated,
            (Some(action_id), Some(text)) => KindModel::Reply { action_id, text },
            (Some(action_id), None) => KindModel::Action { id: action_id },
        },
        metadata: arguments.metadata,
    }
}

/// What the user did by acting on a toast.
pub fn activated(arguments: Arguments, reply: Option<String>) -> (r: Interaction)
    ensures
        r@ == activation(arguments@, text::opt_text(reply)),
{
    Interaction {
        notification_id: arguments.notification_id,
        kind: match arguments.action_id {
            None => InteractionKind::Activated,
            Some(action_id) => match reply {
                Some(text) => InteractionKind::Reply { action_id, text },
                None => InteractionKind::Action { id: action_id },
            },
        },
        metadata: arguments.metadata,
    }
}

/// What the user did by making a toast go away. Timeouts and the like are no interactions.
pub fn dismissed(options: &NotificationOptions, by_user: bool) -> (r: Option<Interaction>)
    ensures
        r is Some <==> by_user,
        r matches Some(interaction) ==> interaction@ == (InteractionModel {
            notification_id: options@.id,
            kind: KindModel::Dismissed,
            metadata: options@.metadata,
        }),
{
    if by_user {
        Some(
            Interaction {
                notification_id: options.id.clone(),
                kind: InteractionKind::Dismissed,
                metadata: copy_pairs(&options.metadata),
            },
        )
    } else {
        None
    }
}

/// Every byte of a character, escaped.
pub open spec fn escaped_bytes(bytes: Seq<u8>) -> Seq<char>
    decreases bytes.len(),
{
    if bytes.len() == 0 {
        Seq::empty()
    } else {
        escaped_bytes(bytes.drop_last()) + percent::escaped_byte(bytes.last())
    }
}

/// A character that a file URI holds as it is.
pub open spec fn uri_plain(c: char) -> bool {
    ||| 'A' <= c <= 'Z'
    ||| 'a' <= c <= 'z'
    ||| '0' <= c <= '9'
    ||| c == '/'
    ||| c == ':'
    ||| c == '-'
    ||| c == '_'
    ||| c == '.'
    ||| c == '~'
}

/// What a character of a path is written as in a file URI.
pub open spec fn uri_char(c: char) -> Seq<char> {
    if c == '\\' {
        seq!['/']
    } else if uri_plain(c) {
        seq![c]
    } else {
        escaped_bytes(encode_utf8(seq![c]))
    }
}

pub open spec fn uri_text(path: Seq<char>) -> Seq<char>
    decreases path.len(),
{
    if path.len() == 0 {
        Seq::empty()
    } else {
        uri_text(path.drop_last()) + uri_char(path.last())
    }
}

/// A resolved path without the marks that resolving puts before it.
pub open spec fn unmarked(path: Seq<char>) -> Seq<char> {
    if text::begins_with(path, "\\\\?\\UNC\\"@) {
        "\\\\"@ + path.subrange("\\\\?\\UNC\\"@.len() as int, path.len() as int)
    } else if text::begins_with(path, "\\\\?\\"@) {
        path.subrange("\\\\?\\"@.len() as int, path.len() as int)
    } else {
        path
    }
}

fn push_escaped_char(out: &mut String, c: char)
    ensures
        final(out)@ == old(out)@ + escaped_bytes(encode_utf8(seq![c])),
{
    let mut single = String::new();
    single.push(c);
    assert(single@ == seq![c]);
    let bytes = single.as_str().as_bytes();
    for i in 0..bytes.len()
        invariant
            out@ == old(out)@ + escaped_bytes(bytes@.take(i as int)),
    {
        percent::push_escaped(out, bytes[i]);
        assert(bytes@.take(i + 1).drop_last() == bytes@.take(i as int));
        assert(out@ == old(out)@ + escaped_bytes(bytes@.take(i + 1)));
    }
    assert(bytes@.take(bytes@.len() as int) == bytes@);
}

/// The URI of a file, by its resolved path.
pub fn file_uri(path: &str) -> (r: String)
    ensures
        r@ == "file:///"@ + uri_text(unmarked(path@)),
{
    let plain = match text::strip_prefix(path, "\\\\?\\UNC\\") {
        Some(rest) => {
            let mut unc = "\\\\".to_owned();
            unc.append(rest.as_str());
            unc
        },
        None => match text::strip_prefix(path, "\\\\?\\") {
            Some(rest) => rest,
            None => path.to_owned(),
        },
    };
    let chars = text::chars_of(plain.as_str());
    let mut uri = "file:///".to_owned();
    for i in 0..chars.len()
        invariant
            uri@ == "file:///"@ + uri_text(chars@.take(i as int)),
    {
        let c = chars[i];
        if c == '\\' {
            uri.push('/');
        } else if ('A' <= c && c <= 'Z') || ('a' <= c && c <= 'z') || ('0' <= c && c <= '9') || c
            == '/' || c == ':' || c == '-' || c == '_' || c == '.' || c == '~' {
            uri.push(c);
        } else {
            push_escaped_char(&mut uri, c);
        }
        proof {
            assert(chars@.take(i + 1).drop_last() == chars@.take(i as int));
            assert(uri@ == "file:///"@ + uri_text(chars@.take(i + 1)));
        }
    }
    assert(chars@.take(chars@.len() as int) == chars@);
    uri
}

/// An attribute with its value.
pub open spec fn attribute(name: Seq<char>, value: Seq<char>) -> Seq<char> {
    " "@ + name + "=\""@ + xml_text(value) + "\""@
}

fn push_attribute(xml: &mut String, name: &str, value: &str)
    ensures
        final(xml)@ == old(xml)@ + attribute(name@, value@),
{
    xml.append(" ");
    xml.append(name);
    xml.append("=\"");
    xml.append(escape_xml(value).as_str());
    xml.append("\"");
    assert(xml@ == old(xml)@ + attribute(name@, value@));
}

pub open spec fn scenario_xml(options: OptionsModel) -> Seq<char> {
    if options.urgency == Some(Urgency::Critical) {
        " scenario=\"urgent\""@
    } else if options.persistent {
        " scenario=\"reminder\""@
    } else {
        Seq::empty()
    }
}

pub open spec fn duration_xml(timeout: Option<TimeSpan>) -> Seq<char> {
    if timeout is Some && timeout->0.length() >= LONG_TOAST_NANOS {
        " duration=\"long\""@
    } else {
        Seq::empty()
    }
}

/// A line of text, if there is one.
pub open spec fn line_xml(text: Option<Seq<char>>) -> Seq<char> {
    match text {
        Some(text) => "<text>"@ + xml_text(text) + "</text>"@,
        None => Seq::empty(),
    }
}

pub open spec fn image_xml(uri: Option<Seq<char>>) -> Seq<char> {
    match uri {
        Some(uri) => "<image placement=\"hero\""@ + attribute("src"@, uri) + "/>"@,
        None => Seq::empty(),
    }
}

/// The progress bar: bound to data that can be replaced, or fixed where the toast is scheduled and
/// can carry no data.
pub open spec fn progress_xml(options: OptionsModel, value: Seq<char>) -> Seq<char> {
    if options.progress is None {
        Seq::empty()
    } else if options.scheduled_time is None {
        "<progress value=\"{progressValue}\" status=\"{progressStatus}\"/>"@
    } else {
        "<progress value=\""@ + value + "\" status=\"\"/>"@
    }
}

/// The actions that a toast can have.
pub open spec fn shown_actions(actions: Seq<Action>) -> Seq<Action> {
    if actions.len() > MAX_ACTIONS {
        actions.take(MAX_ACTIONS as int)
    } else {
        actions
    }
}

/// The text box of a quick-reply action.
pub open spec fn input_xml(action: Action) -> Seq<char> {
    if action.kind == ActionKind::Reply {
        "<input"@ + attribute("id"@, action.id@) + " type=\"text\""@ + match action.placeholder {
            Some(placeholder) => attribute("placeHolderContent"@, placeholder@),
            None => Seq::empty(),
        } + "/>"@
    } else {
        Seq::empty()
    }
}

pub open spec fn inputs_xml(actions: Seq<Action>) -> Seq<char>
    decreases actions.len(),
{
    if actions.len() == 0 {
        Seq::empty()
    } else {
        inputs_xml(actions.drop_last()) + input_xml(actions.last())
    }
}

/// The button of an action.
pub open spec fn button_xml(
    id: Seq<char>,
    metadata: Seq<(Seq<char>, Seq<char>)>,
    action: Action,
) -> Seq<char> {
    "<action"@ + attribute("content"@, action.title@) + attribute(
        "arguments"@,
        arguments_text(id, Some(action.id@), metadata),
    ) + if action.kind == ActionKind::Reply {
        attribute("hint-inputId"@, action.id@)
    } else {
        Seq::empty()
    } + "/>"@
}

pub open spec fn buttons_xml(
    id: Seq<char>,
    metadata: Seq<(Seq<char>, Seq<char>)>,
    actions: Seq<Action>,
) -> Seq<char>
    decreases actions.len(),
{
    if actions.len() == 0 {
        Seq::empty()
    } else {
        buttons_xml(id, metadata, actions.drop_last()) + button_xml(id, metadata, actions.last())
    }
}

/// All the actions: the text boxes before the buttons.
pub open spec fn actions_xml(options: OptionsModel) -> Seq<char> {
    let actions = shown_actions(options.actions);
    if actions.len() == 0 {
        Seq::empty()
    } else {
        "<actions>"@ + inputs_xml(actions) + buttons_xml(options.id, options.metadata, actions)
            + "</actions>"@
    }
}

/// A name that the system knows a sound by.
pub open spec fn known_sound(name: Seq<char>) -> bool {
    text::begins_with(name, "ms-winsoundevent:"@) || text::begins_with(name, "ms-appx:"@)
}

pub open spec fn audio_xml(sound: Option<Sound>, quiet: bool) -> Seq<char> {
    if quiet {
        "<audio silent=\"true\"/>"@
    } else {
        match sound {
            Some(Sound::Silent) => "<audio silent=\"true\"/>"@,
            Some(Sound::Named(name)) => if known_sound(name@) {
                "<audio"@ + attribute("src"@, name@) + "/>"@
            } else {
                Seq::empty()
            },
            _ => Seq::empty(),
        }
    }
}

/// A toast in XML. `image` is the URI of its image, and `value` the state of its progress bar in
/// words.
pub open spec fn toast_xml(
    options: OptionsModel,
    quiet: bool,
    image: Option<Seq<char>>,
    value: Seq<char>,
) -> Seq<char> {
    "<toast"@ + attribute("launch"@, arguments_text(options.id, None, options.metadata))
        + scenario_xml(options) + duration_xml(options.timeout) + ">"@
        + "<visual><binding template=\"ToastGeneric\">"@ + line_xml(options.title) + line_xml(
        options.body,
    ) + line_xml(options.subtitle) + image_xml(image) + progress_xml(options, value)
        + "</binding></visual>"@ + actions_xml(options) + audio_xml(options.sound, quiet)
        + "</toast>"@
}

fn push_line(xml: &mut String, text: &Option<String>)
    ensures
        final(xml)@ == old(xml)@ + line_xml(text::opt_text(*text)),
{
    match text {
        Some(text) => {
            xml.append("<text>");
            xml.append(escape_xml(text.as_str()).as_str());
            xml.append("</text>");
        },
        None => {},
    }
    assert(xml@ == old(xml)@ + line_xml(text::opt_text(*text)));
}

fn push_input(xml: &mut String, action: &Action)
    ensures
        final(xml)@ == old(xml)@ + input_xml(*action),
{
    if action.kind == ActionKind::Reply {
        xml.append("<input");
        push_attribute(xml, "id", action.id.as_str());
        xml.append(" type=\"text\"");
        if let Some(placeholder) = &action.placeholder {
            push_attribute(xml, "placeHolderContent", placeholder.as_str());
        }
        xml.append("/>");
    }
    assert(xml@ == old(xml)@ + input_xml(*action));
}

fn push_button(xml: &mut String, options: &NotificationOptions, action: &Action)
    ensures
        final(xml)@ == old(xml)@ + button_xml(options@.id, options@.metadata, *action),
{
    let arguments = encode_arguments(options.id.as_str(), Some(&action.id), &options.metadata);
    xml.append("<action");
    push_attribute(xml, "content", action.title.as_str());
    push_attribute(xml, "arguments", arguments.as_str());
    if action.kind == ActionKind::Reply {
        push_attribute(xml, "hint-inputId", action.id.as_str());
    }
    xml.append("/>");
    assert(xml@ == old(xml)@ + button_xml(options@.id, options@.metadata, *action));
}

fn push_actions(xml: &mut String, options: &NotificationOptions)
    ensures
        final(xml)@ == old(xml)@ + actions_xml(options@),
{
    let count: usize = if options.actions.len() > MAX_ACTIONS {
        MAX_ACTIONS
    } else {
        options.actions.len()
    };
    let ghost shown = shown_actions(options@.actions);
    assert(shown == options.actions@.take(count as int));
    if count > 0 {
        xml.append("<actions>");
        let ghost start = xml@;
        for i in 0..count
            invariant
                count <= options.actions@.len(),
                shown == options.actions@.take(count as int),
                xml@ == start + inputs_xml(shown.take(i as int)),
        {
            push_input(xml, &options.actions[i]);
            assert(shown.take(i + 1).drop_last() == shown.take(i as int));
            assert(xml@ == start + inputs_xml(shown.take(i + 1)));
        }
        assert(shown.take(count as int) == shown);
        let ghost middle = xml@;
        for i in 0..count
            invariant
                count <= options.actions@.len(),
                shown == options.actions@.take(count as int),
                xml@ == middle + buttons_xml(options@.id, options@.metadata, shown.take(i as int)),
        {
            push_button(xml, options, &options.actions[i]);
            assert(shown.take(i + 1).drop_last() == shown.take(i as int));
            assert(xml@ == middle + buttons_xml(
                options@.id,
                options@.metadata,
                shown.take(i + 1),
            ));
        }
        assert(shown.take(count as int) == shown);
        xml.append("</actions>");
    }
    assert(xml@ == old(xml)@ + actions_xml(options@));
}

fn push_audio(xml: &mut String, sound: &Option<Sound>, quiet: bool)
    ensures
        final(xml)@ == old(xml)@ + audio_xml(*sound, quiet),
{
    if quiet {
        xml.append("<audio silent=\"true\"/>");
    } else {
        match sound {
            Some(Sound::Silent) => {
                xml.append("<audio silent=\"true\"/>");
            },
            Some(Sound::Named(name)) => {
                if text::starts_with(name.as_str(), "ms-winsoundevent:") || text::starts_with(
                    name.as_str(),
                    "ms-appx:",
                ) {
                    xml.append("<audio");
                    push_attribute(xml, "src", name.as_str());
                    xml.append("/>");
                }
            },
            _ => {},
        }
    }
    assert(xml@ == old(xml)@ + audio_xml(*sound, quiet));
}

/// A toast in XML. `image` is the URI of its image, and `value` the state of its progress bar in
/// words.
pub fn build_toast_xml(
    options: &NotificationOptions,
    quiet: bool,
    image: &Option<String>,
    value: &str,
) -> (r: String)
    ensures
        r@ == toast_xml(options@, quiet, text::opt_text(*image), value@),
{
    let launch = encode_arguments(options.id.as_str(), None, &options.metadata);
    let mut xml = "<toast".to_owned();
    push_attribute(&mut xml, "launch", launch.as_str());
    if options.urgency == Some(Urgency::Critical) {
        xml.append(" scenario=\"urgent\"");
    } else if options.persistent {
        xml.append(" scenario=\"reminder\"");
    }
    let ghost expected = "<toast"@ + attribute(
        "launch"@,
        arguments_text(options@.id, None, options@.metadata),
    ) + scenario_xml(options@);
    assert(xml@ == expected);
    let long = match options.timeout {
        Some(timeout) => timeout.length_nanos() >= LONG_TOAST_NANOS,
        None => false,
    };
    if long {
        xml.append(" duration=\"long\"");
    }
    assert(xml@ == expected + duration_xml(options@.timeout));
    xml.append(">");
    xml.append("<visual><binding template=\"ToastGeneric\">");
    push_line(&mut xml, &options.title);
    push_line(&mut xml, &options.body);
    push_line(&mut xml, &options.subtitle);
    let ghost before = xml@;
    if let Some(uri) = image {
        xml.append("<image placement=\"hero\"");
        push_attribute(&mut xml, "src", uri.as_str());
        xml.append("/>");
    }
    assert(xml@ == before + image_xml(text::opt_text(*image)));
    let ghost before = xml@;
    if options.progress.is_some() {
        if options.scheduled_time.is_none() {
            xml.append("<progress value=\"{progressValue}\" status=\"{progressStatus}\"/>");
        } else {
            xml.append("<progress value=\"");
            xml.append(value);
            xml.append("\" status=\"\"/>");
        }
    }
    assert(xml@ == before + progress_xml(options@, value@));
    xml.append("</binding></visual>");
    push_actions(&mut xml, options);
    push_audio(&mut xml, &options.sound, quiet);
    xml.append("</toast>");
    xml
}

/// The state of a progress bar in words, where `fraction` says how much is done.
pub fn progress_value(progress: Progress, fraction: &str) -> (r: String)
    ensures
        r@ == if progress is Indeterminate {
            "indeterminate"@
        } else {
            fraction@
        },
{
    match progress {
        Progress::Indeterminate => "indeterminate".to_owned(),
        Progress::Determinate { .. } => fraction.to_owned(),
    }
}

/// What 64 bits keep of a number, read as a signed one.
pub open spec fn low_bits(n: int) -> int {
    (n + 0x8000_0000_0000_0000) % 0x1_0000_0000_0000_0000 - 0x8000_0000_0000_0000
}

/// A time in ticks since the start of the year 1601. Times before the Unix epoch count as the epoch,
/// and the end of the scale is as far as it goes.
pub open spec fn ticks(time: Timestamp) -> int {
    let since = if time.instant() < 0 {
        0
    } else {
        time.instant() / 100
    };
    let sum = UNIX_EPOCH_TICKS + low_bits(since);
    if sum > i64::MAX {
        i64::MAX as int
    } else {
        sum
    }
}

/// A time in ticks since the start of the year 1601.
pub fn datetime(time: &Timestamp) -> (r: i64)
    ensures
        r == ticks(*time),
{
    let nanos: i128 = time.instant_nanos();
    let since: i128 = if nanos < 0 {
        0
    } else {
        nanos / 100
    };
    let low: i128 = (since + 0x8000_0000_0000_0000) % 0x1_0000_0000_0000_0000
        - 0x8000_0000_0000_0000;
    let sum: i128 = 116_444_736_000_000_000 + low;
    if sum > 0x7fff_ffff_ffff_ffff {
        0x7fff_ffff_ffff_ffff
    } else {
        sum as i64
    }
}

/// A time that much later.
pub open spec fn later(time: Timestamp, span: TimeSpan) -> int {
    time.instant() + span.length()
}

/// When a toast shown at `time` goes away.
pub fn expiration(time: &Timestamp, timeout: &TimeSpan) -> (r: Timestamp)
    requires
        0 <= time.nanos < 1_000_000_000,
        0 <= timeout.nanos < 1_000_000_000,
        time.secs + timeout.secs < i64::MAX,
    ensures
        r.instant() == later(*time, *timeout),
        r.nanos < 1_000_000_000,
{
    let secs: i128 = time.secs as i128 + timeout.secs as i128;
    let nanos: u32 = time.nanos + timeout.nanos;
    if nanos >= 1_000_000_000 {
        Timestamp { secs: (secs + 1) as i64, nanos: nanos - 1_000_000_000 }
    } else {
        Timestamp { secs: secs as i64, nanos }
    }
}

/// What came of removing a notification. One that is already gone is fine.
pub fn ignore_not_found(result: std::result::Result<(), u32>) -> (r: Result<()>)
    ensures
        r == match result {
            Ok(_) => Ok::<(), Error>(()),
            Err(code) => if code == NOT_FOUND {
                Ok(())
            } else {
                Err(Error::Windows)
            },
        },
{
    match result {
        Ok(_) => Ok(()),
        Err(code) => if code == NOT_FOUND {
            Ok(())
        } else {
            Err(Error::Windows)
        },
    }
}

/// A scheduled toast is one to remove: the one with the tag, or any of ours. A toast that does not
/// tell its tag is not the one; one that does not tell its group is ours.
pub open spec fn removable(
    wanted: Option<Seq<char>>,
    tag: Option<Seq<char>>,
    group: Option<Seq<char>>,
) -> bool {
    match wanted {
        Some(wanted) => tag == Some(wanted),
        None => group is None || group == Some(GROUP@),
    }
}

/// Whether a scheduled toast is one to remove: the one with the tag, or any of ours.
pub fn is_to_remove(wanted: &Option<String>, tag: &Option<String>, group: &Option<String>) -> (r:
    bool)
    ensures
        r == removable(text::opt_text(*wanted), text::opt_text(*tag), text::opt_text(*group)),
{
    match wanted {
        Some(wanted) => match tag {
            Some(tag) => text::same(tag.as_str(), wanted.as_str()),
            None => false,
        },
        None => match group {
            Some(group) => text::same(group.as_str(), GROUP),
            None => true,
        },
    }
}

/// A toast that waits for its time, as far as the system tells of it.
#[derive(Debug)]
pub struct WaitingToast {
    pub tag: Option<String>,
    pub group: Option<String>,
}

pub struct WaitingModel {
    pub tag: Option<Seq<char>>,
    pub group: Option<Seq<char>>,
}

impl View for WaitingToast {
    type V = WaitingModel;

    open spec fn view(&self) -> WaitingModel {
        WaitingModel { tag: text::opt_text(self.tag), group: text::opt_text(self.group) }
    }
}

pub open spec fn waiting_models(waiting: Seq<WaitingToast>) -> Seq<WaitingModel> {
    waiting.map_values(|toast: WaitingToast| toast@)
}

/// Which of the scheduled toasts are to be removed, by their places in the list.
pub open spec fn removable_places(wanted: Option<Seq<char>>, waiting: Seq<WaitingModel>) -> Seq<int>
    decreases waiting.len(),
{
    if waiting.len() == 0 {
        Seq::empty()
    } else {
        let earlier = removable_places(wanted, waiting.drop_last());
        if removable(wanted, waiting.last().tag, waiting.last().group) {
            earlier.push(waiting.len() - 1)
        } else {
            earlier
        }
    }
}

pub open spec fn places(list: Seq<usize>) -> Seq<int> {
    list.map_values(|place: usize| place as int)
}

/// Which of the scheduled toasts are to be removed: the ones with the tag, or all of ours.
pub fn scheduled_to_remove(wanted: &Option<String>, waiting: &Vec<WaitingToast>) -> (r: Vec<usize>)
    ensures
        places(r@) == removable_places(text::opt_text(*wanted), waiting_models(waiting@)),
{
    let mut list: Vec<usize> = Vec::new();
    let ghost all = waiting_models(waiting@);
    let ghost tag = text::opt_text(*wanted);
    assert(places(list@) == Seq::<int>::empty());
    for i in 0..waiting.len()
        invariant
            all == waiting_models(waiting@),
            tag == text::opt_text(*wanted),
            places(list@) == removable_places(tag, all.take(i as int)),
    {
        let ghost before = places(list@);
        assert(all.take(i + 1).drop_last() == all.take(i as int));
        assert(all.take(i + 1).last() == waiting@[i as int]@);
        if is_to_remove(wanted, &waiting[i].tag, &waiting[i].group) {
            list.push(i);
            assert(places(list@) == before.push(i as int));
        }
    }
    assert(all.take(all.len() as int) == all);
    list
}

/// Whether the popup is held back, so that the toast lands quietly.
pub fn suppresses_popup(options: &NotificationOptions, quiet: bool) -> (r: bool)
    ensures
        r == (quiet || options@.urgency == Some(Urgency::Low)),
{
    quiet || options.urgency == Some(Urgency::Low)
}

/// Whether toasts may be shown. Where the system cannot be asked, they may.
pub fn permission(enabled: Option<bool>) -> (r: bool)
    ensures
        r == (enabled != Some(false)),
{
    match enabled {
        Some(enabled) => enabled,
        None => true,
    }
}

/// How a toast is to be shown.
#[derive(Debug)]
pub enum ToastStep {
    /// Show it now. A quiet one does not alert the user again.
    Show { tag: String, quiet: bool },
    /// Leave it to the system's schedule.
    Schedule { tag: String },
}

pub enum ToastModel {
    Show { tag: Seq<char>, quiet: bool },
    Schedule { tag: Seq<char> },
}

impl View for ToastStep {
    type V = ToastModel;

    open spec fn view(&self) -> ToastModel {
        match *self {
            ToastStep::Show { tag, quiet } => ToastModel::Show { tag: tag@, quiet },
            ToastStep::Schedule { tag } => ToastModel::Schedule { tag: tag@ },
        }
    }
}

impl ToastModel {
    pub open spec fn tag(self) -> Seq<char> {
        match self {
            ToastModel::Show { tag, .. } => tag,
            ToastModel::Schedule { tag } => tag,
        }
    }
}

impl ToastStep {
    /// Which of the scheduled toasts have to be removed first: showing or scheduling a notification
    /// takes the place of an earlier one of its id that still waits.
    pub fn to_remove_first(&self, waiting: &Vec<WaitingToast>) -> (r: Vec<usize>)
        ensures
            places(r@) == removable_places(Some(self@.tag()), waiting_models(waiting@)),
    {
        let tag = match self {
            ToastStep::Show { tag, .. } => tag.clone(),
            ToastStep::Schedule { tag } => tag.clone(),
        };
        scheduled_to_remove(&Some(tag), waiting)
    }

    /// Whether to go on after the removal. A toast is scheduled only where its predecessor could be
    /// removed; one that is shown now is shown anyway.
    pub fn after_removal(&self, removed: Result<()>) -> (r: Result<()>)
        ensures
            r == if self@ is Schedule {
                removed
            } else {
                Ok(())
            },
    {
        match self {
            ToastStep::Show { .. } => Ok(()),
            ToastStep::Schedule { .. } => removed,
        }
    }
}

/// How a progress bar is to be moved.
#[derive(Debug)]
pub enum UpdateStep {
    /// There is nothing to move.
    Drop,
    /// Send this data for the tag.
    Send { tag: String, sequence: u32 },
}

/// What the system says of an update.
#[derive(Clone, Copy, Debug, PartialEq, Eq, Structural)]
pub enum UpdateResult {
    Succeeded,
    Failed,
    NotFound,
}

/// What is left to do after an update.
#[derive(Clone, Copy, Debug, PartialEq, Eq, Structural)]
pub enum AfterUpdate {
    Done,
    /// The toast is gone: show all of it again, quietly.
    ShowQuietly,
}

pub fn after_update(result: UpdateResult) -> (r: Result<AfterUpdate>)
    ensures
        r == match result {
            UpdateResult::Succeeded => Ok::<AfterUpdate, Error>(AfterUpdate::Done),
            UpdateResult::NotFound => Ok(AfterUpdate::ShowQuietly),
            UpdateResult::Failed => Err(Error::Unknown),
        },
{
    match result {
        UpdateResult::Succeeded => Ok(AfterUpdate::Done),
        UpdateResult::NotFound => Ok(AfterUpdate::ShowQuietly),
        UpdateResult::Failed => Err(Error::Unknown),
    }
}

/// What is remembered of our toasts.
#[derive(Debug)]
pub struct Toasts {
    /// For each tag, the id it was made of.
    tag_ids: Table<String, String>,
    /// For each tag shown with progress, the number of its latest data.
    progress_seqs: Table<String, u32>,
}

#[verifier::ext_equal]
pub struct ToastsModel {
    pub tag_ids: Map<Seq<char>, String>,
    pub progress_seqs: Map<Seq<char>, u32>,
}

impl View for Toasts {
    type V = ToastsModel;

    closed spec fn view(&self) -> ToastsModel {
        ToastsModel { tag_ids: self.tag_ids@, progress_seqs: self.progress_seqs@ }
    }
}

impl ToastsModel {
    pub open spec fn empty() -> ToastsModel {
        ToastsModel { tag_ids: Map::empty(), progress_seqs: Map::empty() }
    }

    /// The number that the next data of a tag gets.
    pub open spec fn next_number(self, tag: Seq<char>) -> int {
        if self.progress_seqs.dom().contains(tag) {
            self.progress_seqs[tag] + 1
        } else {
            1
        }
    }

    /// The numbers of a tag have run out.
    pub open spec fn exhausted(self, tag: Seq<char>) -> bool {
        self.next_number(tag) > u32::MAX
    }

    /// The next data of a tag is sent.
    pub open spec fn bumped(self, tag: Seq<char>) -> ToastsModel {
        ToastsModel {
            progress_seqs: self.progress_seqs.insert(tag, self.next_number(tag) as u32),
            ..self
        }
    }

    /// A notification is about to be on screen: the data of its progress, if it has any, is numbered.
    pub open spec fn numbered(self, options: OptionsModel) -> ToastsModel {
        if options.progress is Some {
            self.bumped(tag_text(options.id))
        } else {
            self
        }
    }

    /// A notification is shown without alerting the user: one with progress that was shown before.
    pub open spec fn shows_quietly(self, options: OptionsModel) -> bool {
        options.progress is Some && self.progress_seqs.dom().contains(tag_text(options.id))
    }

    /// The progress of a notification is forgotten.
    pub open spec fn without_progress(self, id: Seq<char>) -> ToastsModel {
        ToastsModel { progress_seqs: self.progress_seqs.remove(tag_text(id)), ..self }
    }

    /// The id is known by its tag.
    pub open spec fn remembers(self, id: Seq<char>) -> bool {
        self.tag_ids.dom().contains(tag_text(id)) && self.tag_ids[tag_text(id)]@ == id
    }
}

/// The ids of the tags that are known, in order.
pub open spec fn known_ids(toasts: ToastsModel, tags: Seq<Option<Seq<char>>>) -> Seq<Seq<char>>
    decreases tags.len(),
{
    if tags.len() == 0 {
        Seq::empty()
    } else {
        let earlier = known_ids(toasts, tags.drop_last());
        match tags.last() {
            Some(tag) => if toasts.tag_ids.dom().contains(tag) {
                earlier.push(toasts.tag_ids[tag]@)
            } else {
                earlier
            },
            None => earlier,
        }
    }
}

pub open spec fn opt_texts(list: Seq<Option<String>>) -> Seq<Option<Seq<char>>> {
    list.map_values(|text: Option<String>| text::opt_text(text))
}

impl Toasts {
    pub fn new() -> (r: Toasts)
        ensures
            r@ == ToastsModel::empty(),
    {
        Toasts { tag_ids: Table::new(), progress_seqs: Table::new() }
    }

    /// How a notification is to be shown, where toasts are enabled.
    pub fn show(&mut self, options: &NotificationOptions, enabled: bool) -> (r: Result<ToastStep>)
        ensures
            !enabled ==> r == Err::<ToastStep, Error>(Error::PermissionDenied) && final(self)@
                == old(self)@,
            enabled ==> {
                let tag = tag_text(options@.id);
                &&& r matches Ok(step)
                &&& step@ == if options@.scheduled_time is Some {
                    ToastModel::Schedule { tag }
                } else {
                    ToastModel::Show {
                        tag,
                        quiet: old(self)@.shows_quietly(options@),
                    }
                }
                &&& final(self)@.remembers(options@.id)
                &&& final(self)@.tag_ids == old(self)@.tag_ids.insert(
                    tag,
                    final(self)@.tag_ids[tag],
                )
                &&& final(self)@.progress_seqs == if options@.scheduled_time is None
                    && options@.progress is None {
                    old(self)@.progress_seqs.remove(tag)
                } else {
                    old(self)@.progress_seqs
                }
            },
    {
        if !enabled {
            return Err(Error::PermissionDenied);
        }
        let toast_tag = tag(options.id.as_str());
        self.tag_ids.insert(toast_tag.clone(), options.id.clone());
        if options.scheduled_time.is_some() {
            return Ok(ToastStep::Schedule { tag: toast_tag });
        }
        let quiet = if options.progress.is_some() {
            self.progress_seqs.contains(&toast_tag)
        } else {
            self.progress_seqs.remove(&toast_tag);
            false
        };
        Ok(ToastStep::Show { tag: toast_tag, quiet })
    }

    /// Whether the numbers of a tag have run out.
    pub fn is_exhausted(&self, tag: &String) -> (r: bool)
        ensures
            r == self@.exhausted(tag@),
    {
        match self.progress_seqs.get(tag) {
            Some(number) => *number == u32::MAX,
            None => false,
        }
    }

    /// The number of the data that is sent for a tag next, starting at one.
    pub fn bump_progress_seq(&mut self, tag: &String) -> (r: u32)
        requires
            !old(self)@.exhausted(tag@),
        ensures
            r == old(self)@.next_number(tag@),
            final(self)@ == old(self)@.bumped(tag@),
    {
        let number: u32 = match self.progress_seqs.get(tag) {
            Some(number) => *number + 1,
            None => 1,
        };
        self.progress_seqs.insert(tag.clone(), number);
        number
    }

    /// The number of the progress data that a toast is shown with, taken just before it is shown.
    /// One without progress has none.
    pub fn showing_number(&mut self, options: &NotificationOptions) -> (r: Option<u32>)
        requires
            options@.progress is Some ==> !old(self)@.exhausted(tag_text(options@.id)),
        ensures
            r == if options@.progress is Some {
                Some(old(self)@.next_number(tag_text(options@.id)) as u32)
            } else {
                None
            },
            final(self)@ == old(self)@.numbered(options@),
    {
        if options.progress.is_some() {
            let toast_tag = tag(options.id.as_str());
            Some(self.bump_progress_seq(&toast_tag))
        } else {
            None
        }
    }

    /// How the progress bar of a notification is to be moved. A notification that was never shown
    /// with progress, or was cancelled since, has none to move.
    pub fn update_progress(&mut self, options: &NotificationOptions) -> (r: Result<UpdateStep>)
        requires
            !old(self)@.exhausted(tag_text(options@.id)),
        ensures
            options@.progress is None ==> r == Err::<UpdateStep, Error>(Error::InvalidNotification)
                && final(self)@ == old(self)@,
            options@.progress is Some ==> {
                let tag = tag_text(options@.id);
                if old(self)@.progress_seqs.dom().contains(tag) {
                    &&& r matches Ok(UpdateStep::Send { tag: sent, sequence })
                    &&& sent@ == tag
                    &&& sequence == old(self)@.next_number(tag)
                    &&& final(self)@ == old(self)@.bumped(tag)
                } else {
                    &&& r == Ok::<UpdateStep, Error>(UpdateStep::Drop)
                    &&& final(self)@ == old(self)@
                }
            },
    {
        if options.progress.is_none() {
            return Err(Error::InvalidNotification);
        }
        let toast_tag = tag(options.id.as_str());
        if !self.progress_seqs.contains(&toast_tag) {
            return Ok(UpdateStep::Drop);
        }
        let sequence = self.bump_progress_seq(&toast_tag);
        Ok(UpdateStep::Send { tag: toast_tag, sequence })
    }

    /// Forgets the progress of a notification that is cancelled, and gives its tag.
    pub fn cancel(&mut self, id: &str) -> (r: String)
        ensures
            r@ == tag_text(id@),
            final(self)@ == old(self)@.without_progress(id@),
    {
        let toast_tag = tag(id);
        self.progress_seqs.remove(&toast_tag);
        toast_tag
    }

    pub fn cancel_all(&mut self)
        ensures
            final(self)@ == (ToastsModel { progress_seqs: Map::empty(), ..old(self)@ }),
    {
        self.progress_seqs.clear();
    }

    /// The ids of the toasts on screen, by their tags. Tags of earlier runs are not known.
    pub fn active_ids(&self, tags: &Vec<Option<String>>) -> (r: Vec<String>)
        ensures
            text::texts(r@) == known_ids(self@, opt_texts(tags@)),
    {
        let mut ids: Vec<String> = Vec::new();
        let ghost all = opt_texts(tags@);
        assert(text::texts(ids@) == Seq::<Seq<char>>::empty());
        for i in 0..tags.len()
            invariant
                all == opt_texts(tags@),
                text::texts(ids@) == known_ids(self@, all.take(i as int)),
        {
            let ghost before = text::texts(ids@);
            assert(all.take(i + 1).drop_last() == all.take(i as int));
            match &tags[i] {
                Some(tag) => match self.tag_ids.get(tag) {
                    Some(id) => {
                        ids.push(id.clone());
                        assert(text::texts(ids@) == before.push(id@));
                    },
                    None => {},
                },
                None => {},
            }
        }
        assert(all.take(all.len() as int) == all);
        ids
    }
}

} // verus!

//! What prompts say.

use crate::text;
use vstd::prelude::*;
use vstd::utf8::*;

verus! {

/// How many bytes the title of a prompt may have on Windows.
pub const MAX_CAPTION_LENGTH: usize = 128;

/// How many bytes the description of a prompt may have on Windows.
pub const MAX_MESSAGE_LENGTH: usize = 1024;

/// What a prompt says on each platform.
#[derive(Debug)]
pub struct Text<'a, 'b, 'c, 'd> {
    pub android: AndroidText<'a, 'b, 'c>,
    /// What the application is trying to do, on Apple devices.
    pub apple: &'d str,
    pub windows: WindowsText,
}

/// What a prompt says on Android.
#[derive(Clone, Copy, Debug)]
pub struct AndroidText<'a, 'b, 'c> {
    pub title: &'a str,
    pub subtitle: Option<&'b str>,
    pub description: Option<&'c str>,
}

/// What a prompt says on Windows: a title and a description.
#[derive(Clone, Debug)]
pub struct WindowsText {
    title: String,
    description: String,
}

pub struct WindowsTextModel {
    pub title: Seq<char>,
    pub description: Seq<char>,
}

impl View for WindowsText {
    type V = WindowsTextModel;

    closed spec fn view(&self) -> WindowsTextModel {
        WindowsTextModel { title: self.title@, description: self.description@ }
    }
}

/// How many bytes a text takes.
pub open spec fn byte_length(text: Seq<char>) -> nat {
    encode_utf8(text).len()
}

/// `part` is as much of the beginning of `text` as fits in so many bytes: whole characters only.
pub open spec fn truncates_to(text: Seq<char>, max: nat, part: Seq<char>) -> bool {
    &&& text::begins_with(text, part)
    &&& byte_length(part) <= max
    &&& part.len() < text.len() ==> byte_length(text.take(part.len() as int + 1)) > max
}

/// The bytes of a text are those of its characters, one after the other.
proof fn encoding_grows(text: Seq<char>, c: char)
    ensures
        encode_utf8(text.push(c)) == encode_utf8(text) + encode_utf8(seq![c]),
    decreases text.len(),
{
    if text.len() == 0 {
        assert(text.push(c) == seq![c]);
        assert(encode_utf8(text) + encode_utf8(seq![c]) == encode_utf8(seq![c]));
    } else {
        let rest = text.drop_first();
        encoding_grows(rest, c);
        assert(text.push(c).drop_first() == rest.push(c));
        assert(encode_scalar(text[0] as u32) + (encode_utf8(rest) + encode_utf8(seq![c])) == (
        encode_scalar(text[0] as u32) + encode_utf8(rest)) + encode_utf8(seq![c]));
    }
}

/// How many bytes a character takes.
fn char_width(c: char) -> (r: usize)
    ensures
        r == encode_utf8(seq![c]).len(),
        1 <= r <= 4,
{
    proof {
        char_is_scalar(c);
        assert(seq![c].drop_first() == Seq::<char>::empty());
        assert(encode_utf8(seq![c]) == encode_scalar(c as u32) + encode_utf8(Seq::<char>::empty()));
        assert(encode_utf8(Seq::<char>::empty()).len() == 0);
    }
    let code: u32 = c as u32;
    if code < 0x80 {
        1
    } else if code < 0x800 {
        2
    } else if code < 0x1_0000 {
        3
    } else {
        4
    }
}

/// As much of the beginning of a text as fits in so many bytes.
fn truncate_to_char_boundary(text: &str, max: usize) -> (r: String)
    ensures
        truncates_to(text@, max as nat, r@),
{
    let chars = text::chars_of(text);
    let mut count: usize = 0;
    let mut bytes: usize = 0;
    assert(chars@.take(0) == Seq::<char>::empty());
    while count < chars.len()
        invariant
            chars@ == text@,
            count <= chars@.len(),
            bytes == byte_length(chars@.take(count as int)),
            bytes <= max,
        decreases chars@.len() - count,
    {
        let width = char_width(chars[count]);
        proof {
            assert(chars@.take(count + 1) == chars@.take(count as int).push(chars@[count as int]));
            encoding_grows(chars@.take(count as int), chars@[count as int]);
        }
        if width > max - bytes {
            let part = text::text_between(&chars, 0, count);
            assert(part@ == chars@.take(count as int));
            return part;
        }
        bytes += width;
        count += 1;
    }
    assert(text@.take(text@.len() as int) == text@);
    assert(text@.subrange(0, text@.len() as int) == text@);
    text.to_owned()
}

impl WindowsText {
    /// The texts as they are. On Windows there are none where a text is too long; elsewhere they
    /// are not used, and any will do.
    pub fn new(title: &str, description: &str, on_windows: bool) -> (r: Option<WindowsText>)
        ensures
            r is Some <==> !on_windows || byte_length(title@) <= MAX_CAPTION_LENGTH && byte_length(
                description@,
            ) <= MAX_MESSAGE_LENGTH,
            r matches Some(text) ==> text@ == (WindowsTextModel {
                title: title@,
                description: description@,
            }),
    {
        if !on_windows || (title.as_bytes().len() <= MAX_CAPTION_LENGTH
            && description.as_bytes().len() <= MAX_MESSAGE_LENGTH) {
            Some(WindowsText { title: title.to_owned(), description: description.to_owned() })
        } else {
            None
        }
    }

    /// The texts, as far as they fit on Windows. Elsewhere they are not used, and stay as they are.
    pub fn new_truncated(title: &str, description: &str, on_windows: bool) -> (r: WindowsText)
        ensures
            on_windows ==> truncates_to(title@, MAX_CAPTION_LENGTH as nat, r@.title)
                && truncates_to(description@, MAX_MESSAGE_LENGTH as nat, r@.description),
            !on_windows ==> r@ == (WindowsTextModel { title: title@, description: description@ }),
    {
        if on_windows {
            WindowsText {
                title: truncate_to_char_boundary(title, MAX_CAPTION_LENGTH),
                description: truncate_to_char_boundary(description, MAX_MESSAGE_LENGTH),
            }
        } else {
            WindowsText { title: title.to_owned(), description: description.to_owned() }
        }
    }

    pub fn title(&self) -> (r: &str)
        ensures
            r@ == self@.title,
    {
        self.title.as_str()
    }

    pub fn description(&self) -> (r: &str)
        ensures
            r@ == self@.description,
    {
        self.description.as_str()
    }
}

/// A text takes more bytes the more of it there is.
proof fn longer_parts_take_more(text: Seq<char>, short: int, long: int)
    requires
        0 <= short <= long <= text.len(),
    ensures
        byte_length(text.take(short)) <= byte_length(text.take(long)),
    decreases long - short,
{
    if short < long {
        longer_parts_take_more(text, short, long - 1);
        assert(text.take(long) == text.take(long - 1).push(text[long - 1]));
        encoding_grows(text.take(long - 1), text[long - 1]);
    }
}

/// There is one way to truncate a text, and a text that fits stays whole.
pub proof fn truncation_is_exact(text: Seq<char>, max: nat, part: Seq<char>, other: Seq<char>)
    requires
        truncates_to(text, max, part),
        truncates_to(text, max, other),
    ensures
        part == other,
        byte_length(text) <= max ==> part == text,
{
    assert(part == text.take(part.len() as int));
    assert(other == text.take(other.len() as int));
    if part.len() < other.len() {
        longer_parts_take_more(text, part.len() as int + 1, other.len() as int);
    } else if other.len() < part.len() {
        longer_parts_take_more(text, other.len() as int + 1, part.len() as int);
    }
    if byte_length(text) <= max {
        assert(text.take(text.len() as int) == text);
        if part.len() < text.len() {
            longer_parts_take_more(text, part.len() as int + 1, text.len() as int);
        }
    }
}

/// Whatever is truncated to fit on Windows is taken there without more ado.
pub proof fn truncated_texts_fit(title: Seq<char>, description: Seq<char>, text: WindowsTextModel)
    requires
        truncates_to(title, MAX_CAPTION_LENGTH as nat, text.title),
        truncates_to(description, MAX_MESSAGE_LENGTH as nat, text.description),
    ensures
        byte_length(text.title) <= MAX_CAPTION_LENGTH,
        byte_length(text.description) <= MAX_MESSAGE_LENGTH,
{
}

} // verus!

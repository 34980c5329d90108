//! Texts taken apart and compared, in terms of their characters.

use crate::path;
use crate::sorted;
use crate::text;
use vstd::prelude::*;
use vstd::utf8::*;

verus! {

/// A text is blank if it holds nothing but white space.
pub proof fn blank_texts_hold_white_space(text: Seq<char>)
    ensures
        text::blank(text) <==> forall|i: int|
            0 <= i < text.len() ==> text::white_space(#[trigger] text[i]),
{
}

/// Trimming takes the white space before and after a text, and nothing inside it.
pub proof fn only_white_space_is_trimmed(front: Seq<char>, core: Seq<char>, back: Seq<char>)
    requires
        core.len() > 0,
        !text::white_space(core[0]),
        !text::white_space(core[core.len() - 1]),
        forall|i: int| 0 <= i < front.len() ==> text::white_space(#[trigger] front[i]),
        forall|i: int| 0 <= i < back.len() ==> text::white_space(#[trigger] back[i]),
    ensures
        text::trimmed(front + core + back) == core,
    decreases front.len(),
{
    let all = front + core + back;
    if front.len() > 0 {
        let rest = front.subrange(1, front.len() as int);
        assert(all[0] == front[0]);
        assert(all.subrange(1, all.len() as int) =~= rest + core + back);
        assert forall|i: int| 0 <= i < rest.len() implies text::white_space(#[trigger] rest[i]) by {
            assert(rest[i] == front[i + 1]);
        }
        only_white_space_is_trimmed(rest, core, back);
    } else {
        assert(all =~= core + back);
        assert(all[0] == core[0]);
        white_space_behind_is_trimmed(core, back);
    }
}

proof fn white_space_behind_is_trimmed(core: Seq<char>, back: Seq<char>)
    requires
        core.len() > 0,
        !text::white_space(core[core.len() - 1]),
        forall|i: int| 0 <= i < back.len() ==> text::white_space(#[trigger] back[i]),
    ensures
        text::trimmed_end(core + back) == core,
    decreases back.len(),
{
    let all = core + back;
    if back.len() > 0 {
        let rest = back.drop_last();
        assert(all.last() == back[back.len() - 1]);
        assert(all.drop_last() =~= core + rest);
        assert forall|i: int| 0 <= i < rest.len() implies text::white_space(#[trigger] rest[i]) by {
            assert(rest[i] == back[i]);
        }
        white_space_behind_is_trimmed(core, rest);
    } else {
        assert(all =~= core);
        assert(all.last() == core[core.len() - 1]);
    }
}

/// Nothing is left of a text that holds white space only.
pub proof fn nothing_is_left_of_white_space(text: Seq<char>)
    requires
        forall|i: int| 0 <= i < text.len() ==> text::white_space(#[trigger] text[i]),
    ensures
        text::trimmed(text).len() == 0,
    decreases text.len(),
{
    if text.len() > 0 {
        let rest = text.subrange(1, text.len() as int);
        assert(text::white_space(text[0]));
        assert forall|i: int| 0 <= i < rest.len() implies text::white_space(#[trigger] rest[i]) by {
            assert(rest[i] == text[i + 1]);
        }
        nothing_is_left_of_white_space(rest);
    }
}

/// A text begins, or ends, with another where the characters there are the other's.
pub proof fn beginnings_and_ends_are_compared(text: Seq<char>, part: Seq<char>)
    ensures
        text::begins_with(text, part) <==> part.len() <= text.len() && forall|i: int|
            0 <= i < part.len() ==> text[i] == #[trigger] part[i],
        text::finishes_with(text, part) <==> part.len() <= text.len() && forall|i: int|
            0 <= i < part.len() ==> text[text.len() - part.len() + i] == #[trigger] part[i],
{
    if part.len() <= text.len() {
        let head = text.subrange(0, part.len() as int);
        let tail = text.subrange(text.len() - part.len(), text.len() as int);
        if forall|i: int| 0 <= i < part.len() ==> text[i] == #[trigger] part[i] {
            assert(head =~= part);
        }
        if text::begins_with(text, part) {
            assert forall|i: int| 0 <= i < part.len() implies text[i] == #[trigger] part[i] by {
                assert(head[i] == part[i]);
            }
        }
        if forall|i: int|
            0 <= i < part.len() ==> text[text.len() - part.len() + i] == #[trigger] part[i] {
            assert(tail =~= part);
        }
        if text::finishes_with(text, part) {
            assert forall|i: int| 0 <= i < part.len() implies text[text.len() - part.len() + i]
                == #[trigger] part[i] by {
                assert(tail[i] == part[i]);
            }
        }
    }
}

/// Replacing a character changes it wherever it stands, and no other.
pub proof fn one_character_is_replaced(text: Seq<char>, from: char, to: char, i: int)
    ensures
        text::replaced(text, from, to).len() == text.len(),
        0 <= i < text.len() && text[i] == from ==> text::replaced(text, from, to)[i] == to,
        0 <= i < text.len() && text[i] != from ==> text::replaced(text, from, to)[i] == text[i],
{
}

/// The text of bytes is the one that they encode.
pub proof fn bytes_hold_the_text_they_encode(text: Seq<char>, bytes: Seq<u8>)
    ensures
        path::as_text(encode_utf8(text)) == Some(text),
        path::as_text(bytes) matches Some(text) ==> encode_utf8(text) == bytes,
        path::as_text(bytes) is None ==> !valid_utf8(bytes),
{
    encode_utf8_valid_utf8(text);
    encode_utf8_decode_utf8(text);
    if valid_utf8(bytes) {
        decode_utf8_encode_utf8(bytes);
    }
}

/// What comes before the first separator, and what comes after it, are the two halves. Without a
/// separator there are none.
pub proof fn halves_lie_around_the_separator(text: Seq<char>, separator: char)
    ensures
        crate::percent::halves(text, separator) is Some <==> exists|i: int|
            0 <= i < text.len() && #[trigger] text[i] == separator,
        crate::percent::halves(text, separator) matches Some(halves) ==> {
            &&& text == halves.0 + seq![separator] + halves.1
            &&& forall|i: int| 0 <= i < halves.0.len() ==> #[trigger] halves.0[i] != separator
        },
{
    first_of(text, separator);
    let at = text::before_first(text, separator).len() as int;
    if at < text.len() {
        assert(text[at] == separator);
        let head = text::before_first(text, separator);
        let tail = text.subrange(at + 1, text.len() as int);
        assert(head == text.subrange(0, at));
        assert(text =~= head + seq![separator] + tail);
        assert forall|i: int| 0 <= i < head.len() implies #[trigger] head[i] != separator by {
            assert(head[i] == text[i]);
        }
    }
}

proof fn first_of(text: Seq<char>, c: char)
    ensures
        ({
            let head = text::before_first(text, c);
            &&& head.len() <= text.len()
            &&& head == text.subrange(0, head.len() as int)
            &&& forall|i: int| 0 <= i < head.len() ==> #[trigger] text[i] != c
            &&& head.len() < text.len() ==> text[head.len() as int] == c
        }),
    decreases text.len(),
{
    if text.len() > 0 && text[0] != c {
        let rest = text.subrange(1, text.len() as int);
        first_of(rest, c);
        let head = text::before_first(rest, c);
        let all = text::before_first(text, c);
        assert(all == seq![text[0]] + head);
        assert(all =~= text.subrange(0, all.len() as int)) by {
            assert forall|i: int| 0 < i < all.len() implies all[i] == text[i] by {
                assert(head[i - 1] == rest.subrange(0, head.len() as int)[i - 1]);
            }
        }
        assert forall|i: int| 0 <= i < all.len() implies #[trigger] text[i] != c by {
            if i > 0 {
                assert(rest[i - 1] == text[i]);
            }
        }
        if all.len() < text.len() {
            assert(rest[head.len() as int] == text[all.len() as int]);
        }
    } else {
        assert(text::before_first(text, c) =~= text.subrange(0, 0));
    }
}

/// In a dictionary, the first character that differs decides, and what ends there comes first.
pub proof fn the_first_difference_decides(
    common: Seq<char>,
    smaller: char,
    larger: char,
    left: Seq<char>,
    right: Seq<char>,
)
    requires
        smaller < larger,
    ensures
        sorted::before(common.push(smaller) + left, common.push(larger) + right),
        !sorted::before(common.push(larger) + right, common.push(smaller) + left),
        sorted::before(common, common.push(larger) + right),
        !sorted::before(common.push(larger) + right, common),
        !sorted::before(common, common),
    decreases common.len(),
{
    let first = common.push(smaller) + left;
    let second = common.push(larger) + right;
    if common.len() > 0 {
        let rest = common.subrange(1, common.len() as int);
        the_first_difference_decides(rest, smaller, larger, left, right);
        assert(first[0] == common[0] && second[0] == common[0]);
        assert(first.subrange(1, first.len() as int) =~= rest.push(smaller) + left);
        assert(second.subrange(1, second.len() as int) =~= rest.push(larger) + right);
    } else {
        assert(first[0] == smaller);
        assert(second[0] == larger);
    }
}

} // verus!

//! Percent-encoding, and text taken apart at separators.

use crate::path;
use crate::path::text_from_utf8_lossy;
use crate::text;
use vstd::prelude::*;
use vstd::utf8::*;

verus! {

/// A byte that stands for itself.
pub open spec fn unreserved(byte: u8) -> bool {
    ||| 65 <= byte <= 90
    ||| 97 <= byte <= 122
    ||| 48 <= byte <= 57
    ||| byte == 45
    ||| byte == 95
    ||| byte == 46
    ||| byte == 126
}

/// A `%` and two hexadecimal digits.
pub open spec fn escaped_byte(byte: u8) -> Seq<char> {
    seq!['%', text::upper_hex_char(byte as int / 16), text::upper_hex_char(byte as int % 16)]
}

/// How a byte is written.
pub open spec fn encoded_byte(byte: u8) -> Seq<char> {
    if unreserved(byte) {
        seq![byte as char]
    } else {
        escaped_byte(byte)
    }
}

/// How bytes are written.
pub open spec fn encoded_bytes(bytes: Seq<u8>) -> Seq<char>
    decreases bytes.len(),
{
    if bytes.len() == 0 {
        Seq::empty()
    } else {
        encoded_bytes(bytes.drop_last()) + encoded_byte(bytes.last())
    }
}

/// The text with everything but the unreserved characters escaped.
pub open spec fn encoded(text: Seq<char>) -> Seq<char> {
    encoded_bytes(encode_utf8(text))
}

/// Appends a `%` and two hexadecimal digits.
pub fn push_escaped(out: &mut String, byte: u8)
    ensures
        final(out)@ == old(out)@ + escaped_byte(byte),
{
    out.push('%');
    out.push(text::upper_hex_digit(byte / 16));
    out.push(text::upper_hex_digit(byte % 16));
    assert(out@ == old(out)@ + escaped_byte(byte));
}

/// The text with everything but the unreserved characters escaped.
pub fn percent_encode(text: &str) -> (r: String)
    ensures
        r@ == encoded(text@),
{
    let bytes = text.as_bytes();
    let mut out = String::new();
    for i in 0..bytes.len()
        invariant
            out@ == encoded_bytes(bytes@.take(i as int)),
    {
        let byte = bytes[i];
        if (65 <= byte && byte <= 90) || (97 <= byte && byte <= 122) || (48 <= byte && byte <= 57)
            || byte == 45 || byte == 95 || byte == 46 || byte == 126 {
            out.push(byte as char);
        } else {
            push_escaped(&mut out, byte);
        }
        proof {
            assert(bytes@.take(i + 1).drop_last() == bytes@.take(i as int));
            assert(out@ == encoded_bytes(bytes@.take(i as int)) + encoded_byte(byte));
        }
    }
    assert(bytes@.take(bytes@.len() as int) == bytes@);
    out
}

/// The value of a hexadecimal digit.
pub open spec fn hex_value(byte: u8) -> Option<u8> {
    if 48 <= byte <= 57 {
        Some((byte - 48) as u8)
    } else if 65 <= byte <= 70 {
        Some((byte - 55) as u8)
    } else if 97 <= byte <= 102 {
        Some((byte - 87) as u8)
    } else {
        None
    }
}

fn digit_value(byte: u8) -> (r: Option<u8>)
    ensures
        r == hex_value(byte),
{
    if 48 <= byte && byte <= 57 {
        Some(byte - 48)
    } else if 65 <= byte && byte <= 70 {
        Some(byte - 55)
    } else if 97 <= byte && byte <= 102 {
        Some(byte - 87)
    } else {
        None
    }
}

/// The value of two hexadecimal digits. The first may be a plus sign instead.
pub open spec fn pair_value(first: u8, second: u8) -> Option<u8> {
    match (hex_value(first), hex_value(second)) {
        (Some(high), Some(low)) => Some((16 * high + low) as u8),
        (None, Some(low)) => if first == 43 {
            Some(low)
        } else {
            None
        },
        _ => None,
    }
}

fn pair(first: u8, second: u8) -> (r: Option<u8>)
    ensures
        r == pair_value(first, second),
{
    match (digit_value(first), digit_value(second)) {
        (Some(high), Some(low)) => Some(16 * high + low),
        (None, Some(low)) => if first == 43 {
            Some(low)
        } else {
            None
        },
        _ => None,
    }
}

/// The bytes with every escape resolved. A `%` that begins none stands for itself.
pub open spec fn decoded_bytes(bytes: Seq<u8>) -> Seq<u8>
    decreases bytes.len(),
{
    if bytes.len() == 0 {
        Seq::empty()
    } else if bytes[0] == 37 && bytes.len() >= 3 && pair_value(bytes[1], bytes[2]) is Some {
        seq![pair_value(bytes[1], bytes[2])->0] + decoded_bytes(
            bytes.subrange(3, bytes.len() as int),
        )
    } else {
        seq![bytes[0]] + decoded_bytes(bytes.subrange(1, bytes.len() as int))
    }
}

/// The text that bytes stand for.
pub open spec fn text_of(bytes: Seq<u8>) -> Seq<char> {
    if valid_utf8(bytes) {
        decode_utf8(bytes)
    } else {
        path::lossy_text(bytes)
    }
}

/// The text with every escape resolved.
pub open spec fn decoded(text: Seq<char>) -> Seq<char> {
    text_of(decoded_bytes(encode_utf8(text)))
}

/// The text with every escape resolved.
pub fn percent_decode(text: &str) -> (r: String)
    ensures
        r@ == decoded(text@),
{
    let bytes = text.as_bytes();
    let mut out: Vec<u8> = Vec::new();
    let mut at: usize = 0;
    let ghost all = bytes@;
    assert(all.subrange(0, all.len() as int) == all);
    assert(out@ + decoded_bytes(all) == decoded_bytes(all));
    while at < bytes.len()
        invariant
            at <= bytes@.len(),
            all == bytes@,
            decoded_bytes(all) == out@ + decoded_bytes(all.subrange(at as int, all.len() as int)),
        decreases bytes@.len() - at,
    {
        let ghost rest = all.subrange(at as int, all.len() as int);
        let escape = if bytes[at] == 37 && bytes.len() - at >= 3 {
            pair(bytes[at + 1], bytes[at + 2])
        } else {
            None
        };
        let ghost before = out@;
        match escape {
            Some(byte) => {
                out.push(byte);
                proof {
                    assert(rest.subrange(3, rest.len() as int) == all.subrange(
                        at + 3,
                        all.len() as int,
                    ));
                    assert(decoded_bytes(rest) == seq![byte] + decoded_bytes(
                        all.subrange(at + 3, all.len() as int),
                    ));
                    assert(before + decoded_bytes(rest) == out@ + decoded_bytes(
                        all.subrange(at + 3, all.len() as int),
                    ));
                }
                at += 3;
            },
            None => {
                out.push(bytes[at]);
                proof {
                    assert(rest.subrange(1, rest.len() as int) == all.subrange(
                        at + 1,
                        all.len() as int,
                    ));
                    assert(decoded_bytes(rest) == seq![bytes@[at as int]] + decoded_bytes(
                        all.subrange(at + 1, all.len() as int),
                    ));
                    assert(before + decoded_bytes(rest) == out@ + decoded_bytes(
                        all.subrange(at + 1, all.len() as int),
                    ));
                }
                at += 1;
            },
        }
    }
    assert(out@ + decoded_bytes(all.subrange(at as int, all.len() as int)) == out@);
    text_from_utf8_lossy(&out)
}

/// The parts of a text between the separators: one more than there are separators.
pub open spec fn pieces(text: Seq<char>, separator: char) -> Seq<Seq<char>>
    decreases text.len(),
{
    if text.len() == 0 {
        seq![Seq::<char>::empty()]
    } else {
        let earlier = pieces(text.drop_last(), separator);
        if text.last() == separator {
            earlier.push(Seq::empty())
        } else {
            earlier.drop_last().push(earlier.last().push(text.last()))
        }
    }
}

pub proof fn pieces_are_not_none(text: Seq<char>, separator: char)
    ensures
        pieces(text, separator).len() >= 1,
    decreases text.len(),
{
    if text.len() > 0 {
        pieces_are_not_none(text.drop_last(), separator);
    }
}

/// The parts of a text between the separators.
pub fn split(text: &str, separator: char) -> (r: Vec<String>)
    ensures
        text::texts(r@) == pieces(text@, separator),
{
    let chars = text::chars_of(text);
    let mut parts: Vec<String> = Vec::new();
    let mut part = String::new();
    assert(chars@.take(0) == Seq::<char>::empty());
    assert(text::texts(parts@).push(part@) == pieces(chars@.take(0), separator));
    for i in 0..chars.len()
        invariant
            text::texts(parts@).push(part@) == pieces(chars@.take(i as int), separator),
    {
        let ghost parts_before = text::texts(parts@);
        let ghost part_before = part@;
        let ghost earlier = pieces(chars@.take(i as int), separator);
        assert(chars@.take(i + 1).drop_last() == chars@.take(i as int));
        assert(earlier.drop_last() == parts_before);
        assert(earlier.last() == part_before);
        if chars[i] == separator {
            parts.push(part);
            part = String::new();
            assert(text::texts(parts@) == parts_before.push(part_before));
            assert(part@ == Seq::<char>::empty());
        } else {
            part.push(chars[i]);
        }
    }
    assert(chars@.take(chars@.len() as int) == chars@);
    let ghost parts_before = text::texts(parts@);
    let ghost part_before = part@;
    parts.push(part);
    assert(text::texts(parts@) == parts_before.push(part_before));
    parts
}

/// What comes before and after the first separator, if there is one.
pub open spec fn halves(text: Seq<char>, separator: char) -> Option<(Seq<char>, Seq<char>)> {
    let head = text::before_first(text, separator);
    if head.len() < text.len() {
        Some((head, text.subrange(head.len() as int + 1, text.len() as int)))
    } else {
        None
    }
}

/// What comes before and after the first separator, if there is one.
pub fn split_once(text: &str, separator: char) -> (r: Option<(String, String)>)
    ensures
        match r {
            Some((head, tail)) => Some((head@, tail@)),
            None => None,
        } == halves(text@, separator),
{
    let chars = text::chars_of(text);
    let at = text::find(&chars, 0, separator);
    proof {
        text::before_first_is_prefix(chars@, separator, at as int);
    }
    if at < chars.len() {
        Some((text::text_between(&chars, 0, at), text::text_between(&chars, at + 1, chars.len())))
    } else {
        None
    }
}

/// Every character is an unreserved one, or belongs to an escape.
pub open spec fn plain(text: Seq<char>) -> bool {
    forall|i: int|
        0 <= i < text.len() ==> {
            let c = #[trigger] text[i];
            ||| 'A' <= c <= 'Z'
            ||| 'a' <= c <= 'z'
            ||| '0' <= c <= '9'
            ||| c == '-'
            ||| c == '_'
            ||| c == '.'
            ||| c == '~'
            ||| c == '%'
        }
}

/// Encoded text holds no separators.
pub proof fn encoded_text_is_plain(bytes: Seq<u8>)
    ensures
        plain(encoded_bytes(bytes)),
    decreases bytes.len(),
{
    if bytes.len() > 0 {
        encoded_text_is_plain(bytes.drop_last());
        let rest = encoded_bytes(bytes.drop_last());
        let last = encoded_byte(bytes.last());
        let byte = bytes.last();
        assert(unreserved(byte) ==> (byte as char) as int == byte);
        assert(plain(last)) by {
            assert(text::upper_hex_char(byte as int / 16) as int == if byte as int / 16 < 10 {
                48 + byte as int / 16
            } else {
                55 + byte as int / 16
            });
            assert(text::upper_hex_char(byte as int % 16) as int == if byte as int % 16 < 10 {
                48 + byte as int % 16
            } else {
                55 + byte as int % 16
            });
        }
        assert forall|i: int| 0 <= i < (rest + last).len() implies {
            let c = #[trigger] (rest + last)[i];
            ||| 'A' <= c <= 'Z'
            ||| 'a' <= c <= 'z'
            ||| '0' <= c <= '9'
            ||| c == '-'
            ||| c == '_'
            ||| c == '.'
            ||| c == '~'
            ||| c == '%'
        } by {
            if i < rest.len() {
                assert(rest[i] == (rest + last)[i]);
            } else {
                assert(last[i - rest.len()] == (rest + last)[i]);
            }
        }
    }
}

/// The bytes of ASCII text, one for each character.
pub open spec fn ascii_bytes(text: Seq<char>) -> Seq<u8> {
    text.map_values(|c: char| c as u8)
}

proof fn ascii_text_encodes_to_its_bytes(text: Seq<char>)
    requires
        is_ascii_chars(text),
    ensures
        encode_utf8(text) == ascii_bytes(text),
{
    is_ascii_chars_encode_utf8(text);
    assert(encode_utf8(text) =~= ascii_bytes(text));
}

/// Resolving the escapes of one encoded byte gives the byte, whatever follows.
proof fn one_byte_round_trips(byte: u8, rest: Seq<u8>)
    ensures
        decoded_bytes(ascii_bytes(encoded_byte(byte)) + rest) == seq![byte] + decoded_bytes(rest),
{
    let written = ascii_bytes(encoded_byte(byte));
    let all = written + rest;
    if unreserved(byte) {
        assert((byte as char) as u8 == byte);
        assert(all[0] == byte);
        assert(all.subrange(1, all.len() as int) == rest);
    } else {
        let high = byte as int / 16;
        let low = byte as int % 16;
        let first = text::upper_hex_char(high);
        let second = text::upper_hex_char(low);
        assert(first as int == if high < 10 {
            48 + high
        } else {
            55 + high
        });
        assert(second as int == if low < 10 {
            48 + low
        } else {
            55 + low
        });
        assert(written.len() == 3);
        assert(written[0] == 37);
        assert(all[0] == 37);
        assert(all[1] == first as u8);
        assert(all[2] == second as u8);
        assert(hex_value(all[1]) == Some(high as u8));
        assert(hex_value(all[2]) == Some(low as u8));
        assert(pair_value(all[1], all[2]) == Some(byte));
        assert(all.subrange(3, all.len() as int) == rest);
    }
}

proof fn bytes_round_trip(bytes: Seq<u8>, rest: Seq<u8>)
    ensures
        decoded_bytes(ascii_bytes(encoded_bytes(bytes)) + rest) == bytes + decoded_bytes(rest),
    decreases bytes.len(),
{
    if bytes.len() == 0 {
        assert(ascii_bytes(encoded_bytes(bytes)) + rest == rest);
        assert(bytes + decoded_bytes(rest) == decoded_bytes(rest));
    } else {
        let earlier = bytes.drop_last();
        let last = bytes.last();
        let written = ascii_bytes(encoded_byte(last));
        assert(ascii_bytes(encoded_bytes(bytes)) == ascii_bytes(encoded_bytes(earlier)) + written);
        assert(ascii_bytes(encoded_bytes(bytes)) + rest == ascii_bytes(encoded_bytes(earlier)) + (
        written + rest));
        bytes_round_trip(earlier, written + rest);
        one_byte_round_trips(last, rest);
        assert(earlier + (seq![last] + decoded_bytes(rest)) == bytes + decoded_bytes(rest));
    }
}

/// What was encoded comes back as it was.
pub proof fn encoded_text_decodes_to_itself(text: Seq<char>)
    ensures
        decoded(encoded(text)) == text,
{
    let bytes = encode_utf8(text);
    encoded_text_is_plain(bytes);
    assert(is_ascii_chars(encoded(text))) by {
        assert forall|i: int| 0 <= i < encoded(text).len() implies '\0' <= #[trigger] encoded(text)[i]
            <= '\u{7f}' by {}
    }
    ascii_text_encodes_to_its_bytes(encoded(text));
    bytes_round_trip(bytes, Seq::empty());
    assert(ascii_bytes(encoded(text)) + Seq::<u8>::empty() == ascii_bytes(encoded(text)));
    assert(bytes + decoded_bytes(Seq::empty()) == bytes);
    encode_utf8_valid_utf8(text);
    encode_utf8_decode_utf8(text);
}

/// A text without separators is one piece.
pub proof fn one_piece(text: Seq<char>, separator: char)
    requires
        forall|i: int| 0 <= i < text.len() ==> #[trigger] text[i] != separator,
    ensures
        pieces(text, separator) == seq![text],
    decreases text.len(),
{
    if text.len() > 0 {
        one_piece(text.drop_last(), separator);
        assert(text.last() == text[text.len() - 1]);
        assert(text.drop_last().push(text.last()) == text);
        assert(pieces(text, separator) == seq![text]);
    } else {
        assert(text == Seq::<char>::empty());
    }
}

/// What follows the last separator is the last piece.
pub proof fn last_piece(start: Seq<char>, end: Seq<char>, separator: char)
    requires
        forall|i: int| 0 <= i < end.len() ==> #[trigger] end[i] != separator,
    ensures
        pieces(start.push(separator) + end, separator) == pieces(start, separator).push(end),
    decreases end.len(),
{
    let all = start.push(separator) + end;
    pieces_are_not_none(start, separator);
    if end.len() == 0 {
        assert(all == start.push(separator));
        assert(all.drop_last() == start);
        assert(end == Seq::<char>::empty());
    } else {
        let shorter = end.drop_last();
        last_piece(start, shorter, separator);
        assert(all.drop_last() == start.push(separator) + shorter);
        assert(all.last() == end[end.len() - 1]);
        let earlier = pieces(start, separator).push(shorter);
        assert(earlier.drop_last() == pieces(start, separator));
        assert(earlier.last().push(end.last()) == end);
    }
}

/// The first separator is where the head ends.
pub proof fn halves_of_joined(head: Seq<char>, tail: Seq<char>, separator: char)
    requires
        forall|i: int| 0 <= i < head.len() ==> #[trigger] head[i] != separator,
    ensures
        halves(head.push(separator) + tail, separator) == Some((head, tail)),
{
    let all = head.push(separator) + tail;
    assert forall|i: int| 0 <= i < head.len() implies #[trigger] all[i] != separator by {
        assert(all[i] == head[i]);
    }
    text::before_first_is_prefix(all, separator, head.len() as int);
    assert(all.subrange(0, head.len() as int) == head);
    assert(all.subrange(head.len() as int + 1, all.len() as int) == tail);
}

} // verus!

//! How numbers, times and bytes are written and read.

use crate::percent;
use crate::text;
use crate::time::{TimeSpan, Timestamp};
use vstd::prelude::*;
use vstd::utf8::*;

verus! {

/// Times and lengths of time count in nanoseconds, a thousand million to the second.
pub proof fn times_count_in_nanoseconds(time: Timestamp, other: Timestamp, span: TimeSpan)
    ensures
        time.instant() == time.secs * 1_000_000_000 + time.nanos,
        span.length() == span.secs * 1_000_000_000 + span.nanos,
        time.instant() >= other.instant() ==> time.nanos_after(other) == time.instant()
            - other.instant(),
        time.instant() < other.instant() ==> time.nanos_after(other) == 0,
{
}

/// Milliseconds are whole ones, rounded down, and there are none before the epoch.
pub proof fn milliseconds_are_whole(time: Timestamp)
    ensures
        ({
            let nanos = time.secs * 1_000_000_000 + time.nanos;
            &&& nanos >= 0 ==> time.epoch_millis() * 1_000_000 <= nanos < (time.epoch_millis() + 1)
                * 1_000_000
            &&& nanos < 0 ==> time.epoch_millis() == 0
        }),
{
}

/// A byte that is a letter, a digit, `-`, `_`, `.` or `~` is written as it is. Any other is written as a
/// `%` and two digits, from which it can be read again.
pub proof fn bytes_are_written_one_by_one(bytes: Seq<u8>, next: u8)
    ensures
        percent::encoded_bytes(Seq::empty()).len() == 0,
        ({
            let written = percent::encoded_byte(next);
            let plain = ('a' as u32 <= next && next <= 'z' as u32) || ('A' as u32 <= next && next
                <= 'Z' as u32) || ('0' as u32 <= next && next <= '9' as u32) || next == '-' as u32
                || next == '_' as u32 || next == '.' as u32 || next == '~' as u32;
            &&& percent::encoded_bytes(bytes.push(next)) == percent::encoded_bytes(bytes) + written
            &&& plain ==> written.len() == 1 && written[0] as u32 == next
            &&& !plain ==> {
                &&& written.len() == 3
                &&& written[0] == '%'
                &&& percent::pair_value(written[1] as u8, written[2] as u8) == Some(next)
                &&& !('a' <= written[1] && written[1] <= 'f')
                &&& !('a' <= written[2] && written[2] <= 'f')
            }
        }),
{
    assert(bytes.push(next).drop_last() =~= bytes);
    let high = next as int / 16;
    let low = next as int % 16;
    assert(0 <= high < 16 && 0 <= low < 16);
    assert(16 * high + low == next);
}

/// A hexadecimal digit is worth what it says, in either case; nothing else is a digit.
pub proof fn digits_are_worth_what_they_say(byte: u8)
    ensures
        percent::hex_value(byte) matches Some(value) ==> value < 16 && {
            ||| value < 10 && byte == '0' as u32 + value
            ||| value >= 10 && byte == 'A' as u32 + value - 10
            ||| value >= 10 && byte == 'a' as u32 + value - 10
        },
        percent::hex_value(byte) is None ==> !{
            ||| '0' as u32 <= byte && byte <= '9' as u32
            ||| 'A' as u32 <= byte && byte <= 'F' as u32
            ||| 'a' as u32 <= byte && byte <= 'f' as u32
        },
{
}

/// Two digits are worth sixteen times the first and the second.
pub proof fn pairs_are_worth_both_digits(first: u8, second: u8, high: u8, low: u8)
    requires
        percent::hex_value(first) == Some(high),
        percent::hex_value(second) == Some(low),
    ensures
        percent::pair_value(first, second) == Some((16 * high + low) as u8),
        16 * high + low <= 255,
{
    digits_are_worth_what_they_say(first);
    digits_are_worth_what_they_say(second);
}

/// What begins with an escape is read as its byte and the rest; what begins otherwise is read as it is.
pub proof fn escapes_are_read_in_turn(first: u8, second: u8, value: u8, rest: Seq<u8>)
    ensures
        percent::decoded_bytes(Seq::empty()).len() == 0,
        percent::pair_value(first, second) == Some(value) ==> percent::decoded_bytes(
            seq![37u8, first, second] + rest,
        ) == seq![value] + percent::decoded_bytes(rest),
        value != 37 ==> percent::decoded_bytes(seq![value] + rest) == seq![value]
            + percent::decoded_bytes(rest),
        percent::pair_value(first, second) is None ==> percent::decoded_bytes(
            seq![37u8, first, second] + rest,
        ) == seq![37u8] + percent::decoded_bytes(seq![first, second] + rest),
{
    let escaped = seq![37u8, first, second] + rest;
    assert(escaped.subrange(3, escaped.len() as int) =~= rest);
    assert(escaped.subrange(1, escaped.len() as int) =~= seq![first, second] + rest);
    let plain = seq![value] + rest;
    assert(plain.subrange(1, plain.len() as int) =~= rest);
}

/// The number that a text says in hexadecimal, in lower case.
pub open spec fn said_in_hex(text: Seq<char>) -> int
    decreases text.len(),
{
    if text.len() == 0 {
        0
    } else {
        16 * said_in_hex(text.drop_last()) + if '0' <= text.last() && text.last() <= '9' {
            text.last() as u32 - '0' as u32
        } else {
            text.last() as u32 - 'a' as u32 + 10
        }
    }
}

/// A number in hexadecimal has the width that was asked for, is written in digits and small letters, and
/// says the number, as far as it fits.
pub proof fn hexadecimals_say_their_number(n: nat, width: nat, bound: nat)
    requires
        n < bound,
        bound == vstd::arithmetic::power::pow(16, width),
    ensures
        text::hex_text(n, width).len() == width,
        said_in_hex(text::hex_text(n, width)) == n,
        forall|i: int|
            0 <= i < width ==> {
                let c = #[trigger] text::hex_text(n, width)[i];
                ('0' <= c && c <= '9') || ('a' <= c && c <= 'f')
            },
    decreases width,
{
    let all = text::hex_text(n, width);
    reveal(vstd::arithmetic::power::pow);
    if width > 0 {
        let less = vstd::arithmetic::power::pow(16, (width - 1) as nat);
        assert(bound == 16 * less);
        assert(n / 16 < less);
        hexadecimals_say_their_number(n / 16, (width - 1) as nat, less as nat);
        let front = text::hex_text(n / 16, (width - 1) as nat);
        assert(all == front.push(text::hex_char((n % 16) as int)));
        assert(all.drop_last() =~= front);
        assert(16 * (n / 16) + n % 16 == n);
        assert forall|i: int| 0 <= i < width implies {
            let c = #[trigger] all[i];
            ('0' <= c && c <= '9') || ('a' <= c && c <= 'f')
        } by {
            if i < front.len() {
                assert(front[i] == all[i]);
            }
        }
    }
}

} // verus!

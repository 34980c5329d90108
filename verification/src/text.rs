//! Text primitives: the models that contracts use for strings, and the string
//! operations the rest of the library is built from.

use vstd::prelude::*;

verus! {

/// `String::push` appends one character.
pub assume_specification[ String::push ](buffer: &mut String, c: char)
    ensures
        final(buffer)@ == old(buffer)@.push(c),
;

/// Two strings compare equal exactly when they hold the same characters.
pub assume_specification[ <str as PartialEq>::eq ](left: &str, right: &str) -> (equal: bool)
    ensures
        equal == (left@ == right@),
;

/// The characters of an optional string.
pub open spec fn opt_text(text: Option<String>) -> Option<Seq<char>> {
    match text {
        Some(text) => Some(text@),
        None => None,
    }
}

/// The characters of each string in a list.
pub open spec fn texts(list: Seq<String>) -> Seq<Seq<char>> {
    list.map_values(|text: String| text@)
}

/// Whether two strings hold the same characters.
pub fn same(left: &str, right: &str) -> (r: bool)
    ensures
        r == (left@ == right@),
{
    *left == *right
}

pub fn copy_opt(text: &Option<String>) -> (r: Option<String>)
    ensures
        r == *text,
{
    match text {
        Some(text) => Some(text.clone()),
        None => None,
    }
}

/// The string's characters as a vector.
pub fn chars_of(text: &str) -> (r: Vec<char>)
    ensures
        r@ == text@,
{
    let mut chars: Vec<char> = Vec::new();
    for c in it: text.chars()
        invariant
            chars@ == it.seq().take(it.index()),
            it.seq() == text@,
    {
        chars.push(c);
    }
    chars
}

/// A string holding `chars[from..to]`.
pub fn text_between(chars: &Vec<char>, from: usize, to: usize) -> (r: String)
    requires
        from <= to <= chars@.len(),
    ensures
        r@ == chars@.subrange(from as int, to as int),
{
    let mut text = String::new();
    for i in from..to
        invariant
            from <= to <= chars@.len(),
            text@ == chars@.subrange(from as int, i as int),
    {
        text.push(chars[i]);
        assert(chars@.subrange(from as int, i + 1) == chars@.subrange(from as int, i as int).push(
            chars@[i as int],
        ));
    }
    text
}

/// Unicode's `White_Space` property.
pub open spec fn white_space(c: char) -> bool {
    ||| '\u{9}' <= c <= '\u{d}'
    ||| c == ' '
    ||| c == '\u{85}'
    ||| c == '\u{a0}'
    ||| c == '\u{1680}'
    ||| '\u{2000}' <= c <= '\u{200a}'
    ||| c == '\u{2028}'
    ||| c == '\u{2029}'
    ||| c == '\u{202f}'
    ||| c == '\u{205f}'
    ||| c == '\u{3000}'
}

pub fn is_white_space(c: char) -> (r: bool)
    ensures
        r == white_space(c),
{
    ('\u{9}' <= c && c <= '\u{d}') || c == ' ' || c == '\u{85}' || c == '\u{a0}' || c == '\u{1680}'
        || ('\u{2000}' <= c && c <= '\u{200a}') || c == '\u{2028}' || c == '\u{2029}' || c
        == '\u{202f}' || c == '\u{205f}' || c == '\u{3000}'
}

/// Nothing but white space (or nothing at all).
pub open spec fn blank(text: Seq<char>) -> bool {
    forall|i: int| 0 <= i < text.len() ==> white_space(#[trigger] text[i])
}

pub fn is_blank(text: &str) -> (r: bool)
    ensures
        r == blank(text@),
{
    let chars = chars_of(text);
    for i in 0..chars.len()
        invariant
            chars@ == text@,
            forall|j: int| 0 <= j < i ==> white_space(#[trigger] chars@[j]),
    {
        if !is_white_space(chars[i]) {
            return false;
        }
    }
    true
}

/// `core` is `text` without its leading and trailing white space.
pub open spec fn trims_to(text: Seq<char>, core: Seq<char>) -> bool {
    exists|from: int, to: int|
        {
            &&& 0 <= from <= to <= text.len()
            &&& core == #[trigger] text.subrange(from, to)
            &&& blank(text.subrange(0, from))
            &&& blank(text.subrange(to, text.len() as int))
            &&& from < to ==> !white_space(text[from]) && !white_space(text[to - 1])
        }
}

/// The text without its leading and trailing white space.
pub open spec fn trimmed(text: Seq<char>) -> Seq<char>
    decreases text.len(),
{
    if text.len() == 0 {
        text
    } else if white_space(text[0]) {
        trimmed(text.subrange(1, text.len() as int))
    } else {
        trimmed_end(text)
    }
}

/// The text without its trailing white space.
pub open spec fn trimmed_end(text: Seq<char>) -> Seq<char>
    decreases text.len(),
{
    if text.len() > 0 && white_space(text.last()) {
        trimmed_end(text.drop_last())
    } else {
        text
    }
}

/// Trimming is what its name says: it only takes white space away at either end.
pub proof fn trimmed_trims(text: Seq<char>)
    ensures
        trims_to(text, trimmed(text)),
        trimmed(text).len() == 0 <==> blank(text),
    decreases text.len(),
{
    if text.len() == 0 {
        assert(text.subrange(0, 0) == text);
    } else if white_space(text[0]) {
        let rest = text.subrange(1, text.len() as int);
        trimmed_trims(rest);
        let (f, t) = choose|from: int, to: int|
            {
                &&& 0 <= from <= to <= rest.len()
                &&& trimmed(rest) == #[trigger] rest.subrange(from, to)
                &&& blank(rest.subrange(0, from))
                &&& blank(rest.subrange(to, rest.len() as int))
                &&& from < to ==> !white_space(rest[from]) && !white_space(rest[to - 1])
            };
        assert(text.subrange(f + 1, t + 1) == rest.subrange(f, t));
        assert forall|i: int| 0 <= i < f + 1 implies white_space(
            #[trigger] text.subrange(0, f + 1)[i],
        ) by {
            if i > 0 {
                assert(rest.subrange(0, f)[i - 1] == text[i]);
            }
        }
        assert(text.subrange(t + 1, text.len() as int) == rest.subrange(t, rest.len() as int));
        if blank(rest) {
            assert forall|i: int| 0 <= i < text.len() implies white_space(#[trigger] text[i]) by {
                if i > 0 {
                    assert(rest[i - 1] == text[i]);
                }
            }
        }
        if blank(text) {
            assert forall|i: int| 0 <= i < rest.len() implies white_space(#[trigger] rest[i]) by {
                assert(rest[i] == text[i + 1]);
            }
        }
    } else {
        trimmed_end_trims(text);
        let t = choose|to: int|
            {
                &&& 0 <= to <= text.len()
                &&& trimmed_end(text) == #[trigger] text.subrange(0, to)
                &&& blank(text.subrange(to, text.len() as int))
                &&& 0 < to ==> !white_space(text[to - 1])
            };
        if t == 0 {
            assert(text.subrange(0, text.len() as int)[0] == text[0]);
            assert(white_space(text.subrange(t, text.len() as int)[0]));
        }
        assert(blank(text.subrange(0, 0)));
        assert(text.subrange(0, t) == trimmed(text));
    }
}

proof fn trimmed_end_trims(text: Seq<char>)
    ensures
        exists|to: int|
            {
                &&& 0 <= to <= text.len()
                &&& trimmed_end(text) == #[trigger] text.subrange(0, to)
                &&& blank(text.subrange(to, text.len() as int))
                &&& 0 < to ==> !white_space(text[to - 1])
            },
    decreases text.len(),
{
    if text.len() > 0 && white_space(text.last()) {
        let rest = text.drop_last();
        trimmed_end_trims(rest);
        let t = choose|to: int|
            {
                &&& 0 <= to <= rest.len()
                &&& trimmed_end(rest) == #[trigger] rest.subrange(0, to)
                &&& blank(rest.subrange(to, rest.len() as int))
                &&& 0 < to ==> !white_space(rest[to - 1])
            };
        assert(text.subrange(0, t) == rest.subrange(0, t));
        assert forall|i: int| 0 <= i < text.len() - t implies white_space(
            #[trigger] text.subrange(t, text.len() as int)[i],
        ) by {
            if t + i < rest.len() {
                assert(rest.subrange(t, rest.len() as int)[i] == text[t + i]);
            }
        }
    } else {
        assert(text.subrange(0, text.len() as int) == text);
    }
}

/// The text without its leading and trailing white space.
pub fn trim(text: &str) -> (r: String)
    ensures
        r@ == trimmed(text@),
{
    let chars = chars_of(text);
    let mut from: usize = 0;
    assert(chars@.subrange(0, chars@.len() as int) == chars@);
    while from < chars.len() && is_white_space(chars[from])
        invariant
            from <= chars@.len(),
            trimmed(chars@) == trimmed(chars@.subrange(from as int, chars@.len() as int)),
        decreases chars@.len() - from,
    {
        proof {
            let rest = chars@.subrange(from as int, chars@.len() as int);
            assert(rest[0] == chars@[from as int]);
            assert(rest.subrange(1, rest.len() as int) == chars@.subrange(
                from + 1,
                chars@.len() as int,
            ));
        }
        from += 1;
        assert(trimmed(chars@) == trimmed(chars@.subrange(from as int, chars@.len() as int)));
    }
    let mut to: usize = chars.len();
    let ghost rest = chars@.subrange(from as int, chars@.len() as int);
    assert(trimmed(chars@) == trimmed_end(rest)) by {
        if rest.len() > 0 {
            assert(rest[0] == chars@[from as int]);
        } else {
            assert(rest == Seq::<char>::empty());
        }
    }
    assert(chars@.subrange(from as int, to as int) == rest);
    while to > from && is_white_space(chars[to - 1])
        invariant
            from <= to <= chars@.len(),
            trimmed(chars@) == trimmed_end(chars@.subrange(from as int, to as int)),
        decreases to,
    {
        proof {
            let part = chars@.subrange(from as int, to as int);
            assert(part.last() == chars@[to - 1]);
            assert(part.drop_last() == chars@.subrange(from as int, to - 1));
        }
        to -= 1;
    }
    proof {
        let part = chars@.subrange(from as int, to as int);
        if part.len() > 0 {
            assert(part.last() == chars@[to - 1]);
        }
    }
    text_between(&chars, from, to)
}

/// `prefix` is how `text` begins.
pub open spec fn begins_with(text: Seq<char>, prefix: Seq<char>) -> bool {
    prefix.len() <= text.len() && text.subrange(0, prefix.len() as int) == prefix
}

/// `suffix` is how `text` ends.
pub open spec fn finishes_with(text: Seq<char>, suffix: Seq<char>) -> bool {
    suffix.len() <= text.len() && text.subrange(text.len() - suffix.len(), text.len() as int)
        == suffix
}

/// Whether `part` stands in `chars` at index `at`.
fn stands_at(chars: &Vec<char>, at: usize, part: &Vec<char>) -> (r: bool)
    requires
        at + part.len() <= chars.len(),
    ensures
        r == (chars@.subrange(at as int, at + part@.len()) == part@),
{
    for i in 0..part.len()
        invariant
            at + part.len() <= chars.len(),
            forall|j: int| 0 <= j < i ==> chars@[at + j] == #[trigger] part@[j],
    {
        if chars[at + i] != part[i] {
            assert(chars@.subrange(at as int, at + part@.len())[i as int] == chars@[at + i]);
            return false;
        }
    }
    assert(chars@.subrange(at as int, at + part@.len()) == part@);
    true
}

pub fn starts_with(text: &str, prefix: &str) -> (r: bool)
    ensures
        r == begins_with(text@, prefix@),
{
    let chars = chars_of(text);
    let part = chars_of(prefix);
    part.len() <= chars.len() && stands_at(&chars, 0, &part)
}

pub fn ends_with(text: &str, suffix: &str) -> (r: bool)
    ensures
        r == finishes_with(text@, suffix@),
{
    let chars = chars_of(text);
    let part = chars_of(suffix);
    part.len() <= chars.len() && stands_at(&chars, chars.len() - part.len(), &part)
}

/// What follows the prefix, if the text has it.
pub fn strip_prefix(text: &str, prefix: &str) -> (r: Option<String>)
    ensures
        r is Some <==> begins_with(text@, prefix@),
        r matches Some(rest) ==> rest@ == text@.subrange(prefix@.len() as int, text@.len() as int),
{
    if !starts_with(text, prefix) {
        return None;
    }
    let chars = chars_of(text);
    let part = chars_of(prefix);
    Some(text_between(&chars, part.len(), chars.len()))
}

/// What comes before the suffix, if the text has it.
pub fn strip_suffix(text: &str, suffix: &str) -> (r: Option<String>)
    ensures
        r is Some <==> finishes_with(text@, suffix@),
        r matches Some(rest) ==> rest@ == text@.subrange(0, text@.len() - suffix@.len()),
{
    if !ends_with(text, suffix) {
        return None;
    }
    let chars = chars_of(text);
    let part = chars_of(suffix);
    Some(text_between(&chars, 0, chars.len() - part.len()))
}

/// The text with every `from` turned into `to`.
pub open spec fn replaced(text: Seq<char>, from: char, to: char) -> Seq<char> {
    text.map_values(
        |c: char|
            if c == from {
                to
            } else {
                c
            },
    )
}

pub fn replace_char(text: &str, from: char, to: char) -> (r: String)
    ensures
        r@ == replaced(text@, from, to),
{
    let chars = chars_of(text);
    let mut result = String::new();
    for i in 0..chars.len()
        invariant
            chars@ == text@,
            result@ == replaced(text@, from, to).take(i as int),
    {
        let c = chars[i];
        result.push(
            if c == from {
                to
            } else {
                c
            },
        );
        assert(replaced(text@, from, to).take(i + 1) == replaced(text@, from, to).take(
            i as int,
        ).push(replaced(text@, from, to)[i as int]));
    }
    assert(replaced(text@, from, to).take(text@.len() as int) == replaced(text@, from, to));
    result
}

/// The text without the run of `c` it begins with.
pub open spec fn without_leading(text: Seq<char>, c: char) -> Seq<char>
    decreases text.len(),
{
    if text.len() > 0 && text[0] == c {
        without_leading(text.subrange(1, text.len() as int), c)
    } else {
        text
    }
}

/// The text without the run of `c` it ends with.
pub open spec fn without_trailing(text: Seq<char>, c: char) -> Seq<char>
    decreases text.len(),
{
    if text.len() > 0 && text.last() == c {
        without_trailing(text.drop_last(), c)
    } else {
        text
    }
}

/// Only the run of `c` in front goes, and all of it does.
pub proof fn only_the_run_in_front_goes(text: Seq<char>, c: char)
    ensures
        ({
            let rest = without_leading(text, c);
            let gone = text.len() - rest.len();
            &&& 0 <= gone <= text.len()
            &&& rest == text.skip(gone)
            &&& forall|k: int| 0 <= k < gone ==> #[trigger] text[k] == c
            &&& rest.len() > 0 ==> rest[0] != c
        }),
    decreases text.len(),
{
    if text.len() > 0 && text[0] == c {
        let tail = text.subrange(1, text.len() as int);
        only_the_run_in_front_goes(tail, c);
        let rest = without_leading(tail, c);
        let gone = tail.len() - rest.len();
        assert(rest == tail.skip(gone));
        assert(tail.skip(gone) =~= text.skip(gone + 1));
        assert forall|k: int| 0 <= k < gone + 1 implies #[trigger] text[k] == c by {
            if k > 0 {
                assert(tail[k - 1] == c);
            }
        }
    } else {
        assert(text.skip(0) =~= text);
    }
}

/// Only the run of `c` at the end goes, and all of it does.
pub proof fn only_the_run_behind_goes(text: Seq<char>, c: char)
    ensures
        ({
            let rest = without_trailing(text, c);
            &&& rest.len() <= text.len()
            &&& rest == text.take(rest.len() as int)
            &&& forall|k: int| rest.len() <= k < text.len() ==> #[trigger] text[k] == c
            &&& rest.len() > 0 ==> rest.last() != c
        }),
    decreases text.len(),
{
    if text.len() > 0 && text.last() == c {
        let front = text.drop_last();
        only_the_run_behind_goes(front, c);
        let rest = without_trailing(front, c);
        assert(front.take(rest.len() as int) =~= text.take(rest.len() as int));
        assert forall|k: int| rest.len() <= k < text.len() implies #[trigger] text[k] == c by {
            if k < front.len() {
                assert(front[k] == c);
            }
        }
    } else {
        assert(text.take(text.len() as int) =~= text);
    }
}

pub fn trim_leading(text: &str, c: char) -> (r: String)
    ensures
        r@ == without_leading(text@, c),
{
    let chars = chars_of(text);
    let mut from: usize = 0;
    assert(chars@.subrange(0, chars@.len() as int) == chars@);
    while from < chars.len() && chars[from] == c
        invariant
            from <= chars@.len(),
            without_leading(chars@, c) == without_leading(
                chars@.subrange(from as int, chars@.len() as int),
                c,
            ),
        decreases chars@.len() - from,
    {
        assert(chars@.subrange(from as int, chars@.len() as int).subrange(
            1,
            chars@.len() - from,
        ) == chars@.subrange(from + 1, chars@.len() as int));
        from += 1;
    }
    text_between(&chars, from, chars.len())
}

pub fn trim_trailing(text: &str, c: char) -> (r: String)
    ensures
        r@ == without_trailing(text@, c),
{
    let chars = chars_of(text);
    let mut to: usize = chars.len();
    assert(chars@.subrange(0, chars@.len() as int) == chars@);
    while to > 0 && chars[to - 1] == c
        invariant
            to <= chars@.len(),
            without_trailing(chars@, c) == without_trailing(chars@.subrange(0, to as int), c),
        decreases to,
    {
        assert(chars@.subrange(0, to as int).drop_last() == chars@.subrange(0, to - 1));
        to -= 1;
    }
    text_between(&chars, 0, to)
}

/// The part before the first `c`: all of the text where `c` does not occur.
pub open spec fn before_first(text: Seq<char>, c: char) -> Seq<char>
    decreases text.len(),
{
    if text.len() == 0 || text[0] == c {
        Seq::empty()
    } else {
        seq![text[0]] + before_first(text.subrange(1, text.len() as int), c)
    }
}

/// The part after the last `c`: all of the text where `c` does not occur.
pub open spec fn after_last(text: Seq<char>, c: char) -> Seq<char>
    decreases text.len(),
{
    if text.len() == 0 || text.last() == c {
        Seq::empty()
    } else {
        after_last(text.drop_last(), c).push(text.last())
    }
}

pub proof fn before_first_is_prefix(text: Seq<char>, c: char, at: int)
    requires
        0 <= at <= text.len(),
        forall|i: int| 0 <= i < at ==> #[trigger] text[i] != c,
        at < text.len() ==> text[at] == c,
    ensures
        before_first(text, c) == text.subrange(0, at),
    decreases text.len(),
{
    if at > 0 {
        let rest = text.subrange(1, text.len() as int);
        before_first_is_prefix(rest, c, at - 1);
        assert(text.subrange(0, at) == seq![text[0]] + rest.subrange(0, at - 1));
    } else {
        assert(text.subrange(0, 0) == Seq::<char>::empty());
    }
}

pub proof fn after_last_is_suffix(text: Seq<char>, c: char, at: int)
    requires
        0 <= at <= text.len(),
        forall|i: int| at <= i < text.len() ==> #[trigger] text[i] != c,
        at > 0 ==> text[at - 1] == c,
    ensures
        after_last(text, c) == text.subrange(at, text.len() as int),
    decreases text.len(),
{
    if at < text.len() {
        let rest = text.drop_last();
        after_last_is_suffix(rest, c, at);
        assert(text.subrange(at, text.len() as int) == rest.subrange(at, rest.len() as int).push(
            text.last(),
        ));
    } else {
        assert(text.subrange(at, at) == Seq::<char>::empty());
    }
}

/// The index of the first `c`, or the length where `c` does not occur.
pub fn find(chars: &Vec<char>, from: usize, c: char) -> (r: usize)
    requires
        from <= chars@.len(),
    ensures
        from <= r <= chars@.len(),
        forall|i: int| from <= i < r ==> #[trigger] chars@[i] != c,
        r < chars@.len() ==> chars@[r as int] == c,
{
    let mut at: usize = from;
    while at < chars.len() && chars[at] != c
        invariant
            from <= at <= chars@.len(),
            forall|i: int| from <= i < at ==> #[trigger] chars@[i] != c,
        decreases chars@.len() - at,
    {
        at += 1;
    }
    at
}

pub fn cut_before(text: &str, c: char) -> (r: String)
    ensures
        r@ == before_first(text@, c),
{
    let chars = chars_of(text);
    let at = find(&chars, 0, c);
    proof {
        before_first_is_prefix(chars@, c, at as int);
    }
    text_between(&chars, 0, at)
}

pub fn cut_after(text: &str, c: char) -> (r: String)
    ensures
        r@ == after_last(text@, c),
{
    let chars = chars_of(text);
    let mut at: usize = chars.len();
    while at > 0 && chars[at - 1] != c
        invariant
            at <= chars@.len(),
            forall|i: int| at <= i < chars@.len() ==> #[trigger] chars@[i] != c,
        decreases at,
    {
        at -= 1;
    }
    proof {
        after_last_is_suffix(chars@, c, at as int);
    }
    text_between(&chars, at, chars.len())
}

/// The decimal digit for a number below ten.
pub open spec fn digit_char(digit: int) -> char {
    (48 + digit) as char
}

/// A number in decimal, without leading zeros.
pub open spec fn decimal_text(n: nat) -> Seq<char>
    decreases n,
{
    if n < 10 {
        seq![digit_char(n as int)]
    } else {
        decimal_text(n / 10).push(digit_char((n % 10) as int))
    }
}

fn digit(value: u64) -> (r: char)
    requires
        value < 10,
    ensures
        r == digit_char(value as int),
{
    (48u8 + value as u8) as char
}

/// A number in decimal, without leading zeros.
pub fn decimal(n: u64) -> (r: String)
    ensures
        r@ == decimal_text(n as nat),
    decreases n,
{
    if n < 10 {
        let mut text = String::new();
        text.push(digit(n));
        text
    } else {
        let mut text = decimal(n / 10);
        text.push(digit(n % 10));
        text
    }
}

/// A number in decimal, without leading zeros, however large.
pub fn decimal_wide(n: u128) -> (r: String)
    ensures
        r@ == decimal_text(n as nat),
    decreases n,
{
    if n < 10 {
        let mut text = String::new();
        text.push(digit(n as u64));
        text
    } else {
        let mut text = decimal_wide(n / 10);
        text.push(digit((n % 10) as u64));
        text
    }
}

/// The lower-case hexadecimal digit for a number below sixteen.
pub open spec fn hex_char(digit: int) -> char {
    if digit < 10 {
        (48 + digit) as char
    } else {
        (87 + digit) as char
    }
}

/// The upper-case hexadecimal digit for a number below sixteen.
pub open spec fn upper_hex_char(digit: int) -> char {
    if digit < 10 {
        (48 + digit) as char
    } else {
        (55 + digit) as char
    }
}

/// The last `width` hexadecimal digits of a number, lower case.
pub open spec fn hex_text(n: nat, width: nat) -> Seq<char>
    decreases width,
{
    if width == 0 {
        Seq::empty()
    } else {
        hex_text(n / 16, (width - 1) as nat).push(hex_char((n % 16) as int))
    }
}

pub fn hex_digit(value: u64) -> (r: char)
    requires
        value < 16,
    ensures
        r == hex_char(value as int),
{
    if value < 10 {
        (48u8 + value as u8) as char
    } else {
        (87u8 + value as u8) as char
    }
}

pub fn upper_hex_digit(value: u8) -> (r: char)
    requires
        value < 16,
    ensures
        r == upper_hex_char(value as int),
{
    if value < 10 {
        (48u8 + value) as char
    } else {
        (55u8 + value) as char
    }
}

/// The last `width` hexadecimal digits of a number, lower case.
pub fn hex(n: u64, width: usize) -> (r: String)
    ensures
        r@ == hex_text(n as nat, width as nat),
    decreases width,
{
    if width == 0 {
        String::new()
    } else {
        let mut text = hex(n / 16, width - 1);
        text.push(hex_digit(n % 16));
        text
    }
}

/// Different numbers read differently in decimal.
pub proof fn decimal_text_is_injective(left: nat, right: nat)
    requires
        decimal_text(left) == decimal_text(right),
    ensures
        left == right,
    decreases left,
{
    decimal_text_is_not_empty(left);
    decimal_text_is_not_empty(right);
    assert(decimal_text(left).last() == decimal_text(right).last());
    assert(digit_char((left % 10) as int) as int == 48 + left % 10);
    assert(digit_char((right % 10) as int) as int == 48 + right % 10);
    if left >= 10 && right >= 10 {
        assert(decimal_text(left).drop_last() == decimal_text(left / 10));
        assert(decimal_text(right).drop_last() == decimal_text(right / 10));
        decimal_text_is_injective(left / 10, right / 10);
    } else if left >= 10 {
        decimal_text_is_not_empty(left / 10);
        assert(decimal_text(left).len() > 1);
    } else if right >= 10 {
        decimal_text_is_not_empty(right / 10);
        assert(decimal_text(right).len() > 1);
    }
}

pub proof fn decimal_text_is_not_empty(n: nat)
    ensures
        decimal_text(n).len() >= 1,
        forall|i: int|
            0 <= i < decimal_text(n).len() ==> '0' <= #[trigger] decimal_text(n)[i] <= '9',
        decimal_text(n).last() == digit_char((n % 10) as int),
    decreases n,
{
    if n >= 10 {
        decimal_text_is_not_empty(n / 10);
    }
}

/// The number that a text says in decimal.
pub open spec fn said_in_decimal(text: Seq<char>) -> int
    decreases text.len(),
{
    if text.len() == 0 {
        0
    } else {
        10 * said_in_decimal(text.drop_last()) + (text.last() as u32 - '0' as u32)
    }
}

/// A number in decimal is written in digits, without leading zeros, and says that number.
pub proof fn decimals_say_their_number(n: nat)
    ensures
        said_in_decimal(decimal_text(n)) == n,
        forall|i: int|
            0 <= i < decimal_text(n).len() ==> '0' <= #[trigger] decimal_text(n)[i] && decimal_text(
                n,
            )[i] <= '9',
        n > 0 ==> decimal_text(n)[0] != '0',
        n < 10 <==> decimal_text(n).len() == 1,
        decimal_text(n).len() > 0,
    decreases n,
{
    if n < 10 {
        let only = decimal_text(n);
        assert(only.drop_last() =~= Seq::<char>::empty());
        assert(said_in_decimal(Seq::<char>::empty()) == 0);
        assert(only[0] as u32 == 48 + n);
    } else {
        decimals_say_their_number(n / 10);
        let front = decimal_text(n / 10);
        let all = decimal_text(n);
        assert(all.drop_last() =~= front);
        assert(all.last() as u32 == 48 + n % 10);
        assert(10 * (n / 10) + n % 10 == n);
        assert forall|i: int| 0 <= i < all.len() implies '0' <= #[trigger] all[i] && all[i]
            <= '9' by {
            if i < front.len() {
                assert(front[i] == all[i]);
            }
        }
        assert(all[0] == front[0]);
    }
}

/// White space is the tab and what follows it up to the carriage return, the space, and these few
/// others.
pub proof fn white_space_is_known(c: char)
    ensures
        c as u32 >= 33 && c as u32 <= 126 ==> !white_space(c),
        white_space(c) <==> {
            let code = c as u32;
            ||| 9 <= code <= 13
            ||| code == 32
            ||| code == 133
            ||| code == 160
            ||| code == 5760
            ||| 8192 <= code <= 8202
            ||| code == 8232
            ||| code == 8233
            ||| code == 8239
            ||| code == 8287
            ||| code == 12288
        },
{
}

} // verus!

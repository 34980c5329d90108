//! Names that identify our requests to the portal, and the object paths made of them.

use super::{Error, Result};
use crate::text;
use vstd::prelude::*;

verus! {

/// What an element of an object path may hold.
pub open spec fn element_char(c: char) -> bool {
    ||| 'a' <= c <= 'z'
    ||| 'A' <= c <= 'Z'
    ||| '0' <= c <= '9'
    ||| c == '_'
}

/// A `/`, followed by elements with a `/` between each two.
pub open spec fn object_path(path: Seq<char>) -> bool {
    &&& path.len() > 0
    &&& path[0] == '/'
    &&& path.len() > 1 ==> path.last() != '/'
    &&& forall|i: int| 0 <= i < path.len() ==> #[trigger] path[i] == '/' || element_char(path[i])
    &&& forall|i: int, j: int|
        0 <= i && j == i + 1 && j < path.len() ==> !(#[trigger] path[i] == '/' && #[trigger] path[j]
            == '/')
}

/// `zvariant::ObjectPath::try_from` takes exactly the object paths of D-Bus: a `/`, and elements of
/// letters, digits and underscores with a `/` between each two.
#[verifier::external_body]
fn is_object_path(path: &str) -> (r: bool)
    ensures
        r == object_path(path@),
{
    zbus::zvariant::ObjectPath::try_from(path).is_ok()
}

/// Every character may stand in an element.
pub open spec fn element_text(element: Seq<char>) -> bool {
    forall|i: int| 0 <= i < element.len() ==> element_char(#[trigger] element[i])
}

/// The bytes in hexadecimal, two digits each.
pub open spec fn hex_bytes(bytes: Seq<u8>) -> Seq<char>
    decreases bytes.len(),
{
    if bytes.len() == 0 {
        Seq::empty()
    } else {
        hex_bytes(bytes.drop_last()) + text::hex_text(bytes.last() as nat, 2)
    }
}

/// What all the tokens of one connection begin with.
pub open spec fn prefix_text(bytes: Seq<u8>) -> Seq<char> {
    "robius_location_"@ + hex_bytes(bytes)
}

/// What all the tokens of one connection begin with, made of random bytes.
pub fn token_prefix(bytes: &Vec<u8>) -> (r: String)
    ensures
        r@ == prefix_text(bytes@),
{
    let mut token = "robius_location_".to_owned();
    for i in 0..bytes.len()
        invariant
            token@ == "robius_location_"@ + hex_bytes(bytes@.take(i as int)),
    {
        let digits = text::hex(bytes[i] as u64, 2);
        token.append(digits.as_str());
        assert(bytes@.take(i + 1).drop_last() == bytes@.take(i as int));
        assert(token@ == "robius_location_"@ + hex_bytes(bytes@.take(i + 1)));
    }
    assert(bytes@.take(bytes@.len() as int) == bytes@);
    token
}

/// Byte `index` of a number, the lowest first.
pub open spec fn little_endian_byte(n: nat, index: nat) -> u8
    decreases index,
{
    if index == 0 {
        (n % 256) as u8
    } else {
        little_endian_byte(n / 256, (index - 1) as nat)
    }
}

/// Sixteen bytes for a system without a source of random ones: the time, and the process id laid
/// over it again and again. They need not be unpredictable, only unlikely to repeat.
pub fn fallback_bytes(now_nanos: u128, pid: u32) -> (r: Vec<u8>)
    ensures
        r@.len() == 16,
        forall|i: int|
            0 <= i < 16 ==> #[trigger] r@[i] == little_endian_byte(now_nanos as nat, i as nat)
                ^ little_endian_byte(pid as nat, (i % 4) as nat),
{
    let mut bytes: Vec<u8> = Vec::new();
    let mut now: u128 = now_nanos;
    let mut rest: u32 = pid;
    for i in 0..16usize
        invariant
            bytes@.len() == i,
            forall|j: nat|
                i <= j ==> little_endian_byte(now as nat, (j - i) as nat)
                    == #[trigger] little_endian_byte(now_nanos as nat, j),
            forall|j: nat|
                i % 4 <= j < 4 ==> little_endian_byte(rest as nat, (j - i % 4) as nat)
                    == #[trigger] little_endian_byte(pid as nat, j),
            forall|j: int|
                0 <= j < i ==> #[trigger] bytes@[j] == little_endian_byte(
                    now_nanos as nat,
                    j as nat,
                ) ^ little_endian_byte(pid as nat, (j % 4) as nat),
    {
        let time_byte: u8 = (now % 256) as u8;
        let pid_byte: u8 = (rest % 256) as u8;
        let ghost position = i as nat;
        let ghost quarter = (i % 4) as nat;
        assert(little_endian_byte(now as nat, 0) == little_endian_byte(now_nanos as nat, position));
        assert(little_endian_byte(rest as nat, 0) == little_endian_byte(pid as nat, quarter));
        bytes.push(time_byte ^ pid_byte);
        let ghost earlier = now;
        let ghost earlier_rest = rest;
        now = now / 256;
        rest = rest / 256;
        if i % 4 == 3 {
            rest = pid;
        }
        assert forall|j: nat| i + 1 <= j implies little_endian_byte(now as nat, (j - (i + 1)) as nat)
            == #[trigger] little_endian_byte(now_nanos as nat, j) by {
            assert(little_endian_byte(earlier as nat, (j - i) as nat) == little_endian_byte(
                now_nanos as nat,
                j,
            ));
        }
        assert forall|j: nat| (i + 1) % 4 <= j < 4 implies little_endian_byte(
            rest as nat,
            (j - (i + 1) % 4) as nat,
        ) == #[trigger] little_endian_byte(pid as nat, j) by {
            if i % 4 != 3 {
                assert(little_endian_byte(earlier_rest as nat, (j - i % 4) as nat)
                    == little_endian_byte(pid as nat, j));
            }
        }
    }
    bytes
}

/// A token: what makes the connection, the kind of request and the request itself unique.
pub open spec fn token_text(prefix: Seq<char>, kind: Seq<char>, sequence: u64) -> Seq<char> {
    prefix + "_"@ + kind + "_"@ + text::decimal_text(sequence as nat)
}

pub fn make_token(prefix: &str, kind: &str, sequence: u64) -> (r: String)
    ensures
        r@ == token_text(prefix@, kind@, sequence),
{
    let mut token = prefix.to_owned();
    token.append("_");
    token.append(kind);
    token.append("_");
    let number = text::decimal(sequence);
    token.append(number.as_str());
    token
}

/// The object path at which the portal will answer a request, as the portal derives it from our
/// name on the bus and the token.
pub open spec fn request_path(unique_name: Seq<char>, token: Seq<char>) -> Seq<char> {
    "/org/freedesktop/portal/desktop/request/"@ + text::replaced(
        text::without_leading(unique_name, ':'),
        '.',
        '_',
    ) + "/"@ + token
}

/// Where the answer to a request will come from.
pub fn predicted_request_path(unique_name: Option<&str>, token: &str) -> (r: Result<String>)
    ensures
        r is Ok <==> (unique_name matches Some(name) && object_path(
            request_path(name@, token@),
        )),
        r matches Ok(path) ==> path@ == request_path(unique_name->0@, token@),
        r matches Err(error) ==> error == if unique_name is None {
            Error::PermanentlyUnavailable
        } else {
            Error::Unknown
        },
{
    match unique_name {
        None => Err(Error::PermanentlyUnavailable),
        Some(name) => {
            let bare = text::trim_leading(name, ':');
            let sender = text::replace_char(bare.as_str(), '.', '_');
            let mut path = "/org/freedesktop/portal/desktop/request/".to_owned();
            path.append(sender.as_str());
            path.append("/");
            path.append(token);
            if is_object_path(path.as_str()) {
                Ok(path)
            } else {
                Err(Error::Unknown)
            }
        },
    }
}

proof fn hex_text_is_element(n: nat, width: nat)
    ensures
        element_text(text::hex_text(n, width)),
        text::hex_text(n, width).len() == width,
    decreases width,
{
    if width > 0 {
        hex_text_is_element(n / 16, (width - 1) as nat);
    }
}

proof fn hex_bytes_is_element(bytes: Seq<u8>)
    ensures
        element_text(hex_bytes(bytes)),
        hex_bytes(bytes).len() == 2 * bytes.len(),
    decreases bytes.len(),
{
    if bytes.len() > 0 {
        hex_bytes_is_element(bytes.drop_last());
        hex_text_is_element(bytes.last() as nat, 2);
    }
}

/// Every token prefix can stand in an object path.
pub proof fn token_prefixes_are_path_elements(bytes: Seq<u8>)
    ensures
        element_text(prefix_text(bytes)),
        prefix_text(bytes).len() > 0,
        object_path("/"@ + prefix_text(bytes)),
{
    reveal_strlit("robius_location_");
    reveal_strlit("/");
    hex_bytes_is_element(bytes);
    let path = "/"@ + prefix_text(bytes);
    assert forall|i: int| 0 <= i < path.len() implies #[trigger] path[i] == '/' || element_char(
        path[i],
    ) by {
        if i > 0 {
            assert(path[i] == prefix_text(bytes)[i - 1]);
        }
    }
    assert(path.last() == prefix_text(bytes).last());
}

/// Every token made of such a prefix can, too.
pub proof fn tokens_are_path_elements(prefix: Seq<char>, kind: Seq<char>, sequence: u64)
    requires
        element_text(prefix),
        element_text(kind),
    ensures
        element_text(token_text(prefix, kind, sequence)),
{
    reveal_strlit("_");
    text::decimal_text_is_not_empty(sequence as nat);
    let number = text::decimal_text(sequence as nat);
    assert forall|i: int| 0 <= i < number.len() implies element_char(#[trigger] number[i]) by {
        assert('0' <= number[i] <= '9');
    }
}

/// No two tokens of one kind are alike on one connection.
pub proof fn tokens_are_unique(prefix: Seq<char>, kind: Seq<char>, first: u64, second: u64)
    requires
        token_text(prefix, kind, first) == token_text(prefix, kind, second),
    ensures
        first == second,
{
    let stem = prefix + "_"@ + kind + "_"@;
    let left = token_text(prefix, kind, first);
    let right = token_text(prefix, kind, second);
    assert(left.subrange(stem.len() as int, left.len() as int) == text::decimal_text(first as nat));
    assert(right.subrange(stem.len() as int, right.len() as int) == text::decimal_text(
        second as nat,
    ));
    text::decimal_text_is_injective(first as nat, second as nat);
}

proof fn hex_text_is_injective(left: nat, right: nat, width: nat)
    requires
        text::hex_text(left, width) == text::hex_text(right, width),
        left < 256,
        right < 256,
        width == 2,
    ensures
        left == right,
{
    reveal_with_fuel(text::hex_text, 3);
    let l = text::hex_text(left, width);
    let r = text::hex_text(right, width);
    assert(l[1] == text::hex_char((left % 16) as int));
    assert(r[1] == text::hex_char((right % 16) as int));
    assert(l[0] == text::hex_char((left / 16 % 16) as int));
    assert(r[0] == text::hex_char((right / 16 % 16) as int));
    hex_char_is_injective((left % 16) as int, (right % 16) as int);
    hex_char_is_injective((left / 16 % 16) as int, (right / 16 % 16) as int);
}

proof fn hex_char_is_injective(left: int, right: int)
    requires
        0 <= left < 16,
        0 <= right < 16,
        text::hex_char(left) == text::hex_char(right),
    ensures
        left == right,
{
    assert(text::hex_char(left) as int == if left < 10 {
        48 + left
    } else {
        87 + left
    });
    assert(text::hex_char(right) as int == if right < 10 {
        48 + right
    } else {
        87 + right
    });
}

/// Different random bytes make different prefixes.
pub proof fn token_prefixes_are_unique(first: Seq<u8>, second: Seq<u8>)
    requires
        prefix_text(first) == prefix_text(second),
    ensures
        first == second,
{
    let stem = "robius_location_"@;
    assert(prefix_text(first).subrange(stem.len() as int, prefix_text(first).len() as int)
        == hex_bytes(first));
    assert(prefix_text(second).subrange(stem.len() as int, prefix_text(second).len() as int)
        == hex_bytes(second));
    hex_bytes_is_injective(first, second);
}

proof fn hex_bytes_is_injective(first: Seq<u8>, second: Seq<u8>)
    requires
        hex_bytes(first) == hex_bytes(second),
    ensures
        first == second,
    decreases first.len(),
{
    hex_bytes_is_element(first);
    hex_bytes_is_element(second);
    assert(first.len() == second.len());
    if first.len() > 0 {
        let left = hex_bytes(first.drop_last());
        let right = hex_bytes(second.drop_last());
        hex_bytes_is_element(first.drop_last());
        hex_bytes_is_element(second.drop_last());
        hex_text_is_element(first.last() as nat, 2);
        hex_text_is_element(second.last() as nat, 2);
        assert(hex_bytes(first).subrange(0, left.len() as int) == left);
        assert(hex_bytes(second).subrange(0, right.len() as int) == right);
        hex_bytes_is_injective(first.drop_last(), second.drop_last());
        assert(hex_bytes(first).subrange(left.len() as int, hex_bytes(first).len() as int)
            == text::hex_text(first.last() as nat, 2));
        assert(hex_bytes(second).subrange(right.len() as int, hex_bytes(second).len() as int)
            == text::hex_text(second.last() as nat, 2));
        hex_text_is_injective(first.last() as nat, second.last() as nat, 2);
        assert(first == first.drop_last().push(first.last()));
        assert(second == second.drop_last().push(second.last()));
    } else {
        assert(first == second);
    }
}

} // verus!

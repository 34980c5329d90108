//! The names that the application goes by on the bus.

use super::desktop_id;
use super::desktop_id::Lookup;
use super::token;
use crate::path;
use crate::path::FilePath;
use crate::text;
use vstd::prelude::*;
use vstd::utf8::*;

verus! {

/// An id is valid if it has one to 255 letters, digits, dots, underscores and hyphens, and does not end in
/// `.desktop`.
pub proof fn valid_ids_are_these(id: Seq<char>)
    ensures
        desktop_id::valid_id(id) <==> {
            &&& 1 <= id.len() <= 255
            &&& !(id.len() >= 8 && id.skip(id.len() - 8) == seq![
                '.',
                'd',
                'e',
                's',
                'k',
                't',
                'o',
                'p',
            ])
            &&& forall|i: int|
                0 <= i < id.len() ==> {
                    let c = #[trigger] id[i];
                    ||| ('a' <= c && c <= 'z')
                    ||| ('A' <= c && c <= 'Z')
                    ||| ('0' <= c && c <= '9')
                    ||| c == '.'
                    ||| c == '_'
                    ||| c == '-'
                }
        },
{
    reveal_strlit(".desktop");
    assert(".desktop"@ =~= seq!['.', 'd', 'e', 's', 'k', 't', 'o', 'p']);
    if id.len() >= 8 {
        assert(id.skip(id.len() - 8) =~= id.subrange(id.len() - 8, id.len() as int));
    }
}

/// A name is made fit for an id byte by byte: what may stand there stays, anything else becomes an
/// underscore, and two hundred bytes are used at most.
pub proof fn names_are_made_fit(name: Seq<u8>, i: int)
    ensures
        desktop_id::sanitized(name).len() == if name.len() <= 200 {
            name.len()
        } else {
            200
        },
        0 <= i < name.len() && i < 200 ==> {
            let byte = name[i];
            let stays = ('a' as u32 <= byte && byte <= 'z' as u32) || ('A' as u32 <= byte && byte
                <= 'Z' as u32) || ('0' as u32 <= byte && byte <= '9' as u32) || byte == '.' as u32
                || byte == '_' as u32 || byte == '-' as u32;
            &&& stays ==> desktop_id::sanitized(name)[i] as u32 == byte
            &&& !stays ==> desktop_id::sanitized(name)[i] == '_'
        },
{
}

/// The id is that of the desktop file we were launched by, else one made of the executable's name, else
/// a fixed one.
pub proof fn ids_come_from_the_launch_first(
    launched: Option<Seq<char>>,
    executable: Option<Seq<char>>,
    name: Option<Seq<char>>,
)
    ensures
        launched matches Some(id) ==> desktop_id::automatic_id(launched, executable) == id,
        launched is None ==> (executable matches Some(id) ==> desktop_id::automatic_id(
            launched,
            executable,
        ) == id),
        launched is None && executable is None ==> desktop_id::automatic_id(launched, executable)
            == "robius.location"@,
        desktop_id::executable_id(name) is Some <==> (name matches Some(name) && name.len() > 0),
        desktop_id::executable_id(name) matches Some(id) ==> id == "robius."@
            + desktop_id::sanitized(encode_utf8(name->Some_0)),
{
}

proof fn digits_are_said(digits: Seq<char>)
    requires
        forall|i: int| 0 <= i < digits.len() ==> '0' <= #[trigger] digits[i] && digits[i] <= '9',
    ensures
        desktop_id::digits_value(digits) == text::said_in_decimal(digits),
        text::said_in_decimal(digits) >= 0,
    decreases digits.len(),
{
    if digits.len() > 0 {
        let front = digits.drop_last();
        assert forall|i: int| 0 <= i < front.len() implies '0' <= #[trigger] front[i] && front[i]
            <= '9' by {
            assert(front[i] == digits[i]);
        }
        digits_are_said(front);
        assert(digits.last() == digits[digits.len() - 1]);
    }
}

/// A process is known by its number in decimal, with or without a plus sign.
pub proof fn processes_are_known_by_number(pid: u32)
    ensures
        desktop_id::process_of(text::decimal_text(pid as nat)) == Some(pid),
        desktop_id::process_of(seq!['+'] + text::decimal_text(pid as nat)) == Some(pid),
{
    text::decimals_say_their_number(pid as nat);
    let digits = text::decimal_text(pid as nat);
    digits_are_said(digits);
    assert(digits[0] != '+');
    let signed = seq!['+'] + digits;
    assert(signed.subrange(1, signed.len() as int) =~= digits);
}

/// What is no number in decimal, or too large a one, stands for no process.
pub proof fn other_texts_stand_for_no_process(text: Seq<char>, at: int)
    requires
        0 <= at < text.len(),
        at > 0 || text[at] != '+',
        !('0' <= text[at] && text[at] <= '9'),
    ensures
        desktop_id::process_of(text) is None,
        desktop_id::process_of(Seq::empty()) is None,
{
    let digits = desktop_id::unsigned(text);
    if text[0] == '+' {
        assert(digits[at - 1] == text[at]);
    } else {
        assert(digits[at] == text[at]);
    }
}

/// The user's data are where the environment says, or else in the usual place in their home.
pub proof fn data_are_where_the_environment_says(
    data_home: Option<FilePath>,
    home: Option<FilePath>,
)
    ensures
        (data_home matches Some(path) && path.bytes@.len() > 0) ==> desktop_id::user_data(
            data_home,
            home,
        ) == Some(data_home->Some_0.bytes@),
        (data_home matches Some(path) ==> path.bytes@.len() == 0) ==> {
            &&& home is None ==> desktop_id::user_data(data_home, home) is None
            &&& home matches Some(home) ==> (home.bytes@.len() > 0 && home.bytes@.last() != 47
                ==> desktop_id::user_data(data_home, Some(home)) == Some(
                home.bytes@ + seq![47u8] + encode_utf8(".local/share"@),
            ))
        },
{
    reveal_strlit(".local/share");
    is_ascii_chars_encode_utf8(".local/share"@);
    path::names_lie_behind_a_slash(
        match home {
            Some(home) => home.bytes@,
            None => Seq::empty(),
        },
        encode_utf8(".local/share"@),
    );
}

/// A token is the connection's prefix, the kind of request and its number, with an underscore between
/// each two. The prefix says every byte in two digits.
pub proof fn tokens_are_put_together(
    prefix: Seq<char>,
    kind: Seq<char>,
    sequence: u64,
    bytes: Seq<u8>,
    next: u8,
)
    ensures
        token::token_text(prefix, kind, sequence) == prefix + seq!['_'] + kind + seq!['_']
            + text::decimal_text(sequence as nat),
        token::prefix_text(Seq::empty()) == "robius_location_"@,
        token::prefix_text(bytes.push(next)) == token::prefix_text(bytes) + text::hex_text(
            next as nat,
            2,
        ),
{
    reveal_strlit("_");
    assert("_"@ =~= seq!['_']);
    assert(bytes.push(next).drop_last() =~= bytes);
    assert("robius_location_"@ + Seq::<char>::empty() =~= "robius_location_"@);
    assert(token::prefix_text(bytes.push(next)) =~= token::prefix_text(bytes) + text::hex_text(
        next as nat,
        2,
    ));
}

/// The portal answers at the path of our name on the bus, without the colon and with an underscore for
/// each dot, and of the token.
pub proof fn answers_come_to_our_name(name: Seq<char>, underscored: Seq<char>, token: Seq<char>)
    requires
        name.len() > 0 ==> name[0] != ':',
        underscored.len() == name.len(),
        forall|i: int|
            0 <= i < name.len() ==> #[trigger] underscored[i] == if name[i] == '.' {
                '_'
            } else {
                name[i]
            },
    ensures
        token::request_path(seq![':'] + name, token) == "/org/freedesktop/portal/desktop/request/"@
            + underscored + seq!['/'] + token,
{
    reveal_strlit("/");
    assert("/"@ =~= seq!['/']);
    let full = seq![':'] + name;
    assert(full.subrange(1, full.len() as int) =~= name);
    assert(text::without_leading(full, ':') == text::without_leading(name, ':'));
    assert(text::without_leading(name, ':') == name);
    assert(text::replaced(name, '.', '_') =~= underscored);
}

/// The system's data are where the environment says, one directory between each two colons, or else in
/// the two usual places. The directories of applications lie below them, in their order; a relative
/// path counts for nothing.
pub proof fn applications_lie_below_the_data(
    directories: Seq<Seq<u8>>,
    next: Seq<u8>,
    data_dirs: Option<FilePath>,
)
    ensures
        desktop_id::applications_in(Seq::empty()).len() == 0,
        next.len() > 0 && next[0] == 47 && next.last() != 47 ==> desktop_id::applications_in(
            directories.push(next),
        ) == desktop_id::applications_in(directories).push(
            next + seq![47u8] + encode_utf8("applications"@),
        ),
        next.len() == 0 || next[0] != 47 ==> desktop_id::applications_in(directories.push(next))
            == desktop_id::applications_in(directories),
        (data_dirs matches Some(list) && list.bytes@.len() > 0) ==> desktop_id::system_data(
            data_dirs,
        ) == path::parts(data_dirs->Some_0.bytes@, 58),
        (data_dirs matches Some(list) ==> list.bytes@.len() == 0) ==> desktop_id::system_data(
            data_dirs,
        ) == path::parts(encode_utf8("/usr/local/share:/usr/share"@), 58),
{
    assert(directories.push(next).drop_last() =~= directories);
    reveal_strlit("applications");
    is_ascii_chars_encode_utf8("applications"@);
    path::names_lie_behind_a_slash(next, encode_utf8("applications"@));
}

/// The user's own directory of applications comes before the system's.
pub proof fn the_user_comes_before_the_system(
    data_home: Option<FilePath>,
    home: Option<FilePath>,
    data_dirs: Option<FilePath>,
)
    ensures
        ({
            let all = desktop_id::application_directories(data_home, home, data_dirs);
            let systems = desktop_id::applications_in(desktop_id::system_data(data_dirs));
            match desktop_id::user_data(data_home, home) {
                Some(own) => all == desktop_id::applications_in(seq![own]) + systems,
                None => all == systems,
            }
        }),
{
}

/// What stands between two separators is a part, and a list with nothing in it has one empty part.
pub proof fn lists_are_taken_apart(bytes: Seq<u8>, part: Seq<u8>, separator: u8)
    requires
        forall|i: int| 0 <= i < part.len() ==> #[trigger] part[i] != separator,
    ensures
        path::parts(Seq::empty(), separator) == seq![Seq::<u8>::empty()],
        path::parts(part, separator) == seq![part],
        path::parts(bytes.push(separator) + part, separator) == path::parts(bytes, separator).push(
            part,
        ),
{
    path::parts_grow(Seq::empty(), part, separator);
    assert(Seq::<u8>::empty() + part =~= part);
    assert(path::parts(part, separator) =~= seq![part]);
    path::parts_grow(bytes.push(separator), part, separator);
    assert(bytes.push(separator).drop_last() =~= bytes);
    assert(path::parts(bytes.push(separator), separator) == path::parts(bytes, separator).push(
        Seq::empty(),
    ));
    assert(Seq::<u8>::empty() + part =~= part);
    assert(path::parts(bytes, separator).push(Seq::empty()).drop_last() =~= path::parts(
        bytes,
        separator,
    ));
}

/// The directories decide in their order: the first that gives an id gives the id, and one where the file
/// has an unusable name ends the search.
pub proof fn directories_decide_in_order(
    path: Seq<u8>,
    first: Seq<u8>,
    others: Seq<Seq<u8>>,
    id: Seq<char>,
)
    ensures
        desktop_id::path_id(path, Seq::empty()) is None,
        desktop_id::id_below(path, first) == Lookup::Found(id) ==> desktop_id::path_id(
            path,
            seq![first] + others,
        ) == Some(id),
        desktop_id::id_below(path, first) is Unusable ==> desktop_id::path_id(
            path,
            seq![first] + others,
        ) is None,
        desktop_id::id_below(path, first) is Elsewhere ==> desktop_id::path_id(
            path,
            seq![first] + others,
        ) == desktop_id::path_id(path, others),
{
    assert((seq![first] + others).drop_first() =~= others);
}

/// A desktop file that lies directly in a directory of applications has its own name for its id, without
/// `.desktop`.
pub proof fn desktop_files_have_their_name_for_their_id(directory: Seq<u8>, id: Seq<char>)
    requires
        directory.len() > 0,
        directory[0] == 47,
        desktop_id::valid_id(id),
    ensures
        desktop_id::id_below(directory.push(47) + encode_utf8(id + ".desktop"@), directory)
            == Lookup::Found(id),
{
    reveal_strlit(".desktop");
    let text = id + ".desktop"@;
    let name = encode_utf8(text);
    assert forall|i: int| 0 <= i < text.len() implies (#[trigger] text[i] as u32) < 128 && text[i]
        != '/' by {
        if i < id.len() {
            assert(desktop_id::id_char(id[i]));
            assert(text[i] == id[i]);
        } else {
            assert(text[i] == ".desktop"@[i - id.len()]);
        }
    }
    assert(is_ascii_chars(text));
    is_ascii_chars_encode_utf8(text);
    assert(name.len() == text.len());
    assert forall|i: int| 0 <= i < name.len() implies #[trigger] name[i] != 47 by {
        assert(text[i] != '/');
        assert(name[i] == text[i] as u8);
    }
    assert(name.len() > 2);
    crate::path_laws::files_lie_below_their_directory(directory, name);
    let segments = seq![name];
    assert(!desktop_id::climbs(segments)) by {
        assert(segments[0] != seq![46u8, 46u8]);
    }
    crate::text_laws::bytes_hold_the_text_they_encode(text, name);
    assert(text.subrange(text.len() - 8, text.len() as int) =~= ".desktop"@);
    assert(text.subrange(0, text.len() - 8) =~= id);
    assert(text::replaced(id, '/', '-') =~= id) by {
        assert forall|i: int| 0 <= i < id.len() implies id[i] != '/' by {
            assert(desktop_id::id_char(id[i]));
        }
    }
}

/// A number's bytes are numbered from the lowest on.
pub proof fn bytes_are_numbered_from_the_lowest(n: nat, low: u8, index: nat)
    ensures
        token::little_endian_byte(256 * n + low as nat, 0) == low,
        token::little_endian_byte(256 * n + low as nat, index + 1) == token::little_endian_byte(
            n,
            index,
        ),
{
    let whole = 256 * n + low as nat;
    assert(whole % 256 == low);
    assert(whole / 256 == n);
}

} // verus!

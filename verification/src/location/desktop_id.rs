//! The name under which GeoClue's agents know an application: the id of its desktop file.

use super::{Error, Result};
use crate::path;
use crate::path::{FilePath, PathStyle};
use crate::text;
use vstd::prelude::*;
use vstd::utf8::*;

verus! {

/// What a desktop id may hold.
pub open spec fn id_char(c: char) -> bool {
    ||| 'a' <= c <= 'z'
    ||| 'A' <= c <= 'Z'
    ||| '0' <= c <= '9'
    ||| c == '.'
    ||| c == '_'
    ||| c == '-'
}

/// At least one and at most 255 characters, and not the name of the file itself.
pub open spec fn valid_id(id: Seq<char>) -> bool {
    &&& 0 < id.len() <= 255
    &&& !text::finishes_with(id, ".desktop"@)
    &&& forall|i: int| 0 <= i < id.len() ==> id_char(#[trigger] id[i])
}

fn is_id_char(c: char) -> (r: bool)
    ensures
        r == id_char(c),
{
    ('a' <= c && c <= 'z') || ('A' <= c && c <= 'Z') || ('0' <= c && c <= '9') || c == '.' || c
        == '_' || c == '-'
}

pub fn validate_desktop_id(desktop_id: &str) -> (r: Result<String>)
    ensures
        r is Ok <==> valid_id(desktop_id@),
        r matches Ok(id) ==> id@ == desktop_id@,
        r matches Err(error) ==> error == Error::Unknown,
{
    let chars = text::chars_of(desktop_id);
    if chars.len() == 0 || chars.len() > 255 || text::ends_with(desktop_id, ".desktop") {
        return Err(Error::Unknown);
    }
    for i in 0..chars.len()
        invariant
            chars@ == desktop_id@,
            forall|j: int| 0 <= j < i ==> id_char(#[trigger] chars@[j]),
    {
        if !is_id_char(chars[i]) {
            return Err(Error::Unknown);
        }
    }
    Ok(desktop_id.to_owned())
}

/// A byte that may stand in an id, as its character; `_` for any other.
pub open spec fn sanitized_byte(byte: u8) -> char {
    if byte < 128 && id_char(byte as char) {
        byte as char
    } else {
        '_'
    }
}

/// At most how many bytes of a name are used.
pub const COMPONENT_LIMIT: usize = 200;

pub open spec fn sanitized(value: Seq<u8>) -> Seq<char> {
    Seq::new(
        if value.len() <= COMPONENT_LIMIT {
            value.len()
        } else {
            COMPONENT_LIMIT as nat
        },
        |i: int| sanitized_byte(value[i]),
    )
}

/// A name that can stand in a desktop id.
pub fn sanitize_desktop_id_component(value: &str) -> (r: String)
    ensures
        r@ == sanitized(encode_utf8(value@)),
{
    let bytes = value.as_bytes();
    let mut id = String::new();
    let mut i: usize = 0;
    while i < bytes.len() && i < COMPONENT_LIMIT
        invariant
            bytes@ == encode_utf8(value@),
            i <= bytes@.len(),
            i <= COMPONENT_LIMIT,
            id@ == Seq::new(i as nat, |j: int| sanitized_byte(bytes@[j])),
        decreases bytes@.len() - i,
    {
        let byte: u8 = bytes[i];
        if byte < 128 && is_id_char(byte as char) {
            id.push(byte as char);
        } else {
            id.push('_');
        }
        assert(id@ == Seq::new((i + 1) as nat, |j: int| sanitized_byte(bytes@[j])));
        i += 1;
    }
    id
}

/// An id of our own for an executable. No unrelated application's authorization is borrowed just
/// because its desktop file has the same name.
pub open spec fn executable_id(name: Option<Seq<char>>) -> Option<Seq<char>> {
    match name {
        Some(name) => if name.len() == 0 {
            None
        } else {
            Some("robius."@ + sanitized(encode_utf8(name)))
        },
        None => None,
    }
}

pub fn desktop_id_from_executable(executable: &FilePath) -> (r: Option<String>)
    ensures
        text::opt_text(r) == executable_id(path::file_name_text(executable.bytes@, PathStyle::Unix)),
{
    match executable.file_name(PathStyle::Unix) {
        Some(name) => {
            let candidate = sanitize_desktop_id_component(&name);
            proof {
                if name@.len() > 0 {
                    encoding_is_not_empty(name@);
                } else {
                    assert(encode_utf8(name@) == Seq::<u8>::empty());
                }
            }
            if text::chars_of(&candidate).len() == 0 {
                return None;
            }
            let mut id = "robius.".to_owned();
            id.append(candidate.as_str());
            Some(id)
        },
        None => None,
    }
}

proof fn encoding_is_not_empty(chars: Seq<char>)
    requires
        chars.len() > 0,
    ensures
        encode_utf8(chars).len() > 0,
{
    encode_utf8_first_scalar(chars);
}

/// The number that decimal digits stand for.
pub open spec fn digits_value(digits: Seq<char>) -> nat
    decreases digits.len(),
{
    if digits.len() == 0 {
        0
    } else {
        (10 * digits_value(digits.drop_last()) + (digits.last() as int - '0' as int)) as nat
    }
}

pub open spec fn all_digits(text: Seq<char>) -> bool {
    text.len() > 0 && forall|i: int| 0 <= i < text.len() ==> '0' <= #[trigger] text[i] <= '9'
}

/// The digits of a number that may have a plus sign.
pub open spec fn unsigned(text: Seq<char>) -> Seq<char> {
    if text.len() > 0 && text[0] == '+' {
        text.subrange(1, text.len() as int)
    } else {
        text
    }
}

/// The process that a text stands for: decimal digits, with or without a plus sign, of a number that
/// fits in 32 bits.
pub open spec fn process_of(text: Seq<char>) -> Option<u32> {
    let digits = unsigned(text);
    if all_digits(digits) && digits_value(digits) <= u32::MAX {
        Some(digits_value(digits) as u32)
    } else {
        None
    }
}

/// More digits do not make a number smaller.
proof fn digits_grow(digits: Seq<char>, count: int)
    requires
        0 <= count <= digits.len(),
        all_digits(digits),
    ensures
        digits_value(digits.take(count)) <= digits_value(digits),
    decreases digits.len(),
{
    if count < digits.len() {
        let shorter = digits.drop_last();
        if shorter.len() > 0 {
            digits_grow(shorter, count);
            assert(shorter.take(count) == digits.take(count));
        } else {
            assert(digits.take(count) == Seq::<char>::empty());
        }
        assert('0' <= digits[digits.len() - 1]);
    } else {
        assert(digits.take(count) == digits);
    }
}

fn parse_process(text: &str) -> (r: Option<u32>)
    ensures
        r == process_of(text@),
{
    let chars = text::chars_of(text);
    let start: usize = if chars.len() > 0 && chars[0] == '+' {
        1
    } else {
        0
    };
    let ghost digits = unsigned(text@);
    assert(digits == chars@.subrange(start as int, chars@.len() as int));
    if chars.len() == start {
        return None;
    }
    let mut value: u64 = 0;
    assert(digits.take(0) == Seq::<char>::empty());
    for i in start..chars.len()
        invariant
            chars@ == text@,
            digits == unsigned(text@),
            digits == chars@.subrange(start as int, chars@.len() as int),
            start < chars@.len(),
            value <= u32::MAX,
            forall|j: int| 0 <= j < i - start ==> '0' <= #[trigger] digits[j] <= '9',
            value == digits_value(digits.take(i - start)),
    {
        let c = chars[i];
        let ghost at = i - start;
        assert(digits[at] == c);
        if !('0' <= c && c <= '9') {
            return None;
        }
        assert(digits.take(at + 1).drop_last() == digits.take(at));
        assert(digits.take(at + 1).last() == c);
        value = 10 * value + (c as u64 - '0' as u64);
        if value > u32::MAX as u64 {
            proof {
                if all_digits(digits) {
                    digits_grow(digits, at + 1);
                }
            }
            return None;
        }
    }
    assert(digits.take(digits.len() as int) == digits);
    Some(value as u32)
}

/// Whether the desktop file that launched a process is this process's own, by what the environment
/// says of the process that was launched.
pub fn launched_here(launched_pid: Option<&str>, pid: u32) -> (r: bool)
    ensures
        r == (launched_pid matches Some(text) && process_of(text@) == Some(pid)),
{
    match launched_pid {
        Some(text) => match parse_process(text) {
            Some(launched) => launched == pid,
            None => false,
        },
        None => false,
    }
}

/// The id to use: that of the desktop file that launched us, else one made of the executable's
/// name, else a fixed one.
pub open spec fn automatic_id(
    launched: Option<Seq<char>>,
    executable: Option<Seq<char>>,
) -> Seq<char> {
    match launched {
        Some(id) => id,
        None => match executable {
            Some(id) => id,
            None => "robius.location"@,
        },
    }
}

pub fn automatic_desktop_id(launched: Option<String>, executable: Option<String>) -> (r: String)
    ensures
        r@ == automatic_id(text::opt_text(launched), text::opt_text(executable)),
{
    match launched {
        Some(id) => id,
        None => match executable {
            Some(id) => id,
            None => "robius.location".to_owned(),
        },
    }
}

/// What a desktop file is called in an applications directory.
pub enum Lookup {
    /// The file does not lie below the directory, or has no valid id there.
    Elsewhere,
    /// The file lies below the directory in a way that makes no text of the right form.
    Unusable,
    Found(Seq<char>),
}

/// The path leaves the directory it starts in.
pub open spec fn climbs(segments: Seq<Seq<u8>>) -> bool {
    segments.contains(seq![46u8, 46u8])
}

/// The id of a desktop file in an applications directory: where it lies below it, without
/// `.desktop` and with a `-` in place of each `/`.
pub open spec fn id_below(path: Seq<u8>, directory: Seq<u8>) -> Lookup {
    match path::below(path, directory) {
        Some(segments) => if climbs(segments) {
            Lookup::Elsewhere
        } else {
            match path::as_text(path::spelled(segments)) {
                Some(rest) => if text::finishes_with(rest, ".desktop"@) {
                    let id = text::replaced(rest.subrange(0, rest.len() - 8), '/', '-');
                    if valid_id(id) {
                        Lookup::Found(id)
                    } else {
                        Lookup::Elsewhere
                    }
                } else {
                    Lookup::Unusable
                },
                None => Lookup::Unusable,
            }
        },
        None => Lookup::Elsewhere,
    }
}

/// The first directory that the file lies below in a way that makes a valid id decides.
pub open spec fn path_id(path: Seq<u8>, directories: Seq<Seq<u8>>) -> Option<Seq<char>>
    decreases directories.len(),
{
    if directories.len() == 0 {
        None
    } else {
        match id_below(path, directories[0]) {
            Lookup::Found(id) => Some(id),
            Lookup::Unusable => None,
            Lookup::Elsewhere => path_id(path, directories.drop_first()),
        }
    }
}

fn leaves_directory(segments: &Vec<Vec<u8>>) -> (r: bool)
    ensures
        r == climbs(path::byte_lists(segments@)),
{
    for i in 0..segments.len()
        invariant
            forall|j: int|
                0 <= j < i ==> (#[trigger] path::byte_lists(segments@)[j]) != seq![46u8, 46u8],
    {
        let segment = &segments[i];
        assert(path::byte_lists(segments@)[i as int] == segment@);
        if segment.len() == 2 && segment[0] == 46 && segment[1] == 46 {
            assert(segment@ =~= seq![46u8, 46u8]);
            return true;
        }
    }
    false
}

/// What looking a desktop file up in a directory comes to: an id, or else whether to go on looking.
fn find_id_below(path: &FilePath, directory: &FilePath) -> (r: std::result::Result<String, bool>)
    ensures
        match id_below(path.bytes@, directory.bytes@) {
            Lookup::Found(id) => r matches Ok(found) && found@ == id,
            Lookup::Unusable => r == Err::<String, bool>(false),
            Lookup::Elsewhere => r == Err::<String, bool>(true),
        },
{
    let segments = match path.segments_below(directory) {
        Some(segments) => segments,
        None => return Err(true),
    };
    if leaves_directory(&segments) {
        return Err(true);
    }
    let rest = match path::spell(&segments).to_text() {
        Some(rest) => rest,
        None => return Err(false),
    };
    proof {
        reveal_strlit(".desktop");
    }
    match text::strip_suffix(&rest, ".desktop") {
        Some(name) => {
            let id = text::replace_char(&name, '/', '-');
            match validate_desktop_id(&id) {
                Ok(id) => Ok(id),
                Err(_) => Err(true),
            }
        },
        None => Err(false),
    }
}

/// An absolute path with the extension `desktop`.
pub open spec fn is_desktop_path(path: Seq<u8>) -> bool {
    path::absolute(path) && path::extension_text(path, PathStyle::Unix) == Some("desktop"@)
}

/// The bytes of each path in a list.
pub open spec fn path_list(list: Seq<FilePath>) -> Seq<Seq<u8>> {
    list.map_values(|path: FilePath| path.bytes@)
}

/// The id of a desktop file that lies in one of the applications directories. `is_file` says whether
/// there is a file at the path.
pub fn desktop_id_for_path(path: &FilePath, is_file: bool, directories: &Vec<FilePath>) -> (r:
    Option<String>)
    ensures
        text::opt_text(r) == if is_file && is_desktop_path(path.bytes@) {
            path_id(path.bytes@, path_list(directories@))
        } else {
            None
        },
{
    if !path.is_absolute() || !is_file {
        return None;
    }
    match path.extension(PathStyle::Unix) {
        Some(extension) => {
            if !text::same(&extension, "desktop") {
                return None;
            }
        },
        None => return None,
    }
    let ghost all = path_list(directories@);
    assert(all.subrange(0, all.len() as int) == all);
    for i in 0..directories.len()
        invariant
            is_file && is_desktop_path(path.bytes@),
            all == path_list(directories@),
            path_id(path.bytes@, all) == path_id(
                path.bytes@,
                all.subrange(i as int, all.len() as int),
            ),
    {
        let ghost rest = all.subrange(i as int, all.len() as int);
        assert(rest[0] == directories@[i as int].bytes@);
        assert(rest.drop_first() == all.subrange(i + 1, all.len() as int));
        match find_id_below(path, &directories[i]) {
            Ok(id) => {
                return Some(id);
            },
            Err(go_on) => {
                if !go_on {
                    return None;
                }
            },
        }
    }
    assert(all.subrange(all.len() as int, all.len() as int) == Seq::<Seq<u8>>::empty());
    None
}

/// Every id that is derived from a desktop file is one that GeoClue takes.
pub proof fn derived_ids_are_valid(path: Seq<u8>, directories: Seq<Seq<u8>>)
    ensures
        path_id(path, directories) matches Some(id) ==> valid_id(id),
    decreases directories.len(),
{
    if directories.len() > 0 {
        derived_ids_are_valid(path, directories.drop_first());
    }
}

/// An id made of an executable's name is valid, unless the name happens to end in `.desktop`.
pub proof fn executable_ids_are_valid(name: Seq<char>)
    requires
        !text::finishes_with("robius."@ + sanitized(encode_utf8(name)), ".desktop"@),
    ensures
        executable_id(Some(name)) matches Some(id) ==> valid_id(id),
{
    reveal_strlit("robius.");
    let id = "robius."@ + sanitized(encode_utf8(name));
    assert forall|i: int| 0 <= i < id.len() implies id_char(#[trigger] id[i]) by {
        if i >= 7 {
            assert(id[i] == sanitized(encode_utf8(name))[i - 7]);
        }
    }
}

/// Where data is looked for where the environment does not say.
pub const DEFAULT_DATA_DIRS: &'static str = "/usr/local/share:/usr/share";

/// A value of the environment that is not empty.
pub open spec fn given(value: Option<FilePath>) -> Option<Seq<u8>> {
    match value {
        Some(path) => if path.bytes@.len() > 0 {
            Some(path.bytes@)
        } else {
            None
        },
        None => None,
    }
}

/// The user's data directory.
pub open spec fn user_data(data_home: Option<FilePath>, home: Option<FilePath>) -> Option<Seq<u8>> {
    match given(data_home) {
        Some(directory) => Some(directory),
        None => match home {
            Some(home) => Some(path::joined(home.bytes@, encode_utf8(".local/share"@))),
            None => None,
        },
    }
}

/// The system's data directories.
pub open spec fn system_data(data_dirs: Option<FilePath>) -> Seq<Seq<u8>> {
    match given(data_dirs) {
        Some(list) => path::parts(list, 58),
        None => path::parts(encode_utf8(DEFAULT_DATA_DIRS@), 58),
    }
}

/// The `applications` directories of those data directories that are absolute.
pub open spec fn applications_in(directories: Seq<Seq<u8>>) -> Seq<Seq<u8>>
    decreases directories.len(),
{
    if directories.len() == 0 {
        Seq::empty()
    } else if path::absolute(directories.last()) {
        applications_in(directories.drop_last()).push(
            path::joined(directories.last(), encode_utf8("applications"@)),
        )
    } else {
        applications_in(directories.drop_last())
    }
}

/// Where applications' desktop files are, from the environment: the user's data directory first,
/// then the system's.
pub open spec fn application_directories(
    data_home: Option<FilePath>,
    home: Option<FilePath>,
    data_dirs: Option<FilePath>,
) -> Seq<Seq<u8>> {
    match user_data(data_home, home) {
        Some(directory) => applications_in(seq![directory]) + applications_in(
            system_data(data_dirs),
        ),
        None => applications_in(system_data(data_dirs)),
    }
}

proof fn applications_in_one(directory: Seq<u8>)
    ensures
        applications_in(seq![directory]) == if path::absolute(directory) {
            seq![path::joined(directory, encode_utf8("applications"@))]
        } else {
            Seq::<Seq<u8>>::empty()
        },
{
    let one = seq![directory];
    assert(one.drop_last() == Seq::<Seq<u8>>::empty());
    assert(one.last() == directory);
    assert(applications_in(one.drop_last()) == Seq::<Seq<u8>>::empty());
}

fn push_applications(directories: &mut Vec<FilePath>, directory: FilePath)
    ensures
        path_list(final(directories)@) == path_list(old(directories)@) + applications_in(
            seq![directory.bytes@],
        ),
{
    let ghost before = path_list(directories@);
    proof {
        applications_in_one(directory.bytes@);
    }
    if directory.is_absolute() {
        directories.push(directory.join("applications"));
        assert(path_list(directories@) == before.push(
            path::joined(directory.bytes@, encode_utf8("applications"@)),
        ));
    }
}

/// Where applications' desktop files are, by what the environment says of the user's data directory,
/// the user's home and the system's data directories.
pub fn xdg_application_dirs(
    data_home: &Option<FilePath>,
    home: &Option<FilePath>,
    data_dirs: &Option<FilePath>,
) -> (r: Vec<FilePath>)
    ensures
        path_list(r@) == application_directories(*data_home, *home, *data_dirs),
{
    let user = match data_home {
        Some(directory) if !directory.is_empty() => Some(directory.copy()),
        _ => match home {
            Some(home) => Some(home.join(".local/share")),
            None => None,
        },
    };
    let mut directories: Vec<FilePath> = Vec::new();
    assert(path_list(directories@) == Seq::<Seq<u8>>::empty());
    if let Some(directory) = user {
        push_applications(&mut directories, directory);
    }
    let listed = match data_dirs {
        Some(list) if !list.is_empty() => list.copy(),
        _ => FilePath::from_text(DEFAULT_DATA_DIRS),
    };
    let data = path::split_bytes(&listed.bytes, 58);
    let ghost first = path_list(directories@);
    let ghost all = path::byte_lists(data@);
    assert(first + applications_in(all.take(0)) == first);
    for i in 0..data.len()
        invariant
            all == path::byte_lists(data@),
            path_list(directories@) == first + applications_in(all.take(i as int)),
    {
        let directory = FilePath { bytes: data[i].clone() };
        proof {
            assert(directory.bytes@ == all[i as int]);
            assert(all.take(i + 1).drop_last() == all.take(i as int));
            applications_in_one(all[i as int]);
            assert(applications_in(all.take(i + 1)) == applications_in(all.take(i as int))
                + applications_in(seq![all[i as int]]));
        }
        push_applications(&mut directories, directory);
        assert(path_list(directories@) == first + applications_in(all.take(i + 1)));
    }
    assert(all.take(all.len() as int) == all);
    directories
}

} // verus!

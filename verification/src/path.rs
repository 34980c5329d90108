//! File system paths, held as the bytes the system gives for them.
//!
//! Windows paths are read as Windows spells them. What works out new paths is for the other systems.

use crate::text;
use vstd::prelude::*;
use vstd::utf8::*;

verus! {

/// `String::from_utf8` takes exactly the byte vectors that are valid UTF-8, and gives
/// the text they encode.
#[verifier::external_body]
fn text_from_utf8(bytes: Vec<u8>) -> (r: Option<String>)
    ensures
        r is Some <==> valid_utf8(bytes@),
        r matches Some(text) ==> text@ == decode_utf8(bytes@),
{
    String::from_utf8(bytes).ok()
}

/// The text that `String::from_utf8_lossy` makes of bytes.
pub uninterp spec fn lossy_text(bytes: Seq<u8>) -> Seq<char>;

/// `String::from_utf8_lossy` decodes valid UTF-8 as it stands. What it makes of other bytes is a
/// function of the bytes: it puts replacement characters in place of what is not UTF-8.
#[verifier::external_body]
pub(crate) fn text_from_utf8_lossy(bytes: &Vec<u8>) -> (r: String)
    ensures
        r@ == lossy_text(bytes@),
        valid_utf8(bytes@) ==> r@ == decode_utf8(bytes@),
{
    String::from_utf8_lossy(bytes).into_owned()
}

/// How a system spells its paths.
#[derive(Clone, Copy, Debug, PartialEq, Eq, Structural)]
pub enum PathStyle {
    /// With `/` before the root and between components.
    Unix,
    /// With `\` or `/`, and with drives, shares and devices.
    Windows,
}

/// A path. Not every path is text: its bytes need not be UTF-8.
#[derive(Clone, Debug, PartialEq, Eq)]
pub struct FilePath {
    pub bytes: Vec<u8>,
}

/// The text that the bytes encode, if they are UTF-8.
pub open spec fn as_text(bytes: Seq<u8>) -> Option<Seq<char>> {
    if valid_utf8(bytes) {
        Some(decode_utf8(bytes))
    } else {
        None
    }
}

/// The path begins at the root, on systems other than Windows.
pub open spec fn absolute(path: Seq<u8>) -> bool {
    path.len() > 0 && path[0] == 47
}

/// What stands between the separators in a list of bytes.
pub open spec fn parts(bytes: Seq<u8>, separator: u8) -> Seq<Seq<u8>>
    decreases bytes.len(),
{
    if bytes.len() == 0 {
        seq![Seq::<u8>::empty()]
    } else {
        let earlier = parts(bytes.drop_last(), separator);
        if bytes.last() == separator {
            earlier.push(Seq::empty())
        } else {
            earlier.drop_last().push(earlier.last().push(bytes.last()))
        }
    }
}

/// What stands between the `/`s of a path.
pub open spec fn segments(path: Seq<u8>) -> Seq<Seq<u8>> {
    parts(path, 47)
}

/// What kinds of prefix a Windows path can have.
#[derive(Clone, Copy, Debug, PartialEq, Eq, Structural)]
pub enum PrefixKind {
    Missing,
    /// `C:`
    Disk,
    /// `\\server\share`
    Share,
    /// `\\.\device`
    Device,
    /// `\\?\name`
    Verbatim,
    /// `\\?\UNC\server\share`
    VerbatimShare,
    /// `\\?\C:`
    VerbatimDisk,
}

impl PrefixKind {
    /// Only `\` separates after such a prefix, and every `.` counts.
    pub open spec fn verbatim(self) -> bool {
        self == PrefixKind::Verbatim || self == PrefixKind::VerbatimShare || self
            == PrefixKind::VerbatimDisk
    }
}

/// The prefix of a path: its kind, and what it names.
#[verifier::ext_equal]
pub struct PrefixModel {
    pub kind: PrefixKind,
    /// The drive's letter, the server, or the device.
    pub name: Seq<u8>,
    pub share: Seq<u8>,
}

impl PrefixModel {
    pub open spec fn of_kind(kind: PrefixKind, name: Seq<u8>, share: Seq<u8>) -> PrefixModel {
        PrefixModel { kind, name, share }
    }

    pub open spec fn missing() -> PrefixModel {
        PrefixModel { kind: PrefixKind::Missing, name: Seq::empty(), share: Seq::empty() }
    }

    /// How many bytes of the path the prefix takes.
    pub open spec fn length(self) -> nat {
        match self.kind {
            PrefixKind::Missing => 0,
            PrefixKind::Disk => 2,
            PrefixKind::Share => (2 + self.name.len() + 1 + self.share.len()) as nat,
            PrefixKind::Device => 4 + self.name.len(),
            PrefixKind::Verbatim => 4 + self.name.len(),
            PrefixKind::VerbatimShare => if self.share.len() > 0 {
                (8 + self.name.len() + 1 + self.share.len()) as nat
            } else {
                8 + self.name.len()
            },
            PrefixKind::VerbatimDisk => 6,
        }
    }
}

/// Either separator.
pub open spec fn slash(byte: u8) -> bool {
    byte == 47 || byte == 92
}

/// What stands from an index on up to the next separator.
pub open spec fn name_at(path: Seq<u8>, from: int, verbatim: bool) -> Seq<u8>
    decreases path.len() - from,
{
    if from < 0 || from >= path.len() || path[from] == 92 || (path[from] == 47 && !verbatim) {
        Seq::empty()
    } else {
        seq![path[from]] + name_at(path, from + 1, verbatim)
    }
}

/// A drive's letter and a colon.
pub open spec fn drive_at(path: Seq<u8>, from: int) -> bool {
    0 <= from && from + 2 <= path.len() && (65 <= path[from] <= 90 || 97 <= path[from] <= 122)
        && path[from + 1] == 58
}

/// The letter of a drive: upper and lower case are the same.
pub open spec fn drive_name(letter: u8) -> Seq<u8> {
    seq![
        if letter >= 97 {
            (letter - 32) as u8
        } else {
            letter
        },
    ]
}

/// Two separators begin the path.
pub open spec fn double_slash(path: Seq<u8>) -> bool {
    path.len() >= 2 && slash(path[0]) && slash(path[1])
}

/// The path begins with `\\?\`, spelled just so.
pub open spec fn verbatim_start(path: Seq<u8>) -> bool {
    path.len() >= 4 && path[0] == 92 && path[1] == 92 && path[2] == 63 && path[3] == 92
}

/// The prefix of a Windows path.
pub open spec fn windows_prefix(path: Seq<u8>) -> PrefixModel {
    if verbatim_start(path) {
        if path.len() >= 8 && path[4] == 85 && path[5] == 78 && path[6] == 67 && slash(path[7]) {
            let server = name_at(path, 8, true);
            PrefixModel::of_kind(
                PrefixKind::VerbatimShare,
                server,
                name_at(path, (8 + server.len() + 1) as int, true),
            )
        } else if drive_at(path, 4) && (path.len() == 6 || slash(path[6])) {
            PrefixModel::of_kind(PrefixKind::VerbatimDisk, drive_name(path[4]), Seq::empty())
        } else {
            PrefixModel::of_kind(PrefixKind::Verbatim, name_at(path, 4, true), Seq::empty())
        }
    } else if double_slash(path) && path.len() >= 4 && path[2] == 46 && slash(path[3]) {
        PrefixModel::of_kind(PrefixKind::Device, name_at(path, 4, false), Seq::empty())
    } else if double_slash(path) {
        let server = name_at(path, 2, false);
        let share = name_at(path, (2 + server.len() + 1) as int, false);
        if server.len() > 0 && share.len() > 0 {
            PrefixModel::of_kind(PrefixKind::Share, server, share)
        } else {
            PrefixModel::missing()
        }
    } else if drive_at(path, 0) {
        PrefixModel::of_kind(PrefixKind::Disk, drive_name(path[0]), Seq::empty())
    } else {
        PrefixModel::missing()
    }
}

/// The prefix of a path. Only Windows has them.
pub open spec fn prefix_of(path: Seq<u8>, style: PathStyle) -> PrefixModel {
    match style {
        PathStyle::Unix => PrefixModel::missing(),
        PathStyle::Windows => windows_prefix(path),
    }
}

/// What follows the prefix.
pub open spec fn after_prefix(path: Seq<u8>, style: PathStyle) -> Seq<u8> {
    path.subrange(prefix_of(path, style).length() as int, path.len() as int)
}

/// A separator follows the prefix.
pub open spec fn spells_root(path: Seq<u8>, style: PathStyle) -> bool {
    let rest = after_prefix(path, style);
    rest.len() > 0 && (rest[0] == 47 || style == PathStyle::Windows && rest[0] == 92)
}

/// What follows the prefix and the root.
pub open spec fn body_of(path: Seq<u8>, style: PathStyle) -> Seq<u8> {
    let rest = after_prefix(path, style);
    if spells_root(path, style) {
        rest.subrange(1, rest.len() as int)
    } else {
        rest
    }
}

/// The bytes with `/` for each `\`.
pub open spec fn slashed(bytes: Seq<u8>) -> Seq<u8> {
    bytes.map_values(
        |byte: u8|
            if byte == 92 {
                47u8
            } else {
                byte
            },
    )
}

/// What stands between the separators after the prefix and the root.
pub open spec fn body_segments(path: Seq<u8>, style: PathStyle) -> Seq<Seq<u8>> {
    let body = body_of(path, style);
    match style {
        PathStyle::Unix => parts(body, 47),
        PathStyle::Windows => if prefix_of(path, style).kind.verbatim() {
            parts(body, 92)
        } else {
            parts(slashed(body), 47)
        },
    }
}

/// The first few segments, without the empty ones, and without each `.` unless all of them count or
/// it begins the path.
pub open spec fn leading(
    list: Seq<Seq<u8>>,
    count: nat,
    all_dots: bool,
    first_dot: bool,
) -> Seq<Seq<u8>>
    decreases count,
{
    if count == 0 {
        Seq::empty()
    } else {
        let earlier = leading(list, (count - 1) as nat, all_dots, first_dot);
        let segment = list[count - 1];
        if segment.len() > 0 && (segment != seq![46u8] || all_dots || first_dot && count == 1) {
            earlier.push(segment)
        } else {
            earlier
        }
    }
}

/// Where a path leads.
#[verifier::ext_equal]
pub struct Way {
    pub prefix: PrefixModel,
    /// The path begins at a root.
    pub rooted: bool,
    pub components: Seq<Seq<u8>>,
}

/// Where a path leads.
pub open spec fn way(path: Seq<u8>, style: PathStyle) -> Way {
    let prefix = prefix_of(path, style);
    let root = spells_root(path, style);
    let segments = body_segments(path, style);
    Way {
        prefix,
        rooted: root || prefix.kind == PrefixKind::Share || prefix.kind == PrefixKind::Device,
        components: leading(
            segments,
            segments.len(),
            prefix.kind.verbatim(),
            !root && prefix.kind == PrefixKind::Missing,
        ),
    }
}

/// The components of a path, on systems other than Windows.
pub open spec fn components(path: Seq<u8>) -> Seq<Seq<u8>> {
    way(path, PathStyle::Unix).components
}

/// Two paths lead the same way.
pub open spec fn same_way(left: Seq<u8>, right: Seq<u8>, style: PathStyle) -> bool {
    way(left, style) == way(right, style)
}

/// A segment that leads further below a directory: neither an empty one nor a `.`.
pub open spec fn steps(segment: Seq<u8>) -> bool {
    segment.len() > 0 && segment != seq![46u8]
}

/// The segments from the first step on that comes after so many others.
pub open spec fn after_steps(list: Seq<Seq<u8>>, count: nat) -> Seq<Seq<u8>>
    decreases list.len(),
{
    if list.len() == 0 {
        list
    } else if !steps(list[0]) {
        after_steps(list.drop_first(), count)
    } else if count > 0 {
        after_steps(list.drop_first(), (count - 1) as nat)
    } else {
        list
    }
}

/// The segments up to the last step.
pub open spec fn up_to_last_step(list: Seq<Seq<u8>>) -> Seq<Seq<u8>>
    decreases list.len(),
{
    if list.len() == 0 || steps(list.last()) {
        list
    } else {
        up_to_last_step(list.drop_last())
    }
}

/// The segments with a `/` between each two.
pub open spec fn spelled(list: Seq<Seq<u8>>) -> Seq<u8>
    decreases list.len(),
{
    if list.len() == 0 {
        Seq::empty()
    } else if list.len() == 1 {
        list[0]
    } else {
        spelled(list.drop_last()).push(47) + list.last()
    }
}

/// How an absolute path goes on below an absolute directory, if it leads there: its segments after
/// the directory's components, as they stand, from the first step to the last.
pub open spec fn below(path: Seq<u8>, directory: Seq<u8>) -> Option<Seq<Seq<u8>>> {
    if absolute(path) && absolute(directory) && components(directory).is_prefix_of(
        components(path),
    ) {
        Some(up_to_last_step(after_steps(segments(path), components(directory).len())))
    } else {
        None
    }
}

/// The path of a name inside a directory, on systems other than Windows.
pub open spec fn joined(directory: Seq<u8>, name: Seq<u8>) -> Seq<u8> {
    if absolute(name) {
        name
    } else if directory.len() > 0 && directory.last() != 47 {
        directory.push(47) + name
    } else {
        directory + name
    }
}

/// The bytes of each vector in a list.
pub open spec fn byte_lists(list: Seq<Vec<u8>>) -> Seq<Seq<u8>> {
    list.map_values(|bytes: Vec<u8>| bytes@)
}

/// What stands between the separators in a list of bytes.
pub fn split_bytes(bytes: &Vec<u8>, separator: u8) -> (r: Vec<Vec<u8>>)
    ensures
        byte_lists(r@) == parts(bytes@, separator),
{
    let mut list: Vec<Vec<u8>> = Vec::new();
    let mut part: Vec<u8> = Vec::new();
    assert(bytes@.take(0) == Seq::<u8>::empty());
    assert(byte_lists(list@).push(part@) == parts(bytes@.take(0), separator));
    for i in 0..bytes.len()
        invariant
            byte_lists(list@).push(part@) == parts(bytes@.take(i as int), separator),
    {
        let ghost list_before = byte_lists(list@);
        let ghost part_before = part@;
        let ghost earlier = parts(bytes@.take(i as int), separator);
        assert(bytes@.take(i + 1).drop_last() == bytes@.take(i as int));
        assert(earlier.drop_last() == list_before);
        assert(earlier.last() == part_before);
        if bytes[i] == separator {
            list.push(part);
            part = Vec::new();
            assert(byte_lists(list@) == list_before.push(part_before));
        } else {
            part.push(bytes[i]);
        }
    }
    assert(bytes@.take(bytes@.len() as int) == bytes@);
    let ghost list_before = byte_lists(list@);
    let ghost part_before = part@;
    list.push(part);
    assert(byte_lists(list@) == list_before.push(part_before));
    list
}

/// The prefix of a path.
struct Prefix {
    kind: PrefixKind,
    name: Vec<u8>,
    share: Vec<u8>,
}

impl View for Prefix {
    type V = PrefixModel;

    closed spec fn view(&self) -> PrefixModel {
        PrefixModel { kind: self.kind, name: self.name@, share: self.share@ }
    }
}

fn is_slash(byte: u8) -> (r: bool)
    ensures
        r == slash(byte),
{
    byte == 47 || byte == 92
}

/// What stands from an index on up to the next separator.
fn name_from(path: &Vec<u8>, from: usize, verbatim: bool) -> (r: Vec<u8>)
    requires
        from <= path@.len(),
    ensures
        r@ == name_at(path@, from as int, verbatim),
        from + r@.len() <= path@.len(),
{
    let mut name: Vec<u8> = Vec::new();
    let mut at: usize = from;
    assert(name@ + name_at(path@, from as int, verbatim) == name_at(path@, from as int, verbatim));
    while at < path.len() && path[at] != 92 && (path[at] != 47 || verbatim)
        invariant
            from <= at <= path@.len(),
            name@.len() == at - from,
            name@ + name_at(path@, at as int, verbatim) == name_at(path@, from as int, verbatim),
        decreases path@.len() - at,
    {
        let ghost before = name@;
        let ghost rest = name_at(path@, at + 1, verbatim);
        name.push(path[at]);
        assert(name@ + rest == before + (seq![path@[at as int]] + rest));
        at += 1;
    }
    assert(name@ + name_at(path@, at as int, verbatim) == name@);
    name
}

/// What stands after a name and a separator up to the next separator.
fn name_after(path: &Vec<u8>, end: usize, verbatim: bool) -> (r: Vec<u8>)
    requires
        end <= path@.len(),
    ensures
        r@ == name_at(path@, end + 1, verbatim),
        end + 1 + r@.len() <= path@.len() || r@.len() == 0,
{
    if end < path.len() {
        name_from(path, end + 1, verbatim)
    } else {
        Vec::new()
    }
}

fn has_drive(path: &Vec<u8>, from: usize) -> (r: bool)
    requires
        from <= path@.len(),
    ensures
        r == drive_at(path@, from as int),
{
    path.len() - from >= 2 && (65 <= path[from] && path[from] <= 90 || 97 <= path[from]
        && path[from] <= 122) && path[from + 1] == 58
}

fn drive_letter(letter: u8) -> (r: Vec<u8>)
    ensures
        r@ == drive_name(letter),
{
    let mut name: Vec<u8> = Vec::new();
    name.push(
        if letter >= 97 {
            letter - 32
        } else {
            letter
        },
    );
    assert(name@ == drive_name(letter));
    name
}

fn no_prefix() -> (r: Prefix)
    ensures
        r@ == PrefixModel::missing(),
{
    let r = Prefix { kind: PrefixKind::Missing, name: Vec::new(), share: Vec::new() };
    assert(r@ =~= PrefixModel::missing());
    r
}

fn named_prefix(kind: PrefixKind, name: Vec<u8>) -> (r: Prefix)
    ensures
        r@ == PrefixModel::of_kind(kind, name@, Seq::empty()),
{
    let r = Prefix { kind, name, share: Vec::new() };
    assert(r@ =~= PrefixModel::of_kind(kind, name@, Seq::empty()));
    r
}

fn find_windows_prefix(path: &Vec<u8>) -> (r: Prefix)
    ensures
        r@ == windows_prefix(path@),
        r@.length() <= path@.len(),
{
    let double = path.len() >= 2 && is_slash(path[0]) && is_slash(path[1]);
    if path.len() >= 4 && path[0] == 92 && path[1] == 92 && path[2] == 63 && path[3] == 92 {
        if path.len() >= 8 && path[4] == 85 && path[5] == 78 && path[6] == 67 && is_slash(path[7]) {
            let name = name_from(path, 8, true);
            let share = name_after(path, 8 + name.len(), true);
            Prefix { kind: PrefixKind::VerbatimShare, name, share }
        } else if has_drive(path, 4) && (path.len() == 6 || is_slash(path[6])) {
            named_prefix(PrefixKind::VerbatimDisk, drive_letter(path[4]))
        } else {
            named_prefix(PrefixKind::Verbatim, name_from(path, 4, true))
        }
    } else if double && path.len() >= 4 && path[2] == 46 && is_slash(path[3]) {
        named_prefix(PrefixKind::Device, name_from(path, 4, false))
    } else if double {
        let name = name_from(path, 2, false);
        let share = name_after(path, 2 + name.len(), false);
        if name.len() > 0 && share.len() > 0 {
            Prefix { kind: PrefixKind::Share, name, share }
        } else {
            no_prefix()
        }
    } else if has_drive(path, 0) {
        named_prefix(PrefixKind::Disk, drive_letter(path[0]))
    } else {
        no_prefix()
    }
}

fn find_prefix(path: &Vec<u8>, style: PathStyle) -> (r: Prefix)
    ensures
        r@ == prefix_of(path@, style),
        r@.length() <= path@.len(),
{
    match style {
        PathStyle::Unix => no_prefix(),
        PathStyle::Windows => find_windows_prefix(path),
    }
}

impl Prefix {
    fn length(&self) -> (r: usize)
        requires
            self@.length() <= usize::MAX,
        ensures
            r == self@.length(),
    {
        match self.kind {
            PrefixKind::Missing => 0,
            PrefixKind::Disk => 2,
            PrefixKind::Share => 2 + self.name.len() + 1 + self.share.len(),
            PrefixKind::Device => 4 + self.name.len(),
            PrefixKind::Verbatim => 4 + self.name.len(),
            PrefixKind::VerbatimShare => if self.share.len() > 0 {
                8 + self.name.len() + 1 + self.share.len()
            } else {
                8 + self.name.len()
            },
            PrefixKind::VerbatimDisk => 6,
        }
    }

    fn is_verbatim(&self) -> (r: bool)
        ensures
            r == self@.kind.verbatim(),
    {
        self.kind == PrefixKind::Verbatim || self.kind == PrefixKind::VerbatimShare || self.kind
            == PrefixKind::VerbatimDisk
    }
}

fn with_slashes(bytes: &Vec<u8>) -> (r: Vec<u8>)
    ensures
        r@ == slashed(bytes@),
{
    let mut list: Vec<u8> = Vec::new();
    for i in 0..bytes.len()
        invariant
            list@ == slashed(bytes@.take(i as int)),
    {
        list.push(
            if bytes[i] == 92 {
                47
            } else {
                bytes[i]
            },
        );
        assert(list@ =~= slashed(bytes@.take(i + 1)));
    }
    assert(bytes@.take(bytes@.len() as int) == bytes@);
    list
}

fn leading_list(all: &Vec<Vec<u8>>, all_dots: bool, first_dot: bool) -> (r: Vec<Vec<u8>>)
    ensures
        byte_lists(r@) == leading(
            byte_lists(all@),
            byte_lists(all@).len(),
            all_dots,
            first_dot,
        ),
{
    let ghost whole = byte_lists(all@);
    let mut list: Vec<Vec<u8>> = Vec::new();
    assert(byte_lists(list@) == Seq::<Seq<u8>>::empty());
    for i in 0..all.len()
        invariant
            whole == byte_lists(all@),
            byte_lists(list@) == leading(whole, i as nat, all_dots, first_dot),
    {
        let segment = &all[i];
        assert(segment@ == whole[i as int]);
        let dot = segment.len() == 1 && segment[0] == 46;
        assert(dot ==> segment@ =~= seq![46u8]);
        let ghost before = byte_lists(list@);
        if segment.len() > 0 && (!dot || all_dots || (first_dot && i == 0)) {
            let copy = copy_bytes(segment, 0, segment.len());
            assert(copy@ == segment@);
            list.push(copy);
            assert(byte_lists(list@) == before.push(segment@));
        }
    }
    list
}

/// Where a path leads.
struct ParsedPath {
    prefix: Prefix,
    rooted: bool,
    components: Vec<Vec<u8>>,
}

impl View for ParsedPath {
    type V = Way;

    closed spec fn view(&self) -> Way {
        Way {
            prefix: self.prefix@,
            rooted: self.rooted,
            components: byte_lists(self.components@),
        }
    }
}

fn parse(path: &Vec<u8>, style: PathStyle) -> (r: ParsedPath)
    ensures
        r@ == way(path@, style),
{
    let total: usize = path.len();
    let prefix = find_prefix(path, style);
    let start = prefix.length();
    let ghost rest = after_prefix(path@, style);
    let root = start < total && (path[start] == 47 || style == PathStyle::Windows
        && path[start] == 92);
    assert(start < path@.len() ==> rest[0] == path@[start as int]);
    let body = if root {
        copy_bytes(path, start + 1, total)
    } else {
        copy_bytes(path, start, total)
    };
    assert(body@ == body_of(path@, style));
    let verbatim = prefix.is_verbatim();
    let segments = match style {
        PathStyle::Unix => split_bytes(&body, 47),
        PathStyle::Windows => if verbatim {
            split_bytes(&body, 92)
        } else {
            split_bytes(&with_slashes(&body), 47)
        },
    };
    assert(byte_lists(segments@) == body_segments(path@, style));
    let first_dot = !root && prefix.kind == PrefixKind::Missing;
    let components = leading_list(&segments, verbatim, first_dot);
    let rooted = root || prefix.kind == PrefixKind::Share || prefix.kind == PrefixKind::Device;
    let r = ParsedPath { prefix, rooted, components };
    assert(r@ =~= way(path@, style));
    r
}

fn is_step(segment: &Vec<u8>) -> (r: bool)
    ensures
        r == steps(segment@),
{
    let dot = segment.len() == 1 && segment[0] == 46;
    assert(dot ==> segment@ =~= seq![46u8]);
    segment.len() > 0 && !dot
}

/// Where the first step after so many others stands.
fn step_after(list: &Vec<Vec<u8>>, count: usize) -> (r: usize)
    ensures
        r <= list@.len(),
        byte_lists(list@).subrange(r as int, list@.len() as int) == after_steps(
            byte_lists(list@),
            count as nat,
        ),
{
    let ghost whole = byte_lists(list@);
    let mut at: usize = 0;
    let mut left: usize = count;
    assert(whole.subrange(0, whole.len() as int) == whole);
    while at < list.len()
        invariant
            whole == byte_lists(list@),
            at <= list@.len(),
            after_steps(whole, count as nat) == after_steps(
                whole.subrange(at as int, whole.len() as int),
                left as nat,
            ),
        decreases list@.len() - at,
    {
        let ghost rest = whole.subrange(at as int, whole.len() as int);
        assert(rest[0] == list@[at as int]@);
        assert(rest.drop_first() == whole.subrange(at + 1, whole.len() as int));
        if is_step(&list[at]) {
            if left == 0 {
                return at;
            }
            left -= 1;
        }
        at += 1;
    }
    at
}

/// The end of the last step from an index on.
fn last_step(list: &Vec<Vec<u8>>, from: usize) -> (r: usize)
    requires
        from <= list@.len(),
    ensures
        from <= r <= list@.len(),
        byte_lists(list@).subrange(from as int, r as int) == up_to_last_step(
            byte_lists(list@).subrange(from as int, list@.len() as int),
        ),
{
    let ghost whole = byte_lists(list@);
    let mut to: usize = list.len();
    while to > from
        invariant
            whole == byte_lists(list@),
            from <= to <= list@.len(),
            up_to_last_step(whole.subrange(from as int, whole.len() as int)) == up_to_last_step(
                whole.subrange(from as int, to as int),
            ),
        decreases to,
    {
        let ghost rest = whole.subrange(from as int, to as int);
        assert(rest.last() == list@[to - 1]@);
        assert(rest.drop_last() == whole.subrange(from as int, to - 1));
        if is_step(&list[to - 1]) {
            return to;
        }
        to -= 1;
    }
    to
}

/// The segments with a `/` between each two.
pub fn spell(list: &Vec<Vec<u8>>) -> (r: FilePath)
    ensures
        r.bytes@ == spelled(byte_lists(list@)),
{
    let ghost whole = byte_lists(list@);
    let mut bytes: Vec<u8> = Vec::new();
    for i in 0..list.len()
        invariant
            whole == byte_lists(list@),
            bytes@ == spelled(whole.take(i as int)),
    {
        let ghost before = bytes@;
        assert(whole.take(i + 1).drop_last() == whole.take(i as int));
        assert(whole.take(i + 1).last() == list@[i as int]@);
        if i > 0 {
            bytes.push(47);
        }
        append_bytes(&mut bytes, &list[i]);
        proof {
            if i == 0 {
                assert(whole.take(1)[0] == list@[0]@);
                assert(before == Seq::<u8>::empty());
                assert(bytes@ == list@[0]@);
            }
        }
    }
    assert(whole.take(whole.len() as int) == whole);
    FilePath { bytes }
}

fn append_bytes(bytes: &mut Vec<u8>, more: &Vec<u8>)
    ensures
        final(bytes)@ == old(bytes)@ + more@,
{
    let ghost head = bytes@;
    for i in 0..more.len()
        invariant
            bytes@ == head + more@.take(i as int),
    {
        bytes.push(more[i]);
        assert(more@.take(i + 1) == more@.take(i as int).push(more@[i as int]));
    }
    assert(more@.take(more@.len() as int) == more@);
}

/// Whether one list of components is the beginning of another.
fn leads_through(path: &Vec<Vec<u8>>, directory: &Vec<Vec<u8>>) -> (r: bool)
    ensures
        r == byte_lists(directory@).is_prefix_of(byte_lists(path@)),
{
    if directory.len() > path.len() {
        return false;
    }
    for i in 0..directory.len()
        invariant
            directory@.len() <= path@.len(),
            forall|j: int|
                0 <= j < i ==> (#[trigger] byte_lists(directory@)[j]) == byte_lists(path@)[j],
    {
        if !same_bytes(&directory[i], &path[i]) {
            assert(byte_lists(directory@)[i as int] != byte_lists(path@)[i as int]);
            return false;
        }
    }
    assert(byte_lists(directory@) =~= byte_lists(path@).subrange(0, directory@.len() as int));
    true
}

fn same_components(left: &Vec<Vec<u8>>, right: &Vec<Vec<u8>>) -> (r: bool)
    ensures
        r == (byte_lists(left@) == byte_lists(right@)),
{
    if left.len() != right.len() {
        assert(byte_lists(left@).len() != byte_lists(right@).len());
        return false;
    }
    for i in 0..left.len()
        invariant
            left@.len() == right@.len(),
            forall|j: int| 0 <= j < i ==> (#[trigger] byte_lists(left@)[j]) == byte_lists(right@)[j],
    {
        if !same_bytes(&left[i], &right[i]) {
            assert(byte_lists(left@)[i as int] != byte_lists(right@)[i as int]);
            return false;
        }
    }
    assert(byte_lists(left@) =~= byte_lists(right@));
    true
}

fn same_bytes(left: &Vec<u8>, right: &Vec<u8>) -> (r: bool)
    ensures
        r == (left@ == right@),
{
    if left.len() != right.len() {
        return false;
    }
    for i in 0..left.len()
        invariant
            left@.len() == right@.len(),
            forall|j: int| 0 <= j < i ==> left@[j] == #[trigger] right@[j],
    {
        if left[i] != right[i] {
            return false;
        }
    }
    assert(left@ == right@);
    true
}

/// The final component of a path. A path without one, or whose final component is `..`, names no
/// file; nor does one that ends with a `.` that counts.
pub open spec fn final_component(path: Seq<u8>, style: PathStyle) -> Option<Seq<u8>> {
    let components = way(path, style).components;
    if components.len() == 0 || components.last() == seq![46u8] || components.last() == seq![
        46u8,
        46u8,
    ] {
        None
    } else {
        Some(components.last())
    }
}

/// Where the extension of a file name begins: after its last dot, unless that dot is its first byte.
pub open spec fn extension_dot(name: Seq<u8>) -> Option<int>
    decreases name.len(),
{
    if name.len() <= 1 {
        None
    } else if name.last() == 46 {
        Some(name.len() - 1)
    } else {
        extension_dot(name.drop_last())
    }
}

/// The part of a file name after its last dot. A name whose only dot is its first byte has none.
pub open spec fn name_extension(name: Seq<u8>) -> Option<Seq<u8>> {
    match extension_dot(name) {
        Some(dot) => Some(name.subrange(dot + 1, name.len() as int)),
        None => None,
    }
}

/// The part of a file name before its extension.
pub open spec fn name_stem(name: Seq<u8>) -> Seq<u8> {
    match extension_dot(name) {
        Some(dot) => name.subrange(0, dot),
        None => name,
    }
}

fn copy_bytes(bytes: &Vec<u8>, from: usize, to: usize) -> (r: Vec<u8>)
    requires
        from <= to <= bytes@.len(),
    ensures
        r@ == bytes@.subrange(from as int, to as int),
{
    let mut copy: Vec<u8> = Vec::new();
    for i in from..to
        invariant
            from <= to <= bytes@.len(),
            copy@ == bytes@.subrange(from as int, i as int),
    {
        copy.push(bytes[i]);
        assert(bytes@.subrange(from as int, i + 1) == bytes@.subrange(from as int, i as int).push(
            bytes@[i as int],
        ));
    }
    copy
}

proof fn extension_dot_is_last(name: Seq<u8>, at: int)
    requires
        0 < at < name.len(),
        name[at] == 46,
        forall|i: int| at < i < name.len() ==> #[trigger] name[i] != 46,
    ensures
        extension_dot(name) == Some(at),
    decreases name.len(),
{
    if at < name.len() - 1 {
        extension_dot_is_last(name.drop_last(), at);
    }
}

proof fn extension_dot_is_missing(name: Seq<u8>)
    requires
        forall|i: int| 1 <= i < name.len() ==> #[trigger] name[i] != 46,
    ensures
        extension_dot(name) is None,
    decreases name.len(),
{
    if name.len() > 1 {
        extension_dot_is_missing(name.drop_last());
    }
}

impl FilePath {
    /// The path that a text spells.
    pub fn from_text(text: &str) -> (r: FilePath)
        ensures
            r.bytes@ == encode_utf8(text@),
    {
        let source = text.as_bytes();
        let mut bytes: Vec<u8> = Vec::new();
        for i in 0..source.len()
            invariant
                bytes@ == source@.take(i as int),
        {
            bytes.push(source[i]);
            assert(source@.take(i + 1) == source@.take(i as int).push(source@[i as int]));
        }
        assert(source@.take(source@.len() as int) == source@);
        FilePath { bytes }
    }

    pub fn copy(&self) -> (r: FilePath)
        ensures
            r.bytes@ == self.bytes@,
    {
        let bytes = copy_bytes(&self.bytes, 0, self.bytes.len());
        assert(self.bytes@.subrange(0, self.bytes@.len() as int) == self.bytes@);
        FilePath { bytes }
    }

    pub fn is_empty(&self) -> (r: bool)
        ensures
            r == (self.bytes@.len() == 0),
    {
        self.bytes.len() == 0
    }

    pub fn is_absolute(&self) -> (r: bool)
        ensures
            r == absolute(self.bytes@),
    {
        self.bytes.len() > 0 && self.bytes[0] == 47
    }

    /// How this absolute path goes on below an absolute directory, if it leads there.
    pub fn segments_below(&self, directory: &FilePath) -> (r: Option<Vec<Vec<u8>>>)
        ensures
            r is Some <==> below(self.bytes@, directory.bytes@) is Some,
            r matches Some(list) ==> below(self.bytes@, directory.bytes@) == Some(
                byte_lists(list@),
            ),
    {
        if !self.is_absolute() || !directory.is_absolute() {
            return None;
        }
        let taken = parse(&directory.bytes, PathStyle::Unix).components;
        if !leads_through(&parse(&self.bytes, PathStyle::Unix).components, &taken) {
            return None;
        }
        let all = split_bytes(&self.bytes, 47);
        let from = step_after(&all, taken.len());
        let to = last_step(&all, from);
        let ghost rest = byte_lists(all@).subrange(from as int, to as int);
        let mut list: Vec<Vec<u8>> = Vec::new();
        for i in from..to
            invariant
                from <= to <= all@.len(),
                list@.len() == i - from,
                forall|k: int| 0 <= k < i - from ==> (#[trigger] list@[k])@ == all@[from + k]@,
        {
            let copy = copy_bytes(&all[i], 0, all[i].len());
            assert(copy@ == all@[i as int]@);
            list.push(copy);
        }
        assert(byte_lists(list@) =~= rest);
        Some(list)
    }

    /// Whether two paths lead the same way.
    pub fn same_path(&self, other: &FilePath, style: PathStyle) -> (r: bool)
        ensures
            r == same_way(self.bytes@, other.bytes@, style),
    {
        let left = parse(&self.bytes, style);
        let right = parse(&other.bytes, style);
        let same = left.prefix.kind == right.prefix.kind && same_bytes(
            &left.prefix.name,
            &right.prefix.name,
        ) && same_bytes(&left.prefix.share, &right.prefix.share) && left.rooted == right.rooted
            && same_components(&left.components, &right.components);
        proof {
            if same {
                assert(left@ =~= right@);
            }
        }
        same
    }

    /// The path of a name inside this directory, on systems other than Windows. A name that is itself
    /// an absolute path stands for itself.
    pub fn join(&self, name: &str) -> (r: FilePath)
        ensures
            r.bytes@ == joined(self.bytes@, encode_utf8(name@)),
    {
        let tail = FilePath::from_text(name);
        if tail.is_absolute() {
            return tail;
        }
        let mut bytes = copy_bytes(&self.bytes, 0, self.bytes.len());
        assert(bytes@ == self.bytes@);
        if bytes.len() > 0 && bytes[bytes.len() - 1] != 47 {
            bytes.push(47);
        }
        append_bytes(&mut bytes, &tail.bytes);
        FilePath { bytes }
    }

    /// The path as text, if it is UTF-8.
    pub fn to_text(&self) -> (r: Option<String>)
        ensures
            text::opt_text(r) == as_text(self.bytes@),
    {
        text_from_utf8(self.copy().bytes)
    }

    /// The path as text, whatever its bytes are.
    pub fn to_text_lossy(&self) -> (r: String)
        ensures
            r@ == lossy_text(self.bytes@),
            valid_utf8(self.bytes@) ==> r@ == decode_utf8(self.bytes@),
    {
        text_from_utf8_lossy(&self.bytes)
    }

    /// The bytes of the final component.
    fn final_component_bytes(&self, style: PathStyle) -> (r: Option<Vec<u8>>)
        ensures
            r is Some <==> final_component(self.bytes@, style) is Some,
            r matches Some(name) ==> final_component(self.bytes@, style) == Some(name@),
    {
        let components = parse(&self.bytes, style).components;
        let count: usize = components.len();
        if count == 0 {
            return None;
        }
        let last = &components[count - 1];
        assert(byte_lists(components@).last() == last@);
        let dot = last.len() == 1 && last[0] == 46;
        let dots = last.len() == 2 && last[0] == 46 && last[1] == 46;
        assert(dot ==> last@ =~= seq![46u8]);
        assert(dots ==> last@ =~= seq![46u8, 46u8]);
        if dot || dots {
            return None;
        }
        let name = copy_bytes(last, 0, last.len());
        assert(name@ == last@);
        Some(name)
    }

    /// The final component of the path, if there is one and it is text.
    pub fn file_name(&self, style: PathStyle) -> (r: Option<String>)
        ensures
            text::opt_text(r) == file_name_text(self.bytes@, style),
    {
        match self.final_component_bytes(style) {
            Some(name) => text_from_utf8(name),
            None => None,
        }
    }

    /// The extension of the final component, if it has one and that is text.
    pub fn extension(&self, style: PathStyle) -> (r: Option<String>)
        ensures
            text::opt_text(r) == extension_text(self.bytes@, style),
    {
        match self.final_component_bytes(style) {
            Some(name) => match find_extension_dot(&name) {
                Some(dot) => text_from_utf8(copy_bytes(&name, dot + 1, name.len())),
                None => None,
            },
            None => None,
        }
    }

    /// The final component without its extension, if there is one and that is text.
    pub fn file_stem(&self, style: PathStyle) -> (r: Option<String>)
        ensures
            text::opt_text(r) == stem_text(self.bytes@, style),
    {
        match self.final_component_bytes(style) {
            Some(name) => match find_extension_dot(&name) {
                Some(dot) => text_from_utf8(copy_bytes(&name, 0, dot)),
                None => text_from_utf8(name),
            },
            None => None,
        }
    }

    /// The final component without its extension, whatever its bytes are.
    pub fn lossy_stem(&self, style: PathStyle) -> (r: Option<String>)
        ensures
            text::opt_text(r) == lossy_stem_text(self.bytes@, style),
    {
        match self.final_component_bytes(style) {
            Some(name) => match find_extension_dot(&name) {
                Some(dot) => Some(text_from_utf8_lossy(&copy_bytes(&name, 0, dot))),
                None => Some(text_from_utf8_lossy(&name)),
            },
            None => None,
        }
    }
}

/// The stem of the final component as text, whatever its bytes are.
pub open spec fn lossy_stem_text(path: Seq<u8>, style: PathStyle) -> Option<Seq<char>> {
    match final_component(path, style) {
        Some(name) => Some(lossy_text(name_stem(name))),
        None => None,
    }
}

pub open spec fn file_name_text(path: Seq<u8>, style: PathStyle) -> Option<Seq<char>> {
    match final_component(path, style) {
        Some(name) => as_text(name),
        None => None,
    }
}

pub open spec fn extension_text(path: Seq<u8>, style: PathStyle) -> Option<Seq<char>> {
    match final_component(path, style) {
        Some(name) => match name_extension(name) {
            Some(extension) => as_text(extension),
            None => None,
        },
        None => None,
    }
}

pub open spec fn stem_text(path: Seq<u8>, style: PathStyle) -> Option<Seq<char>> {
    match final_component(path, style) {
        Some(name) => as_text(name_stem(name)),
        None => None,
    }
}

fn find_extension_dot(name: &Vec<u8>) -> (r: Option<usize>)
    ensures
        r is Some <==> extension_dot(name@) is Some,
        r matches Some(dot) ==> extension_dot(name@) == Some(dot as int) && 0 < dot < name.len(),
{
    let mut at: usize = name.len();
    while at > 1
        invariant
            at <= name@.len(),
            forall|i: int| at <= i < name@.len() ==> #[trigger] name@[i] != 46,
        decreases at,
    {
        at -= 1;
        if name[at] == 46 {
            proof {
                extension_dot_is_last(name@, at as int);
            }
            return Some(at);
        }
    }
    proof {
        extension_dot_is_missing(name@);
    }
    None
}

/// The path itself, or nothing.
pub open spec fn opt_path(path: Option<FilePath>) -> Option<Seq<u8>> {
    match path {
        Some(path) => Some(path.bytes@),
        None => None,
    }
}

pub fn copy_opt_path(path: &Option<FilePath>) -> (r: Option<FilePath>)
    ensures
        opt_path(r) == opt_path(*path),
{
    match path {
        Some(path) => Some(path.copy()),
        None => None,
    }
}

/// What follows without a separator belongs to the last part.
pub proof fn parts_grow(front: Seq<u8>, name: Seq<u8>, separator: u8)
    requires
        forall|i: int| 0 <= i < name.len() ==> #[trigger] name[i] != separator,
    ensures
        parts(front, separator).len() > 0,
        parts(front + name, separator) == parts(front, separator).drop_last().push(
            parts(front, separator).last() + name,
        ),
    decreases front.len() + name.len(),
{
    let all = parts(front, separator);
    if name.len() > 0 {
        let less = name.drop_last();
        parts_grow(front, less, separator);
        assert((front + name).drop_last() =~= front + less);
        assert((front + name).last() == name[name.len() - 1]);
        assert(all.last() + name =~= (all.last() + less).push(name.last()));
        let earlier = parts(front + less, separator);
        assert(earlier.drop_last() =~= all.drop_last());
    } else {
        if front.len() > 0 {
            parts_grow(front.drop_last(), name, separator);
        }
        assert(front + name =~= front);
        assert(all.last() + name =~= all.last());
        assert(all.drop_last().push(all.last()) =~= all);
    }
}

/// The first few segments are what they are, whatever follows them.
pub proof fn leading_looks_no_further(
    list: Seq<Seq<u8>>,
    other: Seq<Seq<u8>>,
    count: nat,
    all_dots: bool,
    first_dot: bool,
)
    requires
        count <= list.len(),
        count <= other.len(),
        forall|i: int| 0 <= i < count ==> #[trigger] list[i] == other[i],
    ensures
        leading(list, count, all_dots, first_dot) == leading(other, count, all_dots, first_dot),
    decreases count,
{
    if count > 0 {
        leading_looks_no_further(list, other, (count - 1) as nat, all_dots, first_dot);
        assert(list[count - 1] == other[count - 1]);
    }
}

/// More slashes at the end lead nowhere else.
proof fn slashes_lead_nowhere(
    body: Seq<u8>,
    slashes: Seq<u8>,
    all_dots: bool,
    first_dot: bool,
)
    requires
        forall|i: int| 0 <= i < slashes.len() ==> #[trigger] slashes[i] == 47,
    ensures
        leading(
            parts(body + slashes, 47),
            parts(body + slashes, 47).len(),
            all_dots,
            first_dot,
        ) == leading(parts(body, 47), parts(body, 47).len(), all_dots, first_dot),
    decreases slashes.len(),
{
    if slashes.len() > 0 {
        let less = body + slashes.drop_last();
        let all = body + slashes;
        slashes_lead_nowhere(body, slashes.drop_last(), all_dots, first_dot);
        assert(all.drop_last() =~= less);
        assert(all.last() == slashes[slashes.len() - 1]);
        let list = parts(less, 47);
        let longer = parts(all, 47);
        assert(longer == list.push(Seq::empty()));
        leading_looks_no_further(list, longer, list.len(), all_dots, first_dot);
    } else {
        assert(body + slashes =~= body);
    }
}

/// A path is called by what follows its last slash. Slashes at the end make no difference.
pub proof fn paths_are_called_by_their_last_segment(
    front: Seq<u8>,
    name: Seq<u8>,
    slashes: Seq<u8>,
)
    requires
        name.len() > 0,
        name != seq![46u8],
        name != seq![46u8, 46u8],
        front.len() > 0 ==> front.last() == 47,
        forall|i: int| 0 <= i < name.len() ==> #[trigger] name[i] != 47,
        forall|i: int| 0 <= i < slashes.len() ==> #[trigger] slashes[i] == 47,
    ensures
        final_component(front + name + slashes, PathStyle::Unix) == Some(name),
{
    let path = front + name + slashes;
    assert(after_prefix(path, PathStyle::Unix) =~= path);
    assert(path[0] == if front.len() > 0 {
        front[0]
    } else {
        name[0]
    });
    let root = path[0] == 47;
    assert(spells_root(path, PathStyle::Unix) == root);
    let start = if root {
        front.subrange(1, front.len() as int)
    } else {
        front
    };
    if front.len() == 0 {
        assert(name[0] != 47);
    }
    let body = start + name;
    assert(body_of(path, PathStyle::Unix) =~= body + slashes);
    slashes_lead_nowhere(body, slashes, false, !root);
    parts_grow(start, name, 47);
    let list = parts(body, 47);
    if start.len() > 0 {
        assert(start.last() == front.last());
        assert(parts(start, 47).last() == Seq::<u8>::empty());
    }
    assert(parts(start, 47).last() + name =~= name);
    assert(list.last() == name);
    assert(list[list.len() - 1] == name);
}

/// A path that ends by leading up again names no file, nor does a root, nor nothing at all.
pub proof fn some_paths_name_no_file(front: Seq<u8>, slashes: Seq<u8>)
    requires
        front.len() > 0 ==> front.last() == 47,
        forall|i: int| 0 <= i < slashes.len() ==> #[trigger] slashes[i] == 47,
    ensures
        final_component(front + seq![46u8, 46u8] + slashes, PathStyle::Unix) is None,
        final_component(slashes, PathStyle::Unix) is None,
{
    let name = seq![46u8, 46u8];
    let path = front + name + slashes;
    assert(after_prefix(path, PathStyle::Unix) =~= path);
    assert(path[0] == if front.len() > 0 {
        front[0]
    } else {
        name[0]
    });
    let root = path[0] == 47;
    assert(spells_root(path, PathStyle::Unix) == root);
    let start = if root {
        front.subrange(1, front.len() as int)
    } else {
        front
    };
    let body = start + name;
    assert(body_of(path, PathStyle::Unix) =~= body + slashes);
    slashes_lead_nowhere(body, slashes, false, !root);
    parts_grow(start, name, 47);
    let list = parts(body, 47);
    if start.len() > 0 {
        assert(start.last() == front.last());
        assert(parts(start, 47).last() == Seq::<u8>::empty());
    }
    assert(parts(start, 47).last() + name =~= name);
    assert(list[list.len() - 1] == name);
    assert(name != seq![46u8]) by {
        assert(name.len() != seq![46u8].len());
    }
    let none = Seq::<u8>::empty();
    let rest = if slashes.len() > 0 {
        slashes.subrange(1, slashes.len() as int)
    } else {
        slashes
    };
    assert(after_prefix(slashes, PathStyle::Unix) =~= slashes);
    assert(body_of(slashes, PathStyle::Unix) =~= none + rest);
    slashes_lead_nowhere(none, rest, false, slashes.len() == 0);
    assert(parts(none, 47) == seq![none]);
    assert(leading(seq![none], 0, false, slashes.len() == 0).len() == 0);
    assert(leading(seq![none], 1, false, slashes.len() == 0).len() == 0);
}

/// Where a name ends in a dot and something without dots, that is its extension, and what comes before
/// the dot is its stem. A dot in front makes no extension.
pub proof fn extensions_follow_the_last_dot(stem: Seq<u8>, extension: Seq<u8>)
    requires
        forall|i: int| 0 <= i < extension.len() ==> #[trigger] extension[i] != 46,
    ensures
        stem.len() > 0 ==> {
            &&& name_extension(stem.push(46) + extension) == Some(extension)
            &&& name_stem(stem.push(46) + extension) == stem
        },
        name_extension(extension) is None,
        name_stem(extension) == extension,
        name_extension(seq![46u8] + extension) is None,
        name_stem(seq![46u8] + extension) == seq![46u8] + extension,
{
    let name = stem.push(46) + extension;
    if stem.len() > 0 {
        assert forall|i: int| stem.len() < i < name.len() implies #[trigger] name[i] != 46 by {
            assert(name[i] == extension[i - stem.len() - 1]);
        }
        extension_dot_is_last(name, stem.len() as int);
        assert(name.subrange(stem.len() as int + 1, name.len() as int) =~= extension);
        assert(name.subrange(0, stem.len() as int) =~= stem);
    }
    let hidden = seq![46u8] + extension;
    assert forall|i: int| 1 <= i < hidden.len() implies #[trigger] hidden[i] != 46 by {
        assert(hidden[i] == extension[i - 1]);
    }
    extension_dot_is_missing(hidden);
    extension_dot_is_missing(extension);
}

/// A name lies in a directory behind one slash, and an absolute one where it says.
pub proof fn names_lie_behind_a_slash(directory: Seq<u8>, name: Seq<u8>)
    ensures
        name.len() > 0 && name[0] == 47 ==> joined(directory, name) == name,
        (name.len() == 0 || name[0] != 47) ==> {
            &&& directory.len() > 0 && directory.last() != 47 ==> joined(directory, name)
                == directory + seq![47u8] + name
            &&& directory.len() == 0 || directory.last() == 47 ==> joined(directory, name)
                == directory + name
        },
{
    assert(directory.push(47) =~= directory + seq![47u8]);
}

} // verus!

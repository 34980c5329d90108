//! Where paths lead, in terms of their bytes.

use crate::path;
use crate::path::{PathStyle, PrefixKind};
use vstd::prelude::*;

verus! {

/// What follows a drive and a separator is what is looked at.
proof fn drives_are_prefixes(letter: u8, separator: u8, body: Seq<u8>)
    requires
        65 <= letter <= 90 || 97 <= letter <= 122,
        separator == 47 || separator == 92,
    ensures
        ({
            let whole = seq![letter, 58u8, separator] + body;
            &&& path::prefix_of(whole, PathStyle::Windows).kind == PrefixKind::Disk
            &&& path::prefix_of(whole, PathStyle::Windows).name == seq![
                if letter >= 97 {
                    (letter - 32) as u8
                } else {
                    letter
                },
            ]
            &&& path::prefix_of(whole, PathStyle::Windows).share.len() == 0
            &&& path::spells_root(whole, PathStyle::Windows)
            &&& path::body_of(whole, PathStyle::Windows) == body
        }),
{
    let whole = seq![letter, 58u8, separator] + body;
    assert(whole[0] == letter && whole[1] == 58 && whole[2] == separator);
    assert(!path::verbatim_start(whole));
    assert(!path::double_slash(whole));
    assert(path::drive_at(whole, 0));
    let rest = path::after_prefix(whole, PathStyle::Windows);
    assert(rest =~= seq![separator] + body);
    assert(rest.subrange(1, rest.len() as int) =~= body);
}

/// A path on a drive is called by what follows its last separator, whichever of the two that is.
pub proof fn drive_paths_are_called_by_their_last_segment(
    letter: u8,
    separator: u8,
    front: Seq<u8>,
    name: Seq<u8>,
)
    requires
        65 <= letter <= 90 || 97 <= letter <= 122,
        separator == 47 || separator == 92,
        front.len() > 0 ==> front.last() == 47 || front.last() == 92,
        name.len() > 0,
        name != seq![46u8],
        name != seq![46u8, 46u8],
        forall|i: int| 0 <= i < name.len() ==> #[trigger] name[i] != 47,
        forall|i: int| 0 <= i < name.len() ==> #[trigger] name[i] != 92,
    ensures
        path::final_component(
            seq![letter, 58u8, separator] + (front + name),
            PathStyle::Windows,
        ) == Some(name),
{
    let body = front + name;
    drives_are_prefixes(letter, separator, body);
    let start = path::slashed(front);
    assert(path::slashed(body) =~= start + name) by {
        assert forall|i: int| 0 <= i < body.len() implies path::slashed(body)[i] == (start
            + name)[i] by {
            if i >= front.len() {
                assert(body[i] == name[i - front.len()]);
            }
        }
    }
    path::parts_grow(start, name, 47);
    if start.len() > 0 {
        assert(start.last() == 47);
        assert(path::parts(start, 47).last() == Seq::<u8>::empty());
    }
    assert(path::parts(start, 47).last() + name =~= name);
    let list = path::parts(start + name, 47);
    assert(list[list.len() - 1] == name);
}

/// On a drive, neither the case of its letter nor the choice between the two separators makes a
/// difference.
pub proof fn spelling_makes_no_difference_on_drives(
    letter: u8,
    other_letter: u8,
    separator: u8,
    other_separator: u8,
    body: Seq<u8>,
    other_body: Seq<u8>,
)
    requires
        65 <= letter <= 90,
        other_letter == letter || other_letter == letter + 32,
        separator == 47 || separator == 92,
        other_separator == 47 || other_separator == 92,
        body.len() == other_body.len(),
        forall|i: int|
            0 <= i < body.len() ==> #[trigger] body[i] == other_body[i] || (body[i] == 47 || body[i]
                == 92) && (other_body[i] == 47 || other_body[i] == 92),
    ensures
        path::same_way(
            seq![letter, 58u8, separator] + body,
            seq![other_letter, 58u8, other_separator] + other_body,
            PathStyle::Windows,
        ),
{
    drives_are_prefixes(letter, separator, body);
    drives_are_prefixes(other_letter, other_separator, other_body);
    assert(path::slashed(body) =~= path::slashed(other_body));
    let left = path::way(seq![letter, 58u8, separator] + body, PathStyle::Windows);
    let right = path::way(
        seq![other_letter, 58u8, other_separator] + other_body,
        PathStyle::Windows,
    );
    assert(left.prefix =~= right.prefix);
}

/// Paths on different drives lead different ways.
pub proof fn drives_lead_different_ways(
    letter: u8,
    other_letter: u8,
    body: Seq<u8>,
    other_body: Seq<u8>,
)
    requires
        65 <= letter <= 90,
        65 <= other_letter <= 90,
        letter != other_letter,
    ensures
        !path::same_way(
            seq![letter, 58u8, 92u8] + body,
            seq![other_letter, 58u8, 92u8] + other_body,
            PathStyle::Windows,
        ),
{
    drives_are_prefixes(letter, 92, body);
    drives_are_prefixes(other_letter, 92, other_body);
    assert(seq![letter][0] != seq![other_letter][0]);
}

/// Elsewhere, paths with different names lead different ways, whatever slashes are at the end.
pub proof fn names_decide_where_paths_lead(
    front: Seq<u8>,
    name: Seq<u8>,
    slashes: Seq<u8>,
    other_front: Seq<u8>,
    other_name: Seq<u8>,
)
    requires
        name.len() > 0,
        name != seq![46u8],
        name != seq![46u8, 46u8],
        other_name.len() > 0,
        other_name != seq![46u8],
        other_name != seq![46u8, 46u8],
        name != other_name,
        front.len() > 0 ==> front.last() == 47,
        other_front.len() > 0 ==> other_front.last() == 47,
        forall|i: int| 0 <= i < name.len() ==> #[trigger] name[i] != 47,
        forall|i: int| 0 <= i < other_name.len() ==> #[trigger] other_name[i] != 47,
        forall|i: int| 0 <= i < slashes.len() ==> #[trigger] slashes[i] == 47,
    ensures
        !path::same_way(front + name + slashes, other_front + other_name, PathStyle::Unix),
{
    path::paths_are_called_by_their_last_segment(front, name, slashes);
    path::paths_are_called_by_their_last_segment(other_front, other_name, Seq::empty());
    assert(other_front + other_name + Seq::<u8>::empty() =~= other_front + other_name);
}

proof fn roots_begin_an_empty_part(body: Seq<u8>)
    ensures
        path::parts(seq![47u8] + body, 47) == seq![Seq::<u8>::empty()] + path::parts(body, 47),
        path::parts(body, 47).len() > 0,
    decreases body.len(),
{
    let whole = seq![47u8] + body;
    let none = Seq::<u8>::empty();
    if body.len() > 0 {
        let less = body.drop_last();
        roots_begin_an_empty_part(less);
        assert(whole.drop_last() =~= seq![47u8] + less);
        assert(whole.last() == body.last());
        let earlier = path::parts(less, 47);
        let longer = seq![none] + earlier;
        if body.last() == 47 {
            assert(longer.push(none) =~= seq![none] + earlier.push(none));
        } else {
            assert(longer.last() == earlier.last());
            assert(longer.drop_last().push(longer.last().push(body.last())) =~= seq![none]
                + earlier.drop_last().push(earlier.last().push(body.last())));
        }
    } else {
        assert(whole.drop_last() =~= none);
        assert(path::parts(none, 47) == seq![none]);
        assert(whole.last() == 47);
        assert(seq![none].push(none) =~= seq![none] + seq![none]);
        assert(body =~= none);
    }
}

proof fn steps_count_from_the_front(list: Seq<Seq<u8>>)
    requires
        list.len() > 0,
    ensures
        path::leading(list, list.len(), false, false).len() == path::leading(
            list.drop_first(),
            (list.len() - 1) as nat,
            false,
            false,
        ).len() + if path::steps(list[0]) {
            1nat
        } else {
            0
        },
    decreases list.len(),
{
    let less = list.drop_last();
    let rest = list.drop_first();
    path::leading_looks_no_further(list, less, less.len(), false, false);
    if list.len() > 1 {
        steps_count_from_the_front(less);
        let inner = less.drop_first();
        assert(inner =~= rest.drop_last());
        path::leading_looks_no_further(rest, inner, inner.len(), false, false);
        assert(rest[rest.len() - 1] == list[list.len() - 1]);
    } else {
        assert(path::leading(less, 0, false, false).len() == 0);
        assert(path::leading(rest, 0, false, false).len() == 0);
    }
}

proof fn steps_are_skipped(list: Seq<Seq<u8>>, last: Seq<u8>)
    requires
        path::steps(last),
    ensures
        path::after_steps(
            list.push(last),
            path::leading(list, list.len(), false, false).len(),
        ) == seq![last],
    decreases list.len(),
{
    let whole = list.push(last);
    if list.len() > 0 {
        let rest = list.drop_first();
        steps_count_from_the_front(list);
        steps_are_skipped(rest, last);
        assert(whole.drop_first() =~= rest.push(last));
        assert(whole[0] == list[0]);
    } else {
        assert(whole =~= seq![last]);
    }
}

/// What lies directly in a directory is below it by its own name.
pub proof fn files_lie_below_their_directory(directory: Seq<u8>, name: Seq<u8>)
    requires
        directory.len() > 0,
        directory[0] == 47,
        name.len() > 0,
        name != seq![46u8],
        forall|i: int| 0 <= i < name.len() ==> #[trigger] name[i] != 47,
    ensures
        path::below(directory.push(47) + name, directory) == Some(seq![name]),
        path::spelled(seq![name]) == name,
{
    let whole = directory.push(47) + name;
    let inner = directory.subrange(1, directory.len() as int);
    assert(directory =~= seq![47u8] + inner);
    assert(whole =~= seq![47u8] + (inner.push(47) + name));
    let list = path::parts(inner, 47);
    roots_begin_an_empty_part(inner);
    roots_begin_an_empty_part(inner.push(47) + name);
    path::parts_grow(inner.push(47), name, 47);
    assert(inner.push(47).drop_last() =~= inner);
    assert(list.push(Seq::empty()).drop_last() =~= list);
    assert(Seq::<u8>::empty() + name =~= name);
    let longer = list.push(name);
    assert(path::parts(inner.push(47) + name, 47) == longer);
    assert(path::after_prefix(directory, PathStyle::Unix) =~= directory);
    assert(path::after_prefix(whole, PathStyle::Unix) =~= whole);
    assert(path::body_of(directory, PathStyle::Unix) =~= inner);
    assert(path::body_of(whole, PathStyle::Unix) =~= inner.push(47) + name);
    path::leading_looks_no_further(longer, list, list.len(), false, false);
    let components = path::leading(list, list.len(), false, false);
    assert(path::components(directory) == components);
    assert(path::components(whole) == components.push(name));
    assert(components.is_prefix_of(components.push(name)));
    steps_are_skipped(list, name);
    let segments = path::segments(whole);
    assert(segments == seq![Seq::<u8>::empty()] + longer);
    assert(segments.drop_first() =~= longer);
    assert(segments[0] == Seq::<u8>::empty());
    let rest = path::after_steps(segments, components.len());
    assert(rest == seq![name]);
    assert(rest.last() == name);
}

} // verus!

//! MIME types of the files that a dialog is about.

use super::{DialogModel, DialogOptions};
use crate::path;
use crate::path::{FilePath, PathStyle};
use crate::percent;
use crate::sorted;
use crate::text;
use vstd::prelude::*;
use vstd::utf8::*;

verus! {

/// The MIME types that `mime_guess::from_ext` knows for an extension, in its order.
pub uninterp spec fn guessed_types(extension: Seq<char>) -> Seq<Seq<char>>;

/// `mime_guess::from_ext` looks an extension up in a fixed table. Each type is given without
/// parameters. What the table holds is not stated: the result is a function of the extension.
#[verifier::external_body]
fn guess(extension: &str) -> (r: Vec<String>)
    ensures
        text::texts(r@) == guessed_types(extension@),
{
    mime_guess::from_ext(extension).iter().map(|mime| mime.essence_str().to_owned()).collect()
}

/// An extension without its dots.
pub open spec fn bare(extension: Seq<char>) -> Seq<char> {
    text::without_leading(extension, '.')
}

/// The types of one extension. The empty one has none.
pub open spec fn types_of(extension: Seq<char>) -> Seq<Seq<char>> {
    if bare(extension).len() == 0 {
        Seq::empty()
    } else {
        guessed_types(bare(extension))
    }
}

/// The types of a list of extensions, one after the other.
pub open spec fn types_of_all(extensions: Seq<Seq<char>>) -> Seq<Seq<char>>
    decreases extensions.len(),
{
    if extensions.len() == 0 {
        Seq::empty()
    } else {
        types_of_all(extensions.drop_last()) + types_of(extensions.last())
    }
}

/// The extensions of all filters, one after the other.
pub open spec fn all_extensions(filters: Seq<super::FilterModel>) -> Seq<Seq<char>>
    decreases filters.len(),
{
    if filters.len() == 0 {
        Seq::empty()
    } else {
        all_extensions(filters.drop_last()) + filters.last().extensions
    }
}

/// The list holds just these types: an explicit one and the guessed ones, in order, each once.
pub open spec fn collects(
    list: Seq<Seq<char>>,
    explicit: Option<Seq<char>>,
    guesses: Seq<Seq<char>>,
) -> bool {
    &&& sorted::ascending(list)
    &&& forall|mime: Seq<char>| #[trigger]
        list.contains(mime) <==> guesses.contains(mime) || super::non_empty(explicit) == Some(mime)
}

/// Puts types in order, each once.
pub fn collect_mime_types(explicit: &Option<String>, guesses: &Vec<String>) -> (r: Vec<String>)
    ensures
        collects(text::texts(r@), text::opt_text(*explicit), text::texts(guesses@)),
{
    let mut list: Vec<String> = Vec::new();
    let ghost wanted = super::non_empty(text::opt_text(*explicit));
    if let Some(mime) = explicit {
        if !mime.as_str().is_empty() {
            sorted::insert(&mut list, mime.as_str());
        }
    }
    let ghost all = text::texts(guesses@);
    assert(forall|mime: Seq<char>| #[trigger]
        text::texts(list@).contains(mime) <==> wanted == Some(mime));
    for i in 0..guesses.len()
        invariant
            all == text::texts(guesses@),
            sorted::ascending(text::texts(list@)),
            forall|mime: Seq<char>| #[trigger]
                text::texts(list@).contains(mime) <==> all.take(i as int).contains(mime) || wanted
                    == Some(mime),
    {
        let ghost before = text::texts(list@);
        sorted::insert(&mut list, guesses[i].as_str());
        proof {
            assert forall|mime: Seq<char>| #[trigger]
                text::texts(list@).contains(mime) <==> all.take(i + 1).contains(mime) || wanted
                    == Some(mime) by {
                assert(text::texts(list@).contains(mime) <==> before.contains(mime) || mime
                    == guesses@[i as int]@);
                assert(all.take(i + 1) == all.take(i as int).push(all[i as int]));
                assert(all.take(i as int).push(all[i as int]).contains(mime) <==> all.take(
                    i as int,
                ).contains(mime) || mime == all[i as int]) by {
                    let shorter = all.take(i as int);
                    let longer = shorter.push(all[i as int]);
                    if shorter.contains(mime) {
                        let k = choose|k: int| 0 <= k < shorter.len() && shorter[k] == mime;
                        assert(longer[k] == mime);
                    }
                    if mime == all[i as int] {
                        assert(longer[shorter.len() as int] == mime);
                    }
                    if longer.contains(mime) && mime != all[i as int] {
                        let k = choose|k: int| 0 <= k < longer.len() && longer[k] == mime;
                        assert(shorter[k] == mime);
                    }
                }
            }
        }
    }
    assert(all.take(all.len() as int) == all);
    list
}

fn append_list(list: &mut Vec<String>, more: &Vec<String>)
    ensures
        text::texts(final(list)@) == text::texts(old(list)@) + text::texts(more@),
{
    let ghost start = text::texts(list@);
    let ghost end = text::texts(more@);
    for i in 0..more.len()
        invariant
            end == text::texts(more@),
            text::texts(list@) == start + end.take(i as int),
    {
        let ghost before = text::texts(list@);
        list.push(more[i].clone());
        assert(text::texts(list@) == before.push(end[i as int]));
        assert(end.take(i + 1) == end.take(i as int).push(end[i as int]));
        assert(start + end.take(i + 1) == (start + end.take(i as int)).push(end[i as int]));
    }
    assert(end.take(end.len() as int) == end);
}

/// The types of the extensions of all filters, one after the other.
fn filter_types(options: &DialogOptions) -> (r: Vec<String>)
    ensures
        text::texts(r@) == types_of_all(all_extensions(options@.filters)),
{
    let mut guesses: Vec<String> = Vec::new();
    let ghost filters = options@.filters;
    assert(text::texts(guesses@) == Seq::<Seq<char>>::empty());
    for f in 0..options.filters.len()
        invariant
            filters == options@.filters,
            text::texts(guesses@) == types_of_all(all_extensions(filters.take(f as int))),
    {
        let extensions = &options.filters[f].extensions;
        let ghost earlier = all_extensions(filters.take(f as int));
        let ghost these = text::texts(extensions@);
        proof {
            assert(filters.take(f + 1).drop_last() == filters.take(f as int));
            assert(filters.take(f + 1).last() == filters[f as int]);
            assert(filters[f as int].extensions == these);
            assert(earlier + these.take(0) == earlier);
        }
        for e in 0..extensions.len()
            invariant
                these == text::texts(extensions@),
                text::texts(guesses@) == types_of_all(earlier + these.take(e as int)),
        {
            let bare = text::trim_leading(extensions[e].as_str(), '.');
            let ghost before = text::texts(guesses@);
            proof {
                let shorter = earlier + these.take(e as int);
                let longer = earlier + these.take(e + 1);
                assert(longer.drop_last() == shorter);
                assert(longer.last() == these[e as int]);
            }
            if !bare.as_str().is_empty() {
                let found = guess(bare.as_str());
                append_list(&mut guesses, &found);
            } else {
                assert(before + Seq::<Seq<char>>::empty() == before);
            }
        }
        assert(these.take(these.len() as int) == these);
    }
    assert(filters.take(filters.len() as int) == filters);
    guesses
}

/// The types that a dialog accepts: the explicit one, and those of its filters' extensions. In
/// order, each once.
pub fn mime_types(options: &DialogOptions) -> (r: Vec<String>)
    ensures
        collects(
            text::texts(r@),
            options@.mime_type,
            types_of_all(all_extensions(options@.filters)),
        ),
{
    let guesses = filter_types(options);
    collect_mime_types(&options.mime_type, &guesses)
}

/// All the types are of one main type.
pub open spec fn share_main(types: Seq<Seq<char>>, main: Seq<char>) -> bool {
    forall|i: int|
        0 <= i < types.len() ==> (percent::halves(#[trigger] types[i], '/') matches Some(halves)
            && halves.0 == main)
}

/// One type for several: an explicit one, the only one, or what they have in common.
pub open spec fn primary_of(explicit: Option<Seq<char>>, types: Seq<Seq<char>>) -> Seq<char> {
    match super::non_empty(explicit) {
        Some(mime) => mime,
        None => if types.len() == 1 {
            types[0]
        } else if types.len() > 0 && percent::halves(types[0], '/') is Some && share_main(
            types,
            (percent::halves(types[0], '/')->0).0,
        ) {
            (percent::halves(types[0], '/')->0).0 + "/*"@
        } else {
            "*/*"@
        },
    }
}

/// One type for several: an explicit one, the only one, or what they have in common.
pub fn primary_mime_type(explicit: &Option<String>, types: &Vec<String>) -> (r: String)
    ensures
        r@ == primary_of(text::opt_text(*explicit), text::texts(types@)),
{
    if let Some(mime) = explicit {
        if !mime.as_str().is_empty() {
            return mime.clone();
        }
    }
    let ghost all = text::texts(types@);
    if types.len() == 1 {
        assert(all[0] == types@[0]@);
        return types[0].clone();
    }
    if types.len() == 0 {
        return "*/*".to_owned();
    }
    assert(all[0] == types@[0]@);
    let main = match percent::split_once(types[0].as_str(), '/') {
        Some((main, _)) => main,
        None => {
            return "*/*".to_owned();
        },
    };
    for i in 0..types.len()
        invariant
            all == text::texts(types@),
            all.len() > 1,
            percent::halves(all[0], '/') matches Some(halves) && halves.0 == main@,
            super::non_empty(text::opt_text(*explicit)) is None,
            forall|k: int|
                0 <= k < i ==> (percent::halves(#[trigger] all[k], '/') matches Some(halves)
                    && halves.0 == main@),
    {
        let same = match percent::split_once(types[i].as_str(), '/') {
            Some((other, _)) => text::same(other.as_str(), main.as_str()),
            None => false,
        };
        if !same {
            assert(all[i as int] == types@[i as int]@);
            assert(!share_main(all, main@));
            return "*/*".to_owned();
        }
    }
    assert(share_main(all, main@));
    let mut result = main;
    result.append("/*");
    result
}

/// The type of a file that is saved: an explicit one, or else the one its name suggests, or else
/// what the types of the dialog have in common.
pub open spec fn saved_type(
    explicit: Option<Seq<char>>,
    guess: Option<Seq<char>>,
    types: Seq<Seq<char>>,
) -> Seq<char> {
    match super::non_empty(explicit) {
        Some(mime) => mime,
        None => match guess {
            Some(mime) => mime,
            None => primary_of(None, types),
        },
    }
}

/// The type of a file that is saved, given what its name suggests.
pub fn choose_mime_type(
    explicit: &Option<String>,
    guess: Option<String>,
    types: &Vec<String>,
) -> (r: String)
    ensures
        r@ == saved_type(
            text::opt_text(*explicit),
            text::opt_text(guess),
            text::texts(types@),
        ),
{
    if let Some(mime) = explicit {
        if !mime.as_str().is_empty() {
            return mime.clone();
        }
    }
    match guess {
        Some(mime) => mime,
        None => primary_mime_type(&None, types),
    }
}

/// What a path's extension suggests.
pub open spec fn path_guess(path: Seq<u8>) -> Option<Seq<char>> {
    match path::extension_text(path, PathStyle::Unix) {
        Some(extension) => if guessed_types(extension).len() > 0 {
            Some(guessed_types(extension)[0])
        } else {
            None
        },
        None => None,
    }
}

fn guess_of_path(path: &FilePath) -> (r: Option<String>)
    ensures
        text::opt_text(r) == path_guess(path.bytes@),
{
    match path.extension(PathStyle::Unix) {
        Some(extension) => {
            let found = guess(extension.as_str());
            if found.len() > 0 {
                assert(text::texts(found@)[0] == found@[0]@);
                Some(found[0].clone())
            } else {
                None
            }
        },
        None => None,
    }
}

/// The type of a file that is saved from a path.
pub fn save_mime_type(options: &DialogOptions, source: &FilePath) -> (r: String)
    ensures
        exists|types: Seq<Seq<char>>| #[trigger]
            collects(
                types,
                options@.mime_type,
                types_of_all(all_extensions(options@.filters)),
            ) && r@ == saved_type(options@.mime_type, path_guess(source.bytes@), types),
{
    let types = mime_types(options);
    let guess = guess_of_path(source);
    let ghost all = text::texts(types@);
    let result = choose_mime_type(&options.mime_type, guess, &types);
    assert(collects(all, options@.mime_type, types_of_all(all_extensions(options@.filters))));
    result
}

/// The type of data that is saved under a name.
pub fn save_data_mime_type(options: &DialogOptions, file_name: &str) -> (r: String)
    ensures
        exists|types: Seq<Seq<char>>| #[trigger]
            collects(
                types,
                options@.mime_type,
                types_of_all(all_extensions(options@.filters)),
            ) && r@ == saved_type(
                options@.mime_type,
                path_guess(encode_utf8(file_name@)),
                types,
            ),
{
    save_mime_type(options, &FilePath::from_text(file_name))
}

/// There is one list of types for a dialog: no two lists collect the same types in different ways.
pub proof fn collected_types_are_unique(
    left: Seq<Seq<char>>,
    right: Seq<Seq<char>>,
    explicit: Option<Seq<char>>,
    guesses: Seq<Seq<char>>,
)
    requires
        collects(left, explicit, guesses),
        collects(right, explicit, guesses),
    ensures
        left == right,
{
    assert forall|mime: Seq<char>| #[trigger] left.contains(mime) <==> right.contains(mime) by {
        assert(left.contains(mime) <==> guesses.contains(mime) || super::non_empty(explicit)
            == Some(mime));
    }
    sorted::order_is_unique(left, right);
}

/// An explicit type is always the one that is used.
pub proof fn explicit_types_win(
    options: DialogModel,
    mime: Seq<char>,
    guess: Option<Seq<char>>,
    types: Seq<Seq<char>>,
)
    requires
        options.mime_type == Some(mime),
        mime.len() > 0,
    ensures
        primary_of(options.mime_type, types) == mime,
        saved_type(options.mime_type, guess, types) == mime,
{
}

/// An extension means the same with a leading dot as without.
pub proof fn leading_dots_make_no_difference(extension: Seq<char>)
    ensures
        bare("."@ + extension) == bare(extension),
{
    reveal_strlit(".");
    let dotted = "."@ + extension;
    assert(dotted[0] == '.');
    assert(dotted.subrange(1, dotted.len() as int) == extension);
}

} // verus!

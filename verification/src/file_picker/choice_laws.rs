//! What mobile systems are asked for, and what comes of what the user chose.

use super::android;
use super::ios;
use super::ios::QueryModel;
use super::mime;
use super::picked;
use super::picked::{PickedLocationModel, PickedModel};
use super::{DialogModel, Error, MediaKind, StartLocation};
use crate::path;
use crate::path::PathStyle;
use crate::percent;
use crate::text;
use vstd::prelude::*;

verus! {

/// Each well-known location has its directory on shared storage, except the desktop.
pub proof fn shared_storage_has_these_directories()
    ensures
        android::directory_text(Some(StartLocation::Documents)) == Some("Documents"@),
        android::directory_text(Some(StartLocation::Downloads)) == Some("Download"@),
        android::directory_text(Some(StartLocation::Pictures)) == Some("Pictures"@),
        android::directory_text(Some(StartLocation::Music)) == Some("Music"@),
        android::directory_text(Some(StartLocation::Videos)) == Some("Movies"@),
        android::directory_text(Some(StartLocation::Desktop)) is None,
        android::directory_text(None) is None,
{
}

/// Each well-known location has its directory in the application's container.
pub proof fn containers_have_these_directories()
    ensures
        ios::directory_text(StartLocation::Documents) == "Documents"@,
        ios::directory_text(StartLocation::Downloads) == "Downloads"@,
        ios::directory_text(StartLocation::Pictures) == "Pictures"@,
        ios::directory_text(StartLocation::Music) == "Music"@,
        ios::directory_text(StartLocation::Videos) == "Movies"@,
        ios::directory_text(StartLocation::Desktop) == "Desktop"@,
{
}

/// What the user chose is told by number: a file where there is one, nothing where they cancelled, and
/// an error in every other case. A name, a type or a size that is not known is not told.
pub proof fn choices_are_told_by_number(
    code: i32,
    uri: Option<Seq<char>>,
    display_name: Option<Seq<char>>,
    mime_type: Option<Seq<char>>,
    size: i64,
)
    ensures
        ({
            let told = android::chosen(code, uri, display_name, mime_type, size);
            &&& (told matches Ok(Some(_))) <==> code == -1 && uri is Some
            &&& (told matches Ok(None)) <==> code == 0
            &&& told == Err::<Option<PickedModel>, Error>(Error::Unsupported) <==> code == -2
            &&& told == Err::<Option<PickedModel>, Error>(Error::Unknown) <==> code < -2 || code > 0
                || (code == -1 && uri is None)
            &&& told matches Ok(Some(file)) ==> {
                &&& uri matches Some(uri) && file.location == PickedLocationModel::Uri(uri)
                &&& size >= 0 ==> (file.size matches Some(known) && known == size)
                &&& size < 0 ==> file.size is None
                &&& (display_name matches Some(name) && name.len() > 0) ==> file.display_name
                    == display_name
                &&& (display_name matches Some(name) ==> name.len() == 0)
                    ==> file.display_name is None
                &&& (mime_type matches Some(mime) && mime.len() > 0) ==> file.mime_type == mime_type
                &&& (mime_type matches Some(mime) ==> mime.len() == 0) ==> file.mime_type is None
            }
        }),
{
}

/// A type that was set is the type. Without one, the only type is, and no types are any type.
pub proof fn set_types_come_first(explicit: Option<Seq<char>>, types: Seq<Seq<char>>)
    ensures
        (explicit matches Some(mime) && mime.len() > 0) ==> mime::primary_of(explicit, types)
            == explicit->Some_0,
        (explicit matches Some(mime) ==> mime.len() == 0) ==> {
            &&& types.len() == 1 ==> mime::primary_of(explicit, types) == types[0]
            &&& types.len() == 0 ==> mime::primary_of(explicit, types) == seq!['*', '/', '*']
        },
{
    reveal_strlit("*/*");
    assert("*/*"@ =~= seq!['*', '/', '*']);
}

proof fn main_types_end_at_the_slash(mime: Seq<char>, main: Seq<char>)
    requires
        main.len() < mime.len(),
        mime.take(main.len() as int) == main,
        mime[main.len() as int] == '/',
        forall|i: int| 0 <= i < main.len() ==> #[trigger] main[i] != '/',
    ensures
        percent::halves(mime, '/') matches Some(halves) && halves.0 == main,
{
    let tail = mime.skip(main.len() as int + 1);
    assert(mime =~= main.push('/') + tail) by {
        assert forall|i: int| 0 <= i < main.len() implies mime[i] == main[i] by {
            assert(mime.take(main.len() as int)[i] == mime[i]);
        }
    }
    percent::halves_of_joined(main, tail, '/');
}

/// Several types of one main type come to any of that main type.
pub proof fn types_share_their_main_type(types: Seq<Seq<char>>, main: Seq<char>)
    requires
        types.len() > 1,
        forall|i: int| 0 <= i < main.len() ==> #[trigger] main[i] != '/',
        forall|i: int|
            0 <= i < types.len() ==> main.len() < (#[trigger] types[i]).len() && types[i].take(
                main.len() as int,
            ) == main && types[i][main.len() as int] == '/',
    ensures
        mime::primary_of(None, types) == main + seq!['/', '*'],
{
    reveal_strlit("/*");
    assert("/*"@ =~= seq!['/', '*']);
    assert forall|i: int| 0 <= i < types.len() implies (percent::halves(
        #[trigger] types[i],
        '/',
    ) matches Some(halves) && halves.0 == main) by {
        main_types_end_at_the_slash(types[i], main);
    }
    assert(percent::halves(types[0], '/') is Some);
}

/// Types of different main types come to any type.
pub proof fn types_without_a_common_main_type(
    types: Seq<Seq<char>>,
    first: int,
    second: int,
    main: Seq<char>,
    other: Seq<char>,
)
    requires
        0 <= first < types.len(),
        0 <= second < types.len(),
        main != other,
        forall|i: int| 0 <= i < main.len() ==> #[trigger] main[i] != '/',
        forall|i: int| 0 <= i < other.len() ==> #[trigger] other[i] != '/',
        main.len() < types[first].len() && types[first].take(main.len() as int) == main
            && types[first][main.len() as int] == '/',
        other.len() < types[second].len() && types[second].take(other.len() as int) == other
            && types[second][other.len() as int] == '/',
    ensures
        mime::primary_of(None, types) == seq!['*', '/', '*'],
{
    reveal_strlit("*/*");
    assert("*/*"@ =~= seq!['*', '/', '*']);
    main_types_end_at_the_slash(types[first], main);
    main_types_end_at_the_slash(types[second], other);
    assert((percent::halves(types[first], '/')->Some_0).0 == main);
    assert((percent::halves(types[second], '/')->Some_0).0 == other);
    assert(first != second);
}

/// A saved file has the type that was set, or else the one its name suggests, or else what the dialog's
/// types have in common.
pub proof fn saved_files_have_the_type_set(
    explicit: Option<Seq<char>>,
    guess: Option<Seq<char>>,
    types: Seq<Seq<char>>,
)
    ensures
        (explicit matches Some(mime) && mime.len() > 0) ==> mime::saved_type(explicit, guess, types)
            == explicit->Some_0,
        (explicit matches Some(mime) ==> mime.len() == 0) ==> {
            &&& guess matches Some(mime) ==> mime::saved_type(explicit, guess, types) == mime
            &&& guess is None ==> mime::saved_type(explicit, guess, types) == mime::primary_of(
                None,
                types,
            )
        },
{
}

/// A dialog's types are those of every extension of every filter; a set type is there as well, and
/// nothing else is.
pub proof fn types_are_those_of_the_extensions(
    options: DialogModel,
    types: Seq<Seq<char>>,
    mime: Seq<char>,
)
    requires
        android::types_for(options, types),
    ensures
        types.contains(mime) <==> {
            ||| mime.len() > 0 && options.mime_type == Some(mime)
            ||| exists|i: int, j: int|
                0 <= i < options.filters.len() && 0 <= j < options.filters[i].extensions.len()
                    && mime::types_of(#[trigger] options.filters[i].extensions[j]).contains(mime)
        },
{
    let all = mime::all_extensions(options.filters);
    types_come_from_an_extension(all, mime);
    if mime::types_of_all(all).contains(mime) {
        let k = choose|k: int|
            0 <= k < all.len() && mime::types_of(#[trigger] all[k]).contains(mime);
        extensions_come_from_a_filter(options.filters, all[k]);
        assert(all.contains(all[k]));
    }
    if exists|i: int, j: int|
        0 <= i < options.filters.len() && 0 <= j < options.filters[i].extensions.len()
            && mime::types_of(#[trigger] options.filters[i].extensions[j]).contains(mime) {
        let (i, j) = choose|i: int, j: int|
            0 <= i < options.filters.len() && 0 <= j < options.filters[i].extensions.len()
                && mime::types_of(#[trigger] options.filters[i].extensions[j]).contains(mime);
        let extension = options.filters[i].extensions[j];
        extensions_come_from_a_filter(options.filters, extension);
        assert(all.contains(extension));
        let k = choose|k: int| 0 <= k < all.len() && all[k] == extension;
        assert(mime::types_of(all[k]).contains(mime));
    }
}

proof fn types_come_from_an_extension(extensions: Seq<Seq<char>>, mime: Seq<char>)
    ensures
        mime::types_of_all(extensions).contains(mime) <==> exists|k: int|
            0 <= k < extensions.len() && mime::types_of(#[trigger] extensions[k]).contains(mime),
    decreases extensions.len(),
{
    if extensions.len() > 0 {
        let rest = extensions.drop_last();
        let last = mime::types_of(extensions.last());
        types_come_from_an_extension(rest, mime);
        let earlier = mime::types_of_all(rest);
        let both = earlier + last;
        if both.contains(mime) {
            let i = choose|i: int| 0 <= i < both.len() && both[i] == mime;
            if i < earlier.len() {
                assert(earlier[i] == mime);
                let k = choose|k: int|
                    0 <= k < rest.len() && mime::types_of(#[trigger] rest[k]).contains(mime);
                assert(extensions[k] == rest[k]);
            } else {
                assert(last[i - earlier.len()] == mime);
                assert(extensions[extensions.len() - 1] == extensions.last());
            }
        }
        if exists|k: int|
            0 <= k < extensions.len() && mime::types_of(#[trigger] extensions[k]).contains(mime) {
            let k = choose|k: int|
                0 <= k < extensions.len() && mime::types_of(#[trigger] extensions[k]).contains(mime);
            if k < rest.len() {
                assert(rest[k] == extensions[k]);
                let i = choose|i: int| 0 <= i < earlier.len() && earlier[i] == mime;
                assert(both[i] == mime);
            } else {
                let i = choose|i: int| 0 <= i < last.len() && last[i] == mime;
                assert(both[earlier.len() + i] == mime);
            }
        }
    }
}

proof fn extensions_come_from_a_filter(filters: Seq<super::FilterModel>, extension: Seq<char>)
    ensures
        mime::all_extensions(filters).contains(extension) <==> exists|i: int, j: int|
            0 <= i < filters.len() && 0 <= j < filters[i].extensions.len()
                && #[trigger] filters[i].extensions[j] == extension,
    decreases filters.len(),
{
    if filters.len() > 0 {
        let rest = filters.drop_last();
        let last = filters.last().extensions;
        extensions_come_from_a_filter(rest, extension);
        let earlier = mime::all_extensions(rest);
        let both = earlier + last;
        if both.contains(extension) {
            let k = choose|k: int| 0 <= k < both.len() && both[k] == extension;
            if k < earlier.len() {
                assert(earlier[k] == extension);
                let (i, j) = choose|i: int, j: int|
                    0 <= i < rest.len() && 0 <= j < rest[i].extensions.len()
                        && #[trigger] rest[i].extensions[j] == extension;
                assert(filters[i].extensions[j] == extension);
            } else {
                let at = filters.len() - 1;
                assert(filters[at].extensions[k - earlier.len()] == extension);
            }
        }
        if exists|i: int, j: int|
            0 <= i < filters.len() && 0 <= j < filters[i].extensions.len()
                && #[trigger] filters[i].extensions[j] == extension {
            let (i, j) = choose|i: int, j: int|
                0 <= i < filters.len() && 0 <= j < filters[i].extensions.len()
                    && #[trigger] filters[i].extensions[j] == extension;
            if i < rest.len() {
                assert(rest[i].extensions[j] == extension);
                let k = choose|k: int| 0 <= k < earlier.len() && earlier[k] == extension;
                assert(both[k] == extension);
            } else {
                assert(both[earlier.len() + j] == extension);
            }
        }
    }
}

/// An extension's types are looked up without its dots, and an empty one has none.
pub proof fn extensions_are_looked_up_without_dots(extension: Seq<char>)
    requires
        extension.len() > 0,
        extension[0] != '.',
    ensures
        mime::types_of(extension) == mime::guessed_types(extension),
        mime::types_of(seq!['.'] + extension) == mime::guessed_types(extension),
        mime::types_of(Seq::empty()).len() == 0,
{
    let dotted = seq!['.'] + extension;
    assert(dotted.subrange(1, dotted.len() as int) =~= extension);
    assert(text::without_leading(extension, '.') == extension);
    assert(text::without_leading(dotted, '.') == text::without_leading(extension, '.'));
}

/// Media are asked for as documents by their kind, unless the dialog has filters of its own.
pub proof fn media_are_asked_for_as_documents(options: DialogModel, kind: MediaKind)
    ensures
        ({
            let asked = ios::media_documents(options, kind);
            &&& options.filters.len() > 0 ==> asked == options
            &&& options.filters.len() == 0 ==> {
                &&& kind == MediaKind::Image ==> asked.mime_type == Some("image/*"@)
                &&& kind == MediaKind::Video ==> asked.mime_type == Some("video/*"@)
                &&& kind == MediaKind::ImageOrVideo ==> asked.mime_type is None
                &&& asked.filters == super::default_filters(kind)
            }
            &&& asked.directory == options.directory
            &&& asked.start_location == options.start_location
            &&& asked.file_name == options.file_name
            &&& asked.title == options.title
        }),
{
}

/// Any image and any video have queries of their own; any other type is looked up by its name.
pub proof fn types_are_looked_up(mime: Seq<char>)
    ensures
        ios::mime_query(None).len() == 0,
        mime.len() == 0 ==> ios::mime_query(Some(mime)).len() == 0,
        mime.len() > 0 ==> {
            let queries = ios::mime_query(Some(mime));
            &&& queries.len() == 1
            &&& queries[0] == if mime == seq!['i', 'm', 'a', 'g', 'e', '/', '*'] {
                QueryModel::AnyImage
            } else if mime == seq!['v', 'i', 'd', 'e', 'o', '/', '*'] {
                QueryModel::AnyMovie
            } else {
                QueryModel::ByMimeType(mime)
            }
        },
{
    reveal_strlit("image/*");
    reveal_strlit("video/*");
    assert("image/*"@ =~= seq!['i', 'm', 'a', 'g', 'e', '/', '*']);
    assert("video/*"@ =~= seq!['v', 'i', 'd', 'e', 'o', '/', '*']);
}

/// Each extension is looked up after those before it, without its dots; one with nothing else is not.
pub proof fn extensions_are_looked_up(extensions: Seq<Seq<char>>, next: Seq<char>)
    requires
        next.len() > 0 ==> next[0] != '.',
    ensures
        ios::extension_queries(Seq::empty()).len() == 0,
        next.len() == 0 ==> ios::extension_queries(extensions.push(next)) == ios::extension_queries(
            extensions,
        ),
        next.len() > 0 ==> ios::extension_queries(extensions.push(next)) == ios::extension_queries(
            extensions,
        ).push(QueryModel::ByExtension(next)),
        ios::extension_queries(extensions.push(seq!['.'] + next)) == ios::extension_queries(
            extensions.push(next),
        ),
{
    let dotted = seq!['.'] + next;
    assert(dotted.subrange(1, dotted.len() as int) =~= next);
    assert(text::without_leading(dotted, '.') == text::without_leading(next, '.'));
    assert(extensions.push(next).drop_last() =~= extensions);
    assert(extensions.push(dotted).drop_last() =~= extensions);
}

/// A chosen item's copy has the item's name, or else the suggested one, or else a name of ours.
pub proof fn copies_have_a_name(source: Seq<u8>, suggested: Option<Seq<char>>)
    ensures
        ios::media_name(source, suggested).len() > 0,
        path::file_name_text(source, PathStyle::Unix) matches Some(name) ==> {
            &&& name.len() > 0 ==> ios::media_name(source, suggested) == name
            &&& name.len() == 0 ==> ios::media_name(source, suggested) == "media"@
        },
        path::file_name_text(source, PathStyle::Unix) is None ==> {
            &&& (suggested matches Some(name) && name.len() > 0) ==> ios::media_name(source, suggested)
                == suggested->Some_0
            &&& (suggested matches Some(name) ==> name.len() == 0) ==> ios::media_name(
                source,
                suggested,
            ) == "media"@
        },
{
    reveal_strlit("media");
}

/// What a URI's last segment is, that is what its file is called. Neither a query nor slashes at the end
/// belong to it.
pub proof fn uris_are_called_by_their_last_segment(
    front: Seq<char>,
    name: Seq<char>,
    slashes: Seq<char>,
    query: Seq<char>,
)
    requires
        name.len() > 0,
        forall|i: int| 0 <= i < front.len() ==> #[trigger] front[i] != '?',
        forall|i: int| 0 <= i < name.len() ==> #[trigger] name[i] != '?',
        forall|i: int| 0 <= i < name.len() ==> #[trigger] name[i] != '/',
        forall|i: int| 0 <= i < slashes.len() ==> #[trigger] slashes[i] == '/',
        front.len() > 0 ==> front.last() == '/',
    ensures
        picked::uri_name(front + name + slashes) == Some(name),
        picked::uri_name(front + name + slashes + seq!['?'] + query) == Some(name),
        picked::copy_name(None, front + name + slashes) == name,
{
    let resource = front + name + slashes;
    let whole = resource + seq!['?'] + query;
    let trimmed = front + name;
    let at = resource.len() as int;
    assert forall|i: int| 0 <= i < at implies #[trigger] resource[i] != '?' by {
        if i < front.len() {
            assert(resource[i] == front[i]);
        } else if i < front.len() + name.len() {
            assert(resource[i] == name[i - front.len()]);
        } else {
            assert(resource[i] == slashes[i - front.len() - name.len()]);
        }
    }
    assert forall|i: int| 0 <= i < at implies #[trigger] whole[i] != '?' by {
        assert(whole[i] == resource[i]);
    }
    assert(whole[at] == '?');
    text::before_first_is_prefix(resource, '?', at);
    text::before_first_is_prefix(whole, '?', at);
    assert(resource.subrange(0, at) =~= resource);
    assert(whole.subrange(0, at) =~= resource);
    slashes_behind_go(trimmed, slashes);
    assert(trimmed.last() == name.last());
    assert(name[name.len() - 1] != '/');
    assert(text::without_trailing(resource, '/') == trimmed);
    let from = front.len() as int;
    assert forall|i: int| from <= i < trimmed.len() implies #[trigger] trimmed[i] != '/' by {
        assert(trimmed[i] == name[i - from]);
    }
    text::after_last_is_suffix(trimmed, '/', from);
    assert(trimmed.subrange(from, trimmed.len() as int) =~= name);
}

proof fn slashes_behind_go(front: Seq<char>, slashes: Seq<char>)
    requires
        front.len() > 0 ==> front.last() != '/',
        forall|i: int| 0 <= i < slashes.len() ==> #[trigger] slashes[i] == '/',
    ensures
        text::without_trailing(front + slashes, '/') == front,
    decreases slashes.len(),
{
    let all = front + slashes;
    if slashes.len() > 0 {
        assert(all.last() == slashes[slashes.len() - 1]);
        assert(all.drop_last() =~= front + slashes.drop_last());
        slashes_behind_go(front, slashes.drop_last());
    } else {
        assert(all =~= front);
    }
}

/// A file goes by the name that the platform shows. Its copy has that name as well, and where nothing
/// names it one of ours.
pub proof fn shown_names_come_first(file: PickedModel, style: PathStyle, uri: Seq<char>)
    ensures
        (file.display_name matches Some(name) && name.len() > 0) ==> file.file_name(style)
            == file.display_name && picked::copy_name(file.display_name, uri)
            == file.display_name->Some_0,
        (file.display_name matches Some(name) ==> name.len() == 0) ==> {
            &&& file.location matches PickedLocationModel::Path { path, .. } ==> file.file_name(style)
                == path::file_name_text(path, style)
            &&& file.location matches PickedLocationModel::Uri(uri) ==> file.file_name(style)
                == picked::uri_name(uri)
            &&& picked::uri_name(uri) matches Some(name) ==> picked::copy_name(
                file.display_name,
                uri,
            ) == name
            &&& picked::uri_name(uri) is None ==> picked::copy_name(file.display_name, uri)
                == "attachment"@
        },
{
}

/// A file is at a path or at a URI, never at both. Once it can be reached, what the platform told of it
/// is still known.
pub proof fn files_are_where_they_are(file: PickedModel, reached: Seq<u8>)
    ensures
        file.location matches PickedLocationModel::Path { path, .. } ==> file.path() == Some(path)
            && file.uri() is None,
        file.location matches PickedLocationModel::Uri(uri) ==> file.uri() == Some(uri)
            && file.path() is None,
        file.local(reached).path == reached,
        file.local(reached).display_name == file.display_name,
        file.local(reached).mime_type == file.mime_type,
        file.local(reached).size == file.size,
{
}

} // verus!

//! Where dialogs start and what they show, in terms of what was set.

use super::desktop;
use super::desktop::UserDirectories;
use super::{DialogModel, MediaKind, StartLocation, DEFAULT_IMAGE_EXTENSIONS, DEFAULT_VIDEO_EXTENSIONS};
use crate::path;
use crate::path::PathStyle;
use crate::text;
use vstd::prelude::*;
use vstd::utf8::*;

verus! {

/// Each well-known location is the user's directory of the same name, and unknown where the user has
/// none.
pub proof fn locations_are_the_directories_of_their_names(directories: UserDirectories)
    ensures
        match directories.desktop {
            Some(at) => directories.directory(StartLocation::Desktop) == Some(at.bytes@),
            None => directories.directory(StartLocation::Desktop) is None,
        },
        match directories.documents {
            Some(at) => directories.directory(StartLocation::Documents) == Some(at.bytes@),
            None => directories.directory(StartLocation::Documents) is None,
        },
        match directories.downloads {
            Some(at) => directories.directory(StartLocation::Downloads) == Some(at.bytes@),
            None => directories.directory(StartLocation::Downloads) is None,
        },
        match directories.pictures {
            Some(at) => directories.directory(StartLocation::Pictures) == Some(at.bytes@),
            None => directories.directory(StartLocation::Pictures) is None,
        },
        match directories.music {
            Some(at) => directories.directory(StartLocation::Music) == Some(at.bytes@),
            None => directories.directory(StartLocation::Music) is None,
        },
        match directories.videos {
            Some(at) => directories.directory(StartLocation::Videos) == Some(at.bytes@),
            None => directories.directory(StartLocation::Videos) is None,
        },
{
}

/// A dialog without a directory starts in the user's directory that its start location names.
/// Without either, the system decides.
pub proof fn dialogs_start_at_the_location(options: DialogModel, directories: UserDirectories)
    requires
        options.directory is None,
    ensures
        ({
            let start = desktop::plan_of(options, directories).directory;
            &&& options.start_location is None ==> start is None
            &&& options.start_location == Some(StartLocation::Desktop)
                ==> match directories.desktop {
                Some(at) => start == Some(at.bytes@),
                None => start is None,
            }
            &&& options.start_location == Some(StartLocation::Documents)
                ==> match directories.documents {
                Some(at) => start == Some(at.bytes@),
                None => start is None,
            }
            &&& options.start_location == Some(StartLocation::Downloads)
                ==> match directories.downloads {
                Some(at) => start == Some(at.bytes@),
                None => start is None,
            }
            &&& options.start_location == Some(StartLocation::Pictures)
                ==> match directories.pictures {
                Some(at) => start == Some(at.bytes@),
                None => start is None,
            }
            &&& options.start_location == Some(StartLocation::Music) ==> match directories.music {
                Some(at) => start == Some(at.bytes@),
                None => start is None,
            }
            &&& options.start_location == Some(StartLocation::Videos) ==> match directories.videos {
                Some(at) => start == Some(at.bytes@),
                None => start is None,
            }
        }),
{
}

/// A dialog with a directory starts there, whatever its start location.
pub proof fn dialogs_start_in_their_directory(
    options: DialogModel,
    directories: UserDirectories,
    directory: Seq<u8>,
)
    requires
        options.directory == Some(directory),
    ensures
        desktop::plan_of(options, directories).directory == Some(directory),
{
}

/// A dialog shows the title, the file name and the filters that were set, in their order. An extension
/// is shown without the dots before it.
pub proof fn dialogs_show_what_was_set(options: DialogModel, directories: UserDirectories)
    ensures
        ({
            let plan = desktop::plan_of(options, directories);
            &&& plan.title == options.title
            &&& plan.file_name == options.file_name
            &&& plan.filters.len() == options.filters.len()
            &&& forall|i: int|
                #![trigger plan.filters[i]]
                0 <= i < options.filters.len() ==> plan.filters[i].name == options.filters[i].name
                    && plan.filters[i].extensions.len() == options.filters[i].extensions.len()
            &&& forall|i: int, j: int|
                #![trigger plan.filters[i].extensions[j]]
                0 <= i < options.filters.len() && 0 <= j < options.filters[i].extensions.len() ==> {
                    let shown = plan.filters[i].extensions[j];
                    let given = options.filters[i].extensions[j];
                    &&& shown.len() <= given.len()
                    &&& shown == given.skip(given.len() - shown.len())
                    &&& shown.len() > 0 ==> shown[0] != '.'
                    &&& forall|k: int|
                        0 <= k < given.len() - shown.len() ==> #[trigger] given[k] == '.'
                }
        }),
{
    let plan = desktop::plan_of(options, directories);
    assert forall|i: int, j: int|
        #![trigger plan.filters[i].extensions[j]]
        0 <= i < options.filters.len() && 0 <= j < options.filters[i].extensions.len() implies {
            let shown = plan.filters[i].extensions[j];
            let given = options.filters[i].extensions[j];
            &&& shown.len() <= given.len()
            &&& shown == given.skip(given.len() - shown.len())
            &&& shown.len() > 0 ==> shown[0] != '.'
            &&& forall|k: int| 0 <= k < given.len() - shown.len() ==> #[trigger] given[k] == '.'
        } by {
        text::only_the_run_in_front_goes(options.filters[i].extensions[j], '.');
    }
}

/// A dialog for media starts among the pictures, or among the videos where it shows videos only,
/// unless it has a directory or a start location of its own.
pub proof fn media_dialogs_start_among_their_like(options: DialogModel, kind: MediaKind)
    ensures
        ({
            let start = options.for_media(kind).start_location;
            if options.directory is None && options.start_location is None {
                match kind {
                    MediaKind::Image => start == Some(StartLocation::Pictures),
                    MediaKind::Video => start == Some(StartLocation::Videos),
                    MediaKind::ImageOrVideo => start == Some(StartLocation::Pictures),
                }
            } else {
                start == options.start_location
            }
        }),
        options.for_media(kind).directory == options.directory,
{
}

/// Dialogs for images offer images, dialogs for videos offer videos, and those for both offer images
/// first.
pub proof fn media_are_offered_by_kind(kind: MediaKind)
    ensures
        ({
            let filters = super::default_filters(kind);
            let last = filters.len() - 1;
            &&& filters.len() == if kind == MediaKind::ImageOrVideo {
                2nat
            } else {
                1nat
            }
            &&& kind != MediaKind::Video ==> {
                &&& filters[0].name == seq!['I', 'm', 'a', 'g', 'e', 's']
                &&& filters[0].extensions.len() == DEFAULT_IMAGE_EXTENSIONS@.len()
                &&& forall|i: int|
                    0 <= i < DEFAULT_IMAGE_EXTENSIONS@.len() ==> (
                    #[trigger] filters[0].extensions[i]) == DEFAULT_IMAGE_EXTENSIONS@[i]@
            }
            &&& kind != MediaKind::Image ==> {
                &&& filters[last].name == seq!['V', 'i', 'd', 'e', 'o', 's']
                &&& filters[last].extensions.len() == DEFAULT_VIDEO_EXTENSIONS@.len()
                &&& forall|i: int|
                    0 <= i < DEFAULT_VIDEO_EXTENSIONS@.len() ==> (
                    #[trigger] filters[last].extensions[i]) == DEFAULT_VIDEO_EXTENSIONS@[i]@
            }
        }),
{
    reveal_strlit("Images");
    reveal_strlit("Videos");
    assert("Images"@ =~= seq!['I', 'm', 'a', 'g', 'e', 's']);
    assert("Videos"@ =~= seq!['V', 'i', 'd', 'e', 'o', 's']);
}

/// A file is saved under the name that was suggested, if that is one; otherwise under its own. No
/// name is empty.
pub proof fn suggested_names_come_first(
    options: DialogModel,
    source: Seq<u8>,
    style: PathStyle,
)
    ensures
        options.file_name is None ==> options.suggested_name(style) is None,
        options.suggested_name(style) is Some ==> options.output_name(source, style)
            == options.suggested_name(style),
        options.suggested_name(style) is None ==> match path::file_name_text(source, style) {
            Some(name) => if name.len() > 0 {
                options.output_name(source, style) == Some(name)
            } else {
                options.output_name(source, style) is None
            },
            None => options.output_name(source, style) is None,
        },
        options.output_name(source, style) matches Some(name) ==> name.len() > 0,
        options.file_name matches Some(given) ==> match path::file_name_text(
            encode_utf8(given),
            style,
        ) {
            Some(name) => if name.len() > 0 {
                options.suggested_name(style) == Some(name)
            } else {
                options.suggested_name(style) is None
            },
            None => options.suggested_name(style) is None,
        },
{
}

/// The first name that is tried is the name itself. Later ones have a number before the extension.
pub proof fn taken_names_get_a_number(
    name: Seq<char>,
    stem: Seq<char>,
    extension: Seq<char>,
    taken: u64,
    style: PathStyle,
)
    requires
        stem.len() > 0,
        path::stem_text(encode_utf8(name), style) == Some(stem),
        path::extension_text(encode_utf8(name), style) == Some(extension),
        taken > 0,
    ensures
        desktop::candidate_text(name, 0, style) == name,
        desktop::candidate_text(name, taken, style) == stem + seq![' ', '('] + text::decimal_text(
            taken as nat,
        ) + seq![')', '.'] + extension,
{
    reveal_strlit(" (");
    reveal_strlit(")");
    reveal_strlit(".");
    assert(" ("@ =~= seq![' ', '(']);
    assert(")"@ =~= seq![')']);
    assert("."@ =~= seq!['.']);
    let number = text::decimal_text(taken as nat);
    assert(stem + seq![' ', '('] + number + seq![')'] + (seq!['.'] + extension) =~= stem + seq![
        ' ',
        '(',
    ] + number + seq![')', '.'] + extension);
}

/// A name without an extension gets the number at its end, and what has no name is untitled.
pub proof fn plain_names_end_in_a_number(name: Seq<char>, taken: u64, style: PathStyle)
    requires
        path::extension_text(encode_utf8(name), style) is None,
        taken > 0,
    ensures
        ({
            let stem = path::stem_text(encode_utf8(name), style);
            let shown = if stem is Some && stem->Some_0.len() > 0 {
                stem->Some_0
            } else {
                seq!['U', 'n', 't', 'i', 't', 'l', 'e', 'd']
            };
            desktop::candidate_text(name, taken, style) == shown + seq![' ', '(']
                + text::decimal_text(taken as nat) + seq![')']
        }),
{
    reveal_strlit(" (");
    reveal_strlit(")");
    reveal_strlit("Untitled");
    assert(" ("@ =~= seq![' ', '(']);
    assert(")"@ =~= seq![')']);
    assert("Untitled"@ =~= seq!['U', 'n', 't', 'i', 't', 'l', 'e', 'd']);
    let start = desktop::stem_or_untitled(name, style) + seq![' ', '('] + text::decimal_text(
        taken as nat,
    ) + seq![')'];
    assert(start + Seq::<char>::empty() =~= start);
}

/// A saved file's name suggests the first type that its extension is known for.
pub proof fn names_suggest_a_type(path: Seq<u8>)
    ensures
        match path::extension_text(path, PathStyle::Unix) {
            Some(extension) => if super::mime::guessed_types(extension).len() > 0 {
                super::mime::path_guess(path) == Some(super::mime::guessed_types(extension)[0])
            } else {
                super::mime::path_guess(path) is None
            },
            None => super::mime::path_guess(path) is None,
        },
{
}

} // verus!

//! File dialogs on iOS.

use super::picked::{PickedFile, PickedLocationModel, PickedModel};
use super::{
    media_filters, DialogModel, DialogOptions, Error, MediaKind, Result, StartLocation,
};
use crate::path;
use crate::path::{FilePath, PathStyle};
use crate::text;
use vstd::prelude::*;
use vstd::utf8::*;

verus! {

/// What a well-known directory is called inside the application's container.
pub open spec fn directory_text(location: StartLocation) -> Seq<char> {
    match location {
        StartLocation::Documents => "Documents"@,
        StartLocation::Downloads => "Downloads"@,
        StartLocation::Pictures => "Pictures"@,
        StartLocation::Music => "Music"@,
        StartLocation::Videos => "Movies"@,
        StartLocation::Desktop => "Desktop"@,
    }
}

/// The directory of a well-known location, inside the application's container if that is known.
pub fn resolve_start_location(home: &Option<FilePath>, location: StartLocation) -> (r: Option<
    FilePath,
>)
    ensures
        path::opt_path(r) == match *home {
            Some(home) => Some(
                path::joined(home.bytes@, encode_utf8(directory_text(location))),
            ),
            None => None,
        },
{
    match home {
        Some(home) => Some(
            home.join(
                match location {
                    StartLocation::Documents => "Documents",
                    StartLocation::Downloads => "Downloads",
                    StartLocation::Pictures => "Pictures",
                    StartLocation::Music => "Music",
                    StartLocation::Videos => "Movies",
                    StartLocation::Desktop => "Desktop",
                },
            ),
        ),
        None => None,
    }
}

/// Where a dialog starts: in the directory that was set, or else at the well-known location.
pub fn initial_directory(options: &DialogOptions, home: &Option<FilePath>) -> (r: Option<FilePath>)
    ensures
        path::opt_path(r) == match (options@.directory, options@.start_location, *home) {
            (Some(directory), _, _) => Some(directory),
            (None, Some(location), Some(home)) => Some(
                path::joined(home.bytes@, encode_utf8(directory_text(location))),
            ),
            _ => None,
        },
{
    match &options.directory {
        Some(directory) => Some(directory.copy()),
        None => match options.start_location {
            Some(location) => resolve_start_location(home, location),
            None => None,
        },
    }
}

/// What is asked for where the document picker has to stand in for the media picker.
pub open spec fn media_documents(options: DialogModel, kind: MediaKind) -> DialogModel {
    if options.filters.len() > 0 {
        options
    } else {
        DialogModel {
            mime_type: match kind {
                MediaKind::Image => Some("image/*"@),
                MediaKind::Video => Some("video/*"@),
                MediaKind::ImageOrVideo => None,
            },
            filters: super::default_filters(kind),
            ..options
        }
    }
}

/// What is asked for where the document picker has to stand in for the media picker.
pub fn media_document_options(options: DialogOptions, kind: MediaKind) -> (r: DialogOptions)
    ensures
        r@ == media_documents(options@, kind),
{
    if options.filters.len() > 0 {
        return options;
    }
    DialogOptions {
        mime_type: match kind {
            MediaKind::Image => Some("image/*".to_owned()),
            MediaKind::Video => Some("video/*".to_owned()),
            MediaKind::ImageOrVideo => None,
        },
        filters: media_filters(kind),
        ..options
    }
}

/// A type of content to look up.
#[derive(Clone, Debug, PartialEq, Eq)]
pub enum ContentQuery {
    AnyImage,
    AnyMovie,
    ByMimeType(String),
    ByExtension(String),
}

pub enum QueryModel {
    AnyImage,
    AnyMovie,
    ByMimeType(Seq<char>),
    ByExtension(Seq<char>),
}

impl View for ContentQuery {
    type V = QueryModel;

    open spec fn view(&self) -> QueryModel {
        match *self {
            ContentQuery::AnyImage => QueryModel::AnyImage,
            ContentQuery::AnyMovie => QueryModel::AnyMovie,
            ContentQuery::ByMimeType(mime) => QueryModel::ByMimeType(mime@),
            ContentQuery::ByExtension(extension) => QueryModel::ByExtension(extension@),
        }
    }
}

pub open spec fn query_models(queries: Seq<ContentQuery>) -> Seq<QueryModel> {
    queries.map_values(|query: ContentQuery| query@)
}

/// What a MIME type has to be looked up as.
pub open spec fn mime_query(mime: Option<Seq<char>>) -> Seq<QueryModel> {
    match super::non_empty(mime) {
        Some(mime) => if mime == "image/*"@ {
            seq![QueryModel::AnyImage]
        } else if mime == "video/*"@ {
            seq![QueryModel::AnyMovie]
        } else {
            seq![QueryModel::ByMimeType(mime)]
        },
        None => Seq::empty(),
    }
}

/// What extensions have to be looked up as. Their dots do not count, and empty ones are skipped.
pub open spec fn extension_queries(extensions: Seq<Seq<char>>) -> Seq<QueryModel>
    decreases extensions.len(),
{
    if extensions.len() == 0 {
        Seq::empty()
    } else {
        let earlier = extension_queries(extensions.drop_last());
        let bare = text::without_leading(extensions.last(), '.');
        if bare.len() == 0 {
            earlier
        } else {
            earlier.push(QueryModel::ByExtension(bare))
        }
    }
}

/// The types of content that a dialog accepts.
pub fn content_queries(options: &DialogOptions) -> (r: Vec<ContentQuery>)
    ensures
        query_models(r@) == mime_query(options@.mime_type) + extension_queries(
            super::mime::all_extensions(options@.filters),
        ),
{
    let mut queries: Vec<ContentQuery> = Vec::new();
    if let Some(mime) = &options.mime_type {
        if text::same(mime.as_str(), "image/*") {
            proof {
                reveal_strlit("image/*");
            }
            queries.push(ContentQuery::AnyImage);
        } else if text::same(mime.as_str(), "video/*") {
            proof {
                reveal_strlit("video/*");
            }
            queries.push(ContentQuery::AnyMovie);
        } else if !mime.as_str().is_empty() {
            queries.push(ContentQuery::ByMimeType(mime.clone()));
        }
    }
    assert(query_models(queries@) =~= mime_query(options@.mime_type));
    let ghost start = query_models(queries@);
    let ghost filters = options@.filters;
    assert(start + extension_queries(Seq::empty()) == start);
    for f in 0..options.filters.len()
        invariant
            filters == options@.filters,
            query_models(queries@) == start + extension_queries(
                super::mime::all_extensions(filters.take(f as int)),
            ),
    {
        let extensions = &options.filters[f].extensions;
        let ghost earlier = super::mime::all_extensions(filters.take(f as int));
        let ghost these = text::texts(extensions@);
        proof {
            assert(filters.take(f + 1).drop_last() == filters.take(f as int));
            assert(filters.take(f + 1).last() == filters[f as int]);
            assert(filters[f as int].extensions == these);
            assert(earlier + these.take(0) == earlier);
        }
        for e in 0..extensions.len()
            invariant
                these == text::texts(extensions@),
                query_models(queries@) == start + extension_queries(earlier + these.take(e as int)),
        {
            let bare = text::trim_leading(extensions[e].as_str(), '.');
            let ghost before = query_models(queries@);
            proof {
                let shorter = earlier + these.take(e as int);
                let longer = earlier + these.take(e + 1);
                assert(longer.drop_last() == shorter);
                assert(longer.last() == these[e as int]);
            }
            if !bare.as_str().is_empty() {
                let ghost text = bare@;
                queries.push(ContentQuery::ByExtension(bare));
                assert(query_models(queries@) == before.push(QueryModel::ByExtension(text)));
                assert(query_models(queries@) == start + extension_queries(
                    earlier + these.take(e as int),
                ).push(QueryModel::ByExtension(text)));
            }
        }
        assert(these.take(these.len() as int) == these);
    }
    assert(filters.take(filters.len() as int) == filters);
    queries
}

/// Whether a dialog has to accept just anything: where no type of content was found.
pub fn accepts_anything(found: usize) -> (r: bool)
    ensures
        r == (found == 0),
{
    found == 0
}

/// What is loaded of a chosen item.
#[derive(Clone, Copy, Debug, PartialEq, Eq, Structural)]
pub enum MediaChoice {
    Image,
    Movie,
    /// Whatever the item registered first.
    FirstRegistered,
}

/// What is loaded of a chosen item. Of one that is both a still and a movie, the still is taken
/// where images were asked for.
pub fn media_type_choice(kind: MediaKind, has_image: bool, has_movie: bool) -> (r: MediaChoice)
    ensures
        r == if kind != MediaKind::Video && has_image {
            MediaChoice::Image
        } else if kind != MediaKind::Image && has_movie {
            MediaChoice::Movie
        } else {
            MediaChoice::FirstRegistered
        },
{
    if kind != MediaKind::Video && has_image {
        MediaChoice::Image
    } else if kind != MediaKind::Image && has_movie {
        MediaChoice::Movie
    } else {
        MediaChoice::FirstRegistered
    }
}

/// How a choice of media goes on.
#[derive(Clone, Copy, Debug, PartialEq, Eq, Structural)]
pub enum MediaStep {
    /// The user chose nothing.
    Cancelled,
    /// Load this of the chosen item.
    Load(MediaChoice),
    /// The chosen item has nothing that could be loaded.
    Fail(Error),
}

/// How a choice of media goes on, given what the chosen item has, if any was chosen.
pub fn media_step(
    kind: MediaKind,
    chosen: bool,
    has_image: bool,
    has_movie: bool,
    has_registered: bool,
) -> (r: MediaStep)
    ensures
        r == if !chosen {
            MediaStep::Cancelled
        } else if kind != MediaKind::Video && has_image {
            MediaStep::Load(MediaChoice::Image)
        } else if kind != MediaKind::Image && has_movie {
            MediaStep::Load(MediaChoice::Movie)
        } else if has_registered {
            MediaStep::Load(MediaChoice::FirstRegistered)
        } else {
            MediaStep::Fail(Error::Unknown)
        },
{
    if !chosen {
        return MediaStep::Cancelled;
    }
    let choice = media_type_choice(kind, has_image, has_movie);
    if choice == MediaChoice::FirstRegistered && !has_registered {
        MediaStep::Fail(Error::Unknown)
    } else {
        MediaStep::Load(choice)
    }
}

/// What came of loading the chosen item: where there is no error there has to be a file.
pub fn media_loaded(failed: bool, file: Option<PickedFile>) -> (r: Result<Option<PickedFile>>)
    ensures
        r == if failed || file is None {
            Err::<Option<PickedFile>, Error>(Error::Unknown)
        } else {
            Ok(file)
        },
{
    if failed || file.is_none() {
        Err(Error::Unknown)
    } else {
        Ok(file)
    }
}

/// How a file is handed over for export.
#[derive(Debug)]
pub enum ExportSource {
    /// As it is.
    Original,
    /// As a temporary copy of this name.
    CopyNamed(String),
}

/// How a file is handed over for export: a copy is made only where it has to be called differently.
pub fn export_source(options: &DialogOptions, source: &FilePath) -> (r: Result<ExportSource>)
    ensures
        match options@.output_name(source.bytes@, PathStyle::Unix) {
            None => r == Err::<ExportSource, Error>(Error::InvalidFileName),
            Some(name) => if path::file_name_text(source.bytes@, PathStyle::Unix) == Some(name) {
                r == Ok::<ExportSource, Error>(ExportSource::Original)
            } else {
                r matches Ok(ExportSource::CopyNamed(copy)) && copy@ == name
            },
        },
{
    let name = match options.output_file_name(source, PathStyle::Unix) {
        Ok(name) => name,
        Err(error) => {
            return Err(error);
        },
    };
    let same = match source.file_name(PathStyle::Unix) {
        Some(own) => text::same(own.as_str(), name.as_str()),
        None => false,
    };
    if same {
        Ok(ExportSource::Original)
    } else {
        Ok(ExportSource::CopyNamed(name))
    }
}

/// How much a file of a package is wanted: images most, then movies, then anything.
pub fn file_type_priority(is_image: bool, is_movie: bool) -> (r: u8)
    ensures
        r == if is_image {
            3u8
        } else if is_movie {
            2
        } else {
            1
        },
{
    if is_image {
        3
    } else if is_movie {
        2
    } else {
        1
    }
}

/// Which file of a package is taken: the first of those that are wanted most.
pub fn best_file(priorities: &Vec<u8>) -> (r: Option<usize>)
    ensures
        r is None <==> priorities@.len() == 0,
        r matches Some(best) ==> {
            &&& best < priorities@.len()
            &&& forall|i: int|
                0 <= i < priorities@.len() ==> #[trigger] priorities@[i]
                    <= priorities@[best as int]
            &&& forall|i: int|
                0 <= i < best ==> #[trigger] priorities@[i] < priorities@[best as int]
        },
{
    if priorities.len() == 0 {
        return None;
    }
    let mut best: usize = 0;
    for i in 1..priorities.len()
        invariant
            best < i,
            i <= priorities@.len(),
            forall|k: int| 0 <= k < i ==> #[trigger] priorities@[k] <= priorities@[best as int],
            forall|k: int| 0 <= k < best ==> #[trigger] priorities@[k] < priorities@[best as int],
    {
        if priorities[i] > priorities[best] {
            best = i;
        }
    }
    Some(best)
}

/// What the copy of a chosen item is called: what the item is called, or else what was suggested,
/// or else a stand-in.
pub open spec fn media_name(source: Seq<u8>, suggested: Option<Seq<char>>) -> Seq<char> {
    let name = match path::file_name_text(source, PathStyle::Unix) {
        Some(name) => Some(name),
        None => suggested,
    };
    match super::non_empty(name) {
        Some(name) => name,
        None => "media"@,
    }
}

/// What the copy of a chosen item is called.
pub fn media_file_name(source: &FilePath, suggested: Option<String>) -> (r: String)
    ensures
        r@ == media_name(source.bytes@, text::opt_text(suggested)),
{
    let name = match source.file_name(PathStyle::Unix) {
        Some(name) => Some(name),
        None => suggested,
    };
    match super::keep_non_empty(name) {
        Some(name) => name,
        None => "media".to_owned(),
    }
}

/// The file that a URL stands for. A URL of the file system gives its path; any other is a URI.
pub fn file_from_url(
    file_path: Option<FilePath>,
    absolute: Option<String>,
    owned_temp: bool,
) -> (r: PickedFile)
    ensures
        r@ == PickedModel::bare(
            match (file_path, absolute) {
                (Some(path), _) => PickedLocationModel::Path { path: path.bytes@, owned_temp },
                (None, Some(uri)) => PickedLocationModel::Uri(uri@),
                (None, None) => PickedLocationModel::Uri(Seq::empty()),
            },
        ),
{
    match file_path {
        Some(path) => if owned_temp {
            PickedFile::from_owned_temp_path(path)
        } else {
            PickedFile::from_path(path)
        },
        None => match absolute {
            Some(uri) => PickedFile::from_uri(uri),
            None => PickedFile::from_uri(String::new()),
        },
    }
}

/// Which window a picker is shown in: the key window, or else one that says it is, or else the
/// first.
#[derive(Clone, Copy, Debug, PartialEq, Eq, Structural)]
pub enum WindowChoice {
    KeyWindow,
    Listed(usize),
}

/// Which window a picker is shown in.
pub fn active_window(has_key_window: bool, listed_keys: &Vec<bool>) -> (r: Option<WindowChoice>)
    ensures
        has_key_window ==> r == Some(WindowChoice::KeyWindow),
        !has_key_window ==> match r {
            None => listed_keys@.len() == 0,
            Some(WindowChoice::KeyWindow) => false,
            Some(WindowChoice::Listed(index)) => {
                &&& index < listed_keys@.len()
                &&& forall|i: int| 0 <= i < index ==> !(#[trigger] listed_keys@[i])
                &&& listed_keys@[index as int] || index == 0 && forall|i: int|
                    0 <= i < listed_keys@.len() ==> !(#[trigger] listed_keys@[i])
            },
        },
{
    if has_key_window {
        return Some(WindowChoice::KeyWindow);
    }
    for i in 0..listed_keys.len()
        invariant
            !has_key_window,
            forall|k: int| 0 <= k < i ==> !(#[trigger] listed_keys@[k]),
    {
        if listed_keys[i] {
            return Some(WindowChoice::Listed(i));
        }
    }
    if listed_keys.len() > 0 {
        Some(WindowChoice::Listed(0))
    } else {
        None
    }
}

/// Which controller of a chain presents a picker: the last, unless one of them already is a picker.
pub fn presenter(chain: &Vec<bool>) -> (r: Result<usize>)
    ensures
        chain@.len() == 0 ==> r == Err::<usize, Error>(Error::Unknown),
        chain@.len() > 0 ==> r == if exists|i: int| 0 <= i < chain@.len() && #[trigger] chain@[i] {
            Err::<usize, Error>(Error::AlreadyOpen)
        } else {
            Ok((chain@.len() - 1) as usize)
        },
{
    if chain.len() == 0 {
        return Err(Error::Unknown);
    }
    for i in 0..chain.len()
        invariant
            forall|k: int| 0 <= k < i ==> !(#[trigger] chain@[k]),
    {
        if chain[i] {
            return Err(Error::AlreadyOpen);
        }
    }
    Ok(chain.len() - 1)
}

/// A picker that waits for the user.
#[derive(Debug)]
pub struct PendingPicker {
    waiting: bool,
    temp_path: Option<FilePath>,
}

/// What is to be done when a picker is done.
#[derive(Debug)]
pub struct Finish {
    /// Tell the application.
    pub tell: bool,
    /// Remove this temporary file, and its directory.
    pub remove: Option<FilePath>,
}

#[verifier::ext_equal]
pub struct PendingModel {
    pub waiting: bool,
    pub temp_path: Option<Seq<u8>>,
}

impl View for PendingPicker {
    type V = PendingModel;

    closed spec fn view(&self) -> PendingModel {
        PendingModel { waiting: self.waiting, temp_path: path::opt_path(self.temp_path) }
    }
}

impl PendingPicker {
    pub fn new(temp_path: Option<FilePath>) -> (r: PendingPicker)
        ensures
            r@ == (PendingModel { waiting: true, temp_path: path::opt_path(temp_path) }),
    {
        PendingPicker { waiting: true, temp_path }
    }

    /// Whether what the user chose is a temporary copy for us: it is not where the picker exports a
    /// file.
    pub fn result_owns_temp(&self) -> (r: bool)
        ensures
            r == (!self@.waiting || self@.temp_path is None),
    {
        !self.waiting || self.temp_path.is_none()
    }

    /// The picker is done. Only the first report counts.
    pub fn finish(&mut self) -> (r: Finish)
        ensures
            r.tell == old(self)@.waiting,
            path::opt_path(r.remove) == if old(self)@.waiting {
                old(self)@.temp_path
            } else {
                None
            },
            final(self)@ == (PendingModel { waiting: false, temp_path: None }),
    {
        let mut remove: Option<FilePath> = None;
        std::mem::swap(&mut remove, &mut self.temp_path);
        let tell = self.waiting;
        self.waiting = false;
        if tell {
            Finish { tell, remove }
        } else {
            Finish { tell, remove: None }
        }
    }
}

/// What the user chose, from the list that the picker gives: the first, and not nothing.
pub fn first_chosen(first: Option<PickedFile>) -> (r: Result<Option<PickedFile>>)
    ensures
        r == match first {
            Some(file) => Ok::<Option<PickedFile>, Error>(Some(file)),
            None => Err(Error::Unknown),
        },
{
    match first {
        Some(file) => Ok(Some(file)),
        None => Err(Error::Unknown),
    }
}

/// What is asked for in place of media keeps the filters that were set, and has some in any case.
pub proof fn media_documents_are_filtered(options: DialogModel, kind: MediaKind)
    ensures
        media_documents(options, kind).filters.len() > 0,
        options.filters.len() > 0 ==> media_documents(options, kind) == options,
        media_documents(options, kind).directory == options.directory,
        media_documents(options, kind).start_location == options.start_location,
        media_documents(options, kind).title == options.title,
{
}

} // verus!

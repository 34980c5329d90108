//! Native dialogs for opening and saving files.

pub mod android;
pub mod choice_laws;
pub mod desktop;
pub mod dialog_laws;
pub mod ios;
pub mod mime;
pub mod picked;

use crate::path;
use crate::path::{FilePath, PathStyle};
use crate::text;
use vstd::prelude::*;
use vstd::utf8::*;

verus! {

/// What can go wrong with a file dialog.
#[derive(Clone, Copy, Debug, PartialEq, Eq, Structural)]
pub enum Error {
    /// The Android environment could not be reached.
    AndroidEnvironment,
    /// A call into Java failed.
    Java,
    /// The dialog has to be started on the main thread.
    NotMainThread,
    /// A file operation failed.
    Io,
    /// The file name is not a valid one.
    InvalidFileName,
    /// Another dialog is already open.
    AlreadyOpen,
    /// This platform is unsupported.
    Unsupported,
    /// Anything else.
    Unknown,
}

pub type Result<T> = std::result::Result<T, Error>;

/// What each error says. Where a system has more to say, its words come after these.
pub open spec fn error_text(error: Error) -> Seq<char> {
    match error {
        Error::AndroidEnvironment => "couldn't access the Android/Java environment"@,
        Error::Java => "Java error: "@,
        Error::NotMainThread => "must be called from the main UI thread"@,
        Error::Io => "I/O error: "@,
        Error::InvalidFileName => "invalid file name"@,
        Error::AlreadyOpen => "another file picker is already open"@,
        Error::Unsupported => "this platform is unsupported"@,
        Error::Unknown => "unknown error"@,
    }
}

impl Error {
    /// What the error says. Where a system has more to say, its words come after these.
    pub fn message(self) -> (r: &'static str)
        ensures
            r@ == error_text(self),
    {
        match self {
            Error::AndroidEnvironment => "couldn't access the Android/Java environment",
            Error::Java => "Java error: ",
            Error::NotMainThread => "must be called from the main UI thread",
            Error::Io => "I/O error: ",
            Error::InvalidFileName => "invalid file name",
            Error::AlreadyOpen => "another file picker is already open",
            Error::Unsupported => "this platform is unsupported",
            Error::Unknown => "unknown error",
        }
    }
}

/// The image file extensions that media dialogs filter by, unless there are other filters.
pub const DEFAULT_IMAGE_EXTENSIONS: [&'static str; 40] = [
    "jpg", "jpeg", "jfif", "png", "apng", "gif", "bmp", "dib", "webp", "avif", "heic", "heif",
    "tif", "tiff", "svg", "svgz", "ico", "jp2", "jxl", "pbm", "pgm", "ppm", "tga", "psd", "raw",
    "dng", "cr2", "cr3", "nef", "nrw", "arw", "srf", "sr2", "orf", "rw2", "raf", "pef", "srw",
    "dcr", "x3f",
];

/// The video file extensions that media dialogs filter by, unless there are other filters.
pub const DEFAULT_VIDEO_EXTENSIONS: [&'static str; 29] = [
    "mp4", "m4v", "mov", "qt", "avi", "mkv", "webm", "wmv", "asf", "flv", "f4v", "ogv", "ogm",
    "mpg", "mpeg", "mpe", "m2v", "mp2", "mts", "m2ts", "ts", "3gp", "3g2", "mxf", "vob", "rm",
    "rmvb", "divx", "m4p",
];

/// The characters of each string in a list.
pub open spec fn str_texts(list: Seq<&str>) -> Seq<Seq<char>> {
    list.map_values(|text: &str| text@)
}

pub fn owned_texts(list: &[&str]) -> (r: Vec<String>)
    ensures
        text::texts(r@) == str_texts(list@),
{
    let mut owned: Vec<String> = Vec::new();
    for i in 0..list.len()
        invariant
            owned@.len() == i,
            forall|k: int| 0 <= k < i ==> (#[trigger] owned@[k])@ == list@[k]@,
    {
        owned.push(list[i].to_owned());
    }
    assert(text::texts(owned@) =~= str_texts(list@));
    owned
}

/// The type of media to show in a media picker.
#[derive(Clone, Copy, Debug, PartialEq, Eq, Structural)]
pub enum MediaKind {
    Image,
    Video,
    ImageOrVideo,
}

/// A well-known directory that a file dialog should start in.
#[derive(Clone, Copy, Debug, PartialEq, Eq, Structural)]
pub enum StartLocation {
    Desktop,
    Documents,
    Downloads,
    Pictures,
    Music,
    Videos,
}

/// Files with one of these extensions.
#[derive(Clone, Debug, PartialEq, Eq)]
pub struct FileFilter {
    pub name: String,
    pub extensions: Vec<String>,
}

#[verifier::ext_equal]
pub struct FilterModel {
    pub name: Seq<char>,
    pub extensions: Seq<Seq<char>>,
}

impl View for FileFilter {
    type V = FilterModel;

    open spec fn view(&self) -> FilterModel {
        FilterModel { name: self.name@, extensions: text::texts(self.extensions@) }
    }
}

pub open spec fn filter_models(filters: Seq<FileFilter>) -> Seq<FilterModel> {
    filters.map_values(|filter: FileFilter| filter@)
}

impl FileFilter {
    pub fn new(name: &str, extensions: &[&str]) -> (r: FileFilter)
        ensures
            r@ == (FilterModel { name: name@, extensions: str_texts(extensions@) }),
    {
        FileFilter { name: name.to_owned(), extensions: owned_texts(extensions) }
    }
}

/// What media dialogs filter by where nothing else is set.
pub open spec fn default_filters(kind: MediaKind) -> Seq<FilterModel> {
    let images = FilterModel {
        name: "Images"@,
        extensions: str_texts(DEFAULT_IMAGE_EXTENSIONS@),
    };
    let videos = FilterModel {
        name: "Videos"@,
        extensions: str_texts(DEFAULT_VIDEO_EXTENSIONS@),
    };
    match kind {
        MediaKind::Image => seq![images],
        MediaKind::Video => seq![videos],
        MediaKind::ImageOrVideo => seq![images, videos],
    }
}

/// What media dialogs filter by where nothing else is set.
pub fn media_filters(kind: MediaKind) -> (r: Vec<FileFilter>)
    ensures
        filter_models(r@) == default_filters(kind),
{
    let mut filters: Vec<FileFilter> = Vec::new();
    if kind != MediaKind::Video {
        filters.push(FileFilter::new("Images", &DEFAULT_IMAGE_EXTENSIONS));
    }
    if kind != MediaKind::Image {
        filters.push(FileFilter::new("Videos", &DEFAULT_VIDEO_EXTENSIONS));
    }
    assert(filter_models(filters@) =~= default_filters(kind));
    filters
}

/// Everything a dialog can have.
#[derive(Clone, Debug)]
pub struct DialogOptions {
    pub filters: Vec<FileFilter>,
    pub directory: Option<FilePath>,
    pub start_location: Option<StartLocation>,
    pub file_name: Option<String>,
    pub title: Option<String>,
    pub mime_type: Option<String>,
}

#[verifier::ext_equal]
pub struct DialogModel {
    pub filters: Seq<FilterModel>,
    pub directory: Option<Seq<u8>>,
    pub start_location: Option<StartLocation>,
    pub file_name: Option<Seq<char>>,
    pub title: Option<Seq<char>>,
    pub mime_type: Option<Seq<char>>,
}

impl View for DialogOptions {
    type V = DialogModel;

    open spec fn view(&self) -> DialogModel {
        DialogModel {
            filters: filter_models(self.filters@),
            directory: path::opt_path(self.directory),
            start_location: self.start_location,
            file_name: text::opt_text(self.file_name),
            title: text::opt_text(self.title),
            mime_type: text::opt_text(self.mime_type),
        }
    }
}

/// The final component of a file name, if it has one.
pub open spec fn name_component(name: Seq<char>, style: PathStyle) -> Option<Seq<char>> {
    non_empty(path::file_name_text(encode_utf8(name), style))
}

/// A text with something in it.
pub open spec fn non_empty(text: Option<Seq<char>>) -> Option<Seq<char>> {
    match text {
        Some(text) => if text.len() > 0 {
            Some(text)
        } else {
            None
        },
        None => None,
    }
}

pub fn keep_non_empty(text: Option<String>) -> (r: Option<String>)
    ensures
        text::opt_text(r) == non_empty(text::opt_text(text)),
{
    match text {
        Some(text) => if text.as_str().is_empty() {
            None
        } else {
            Some(text)
        },
        None => None,
    }
}

fn file_name_component(name: &str, style: PathStyle) -> (r: Option<String>)
    ensures
        text::opt_text(r) == name_component(name@, style),
{
    keep_non_empty(FilePath::from_text(name).file_name(style))
}

impl DialogModel {
    pub open spec fn unset() -> DialogModel {
        DialogModel {
            filters: Seq::empty(),
            directory: None,
            start_location: None,
            file_name: None,
            title: None,
            mime_type: None,
        }
    }

    /// The suggested file name, without any directories.
    pub open spec fn suggested_name(self, style: PathStyle) -> Option<Seq<char>> {
        match self.file_name {
            Some(name) => name_component(name, style),
            None => None,
        }
    }

    /// The name under which a file is saved: the suggested one, or else that of the file itself.
    pub open spec fn output_name(self, source: Seq<u8>, style: PathStyle) -> Option<Seq<char>> {
        match self.suggested_name(style) {
            Some(name) => Some(name),
            None => non_empty(path::file_name_text(source, style)),
        }
    }

    /// Where a media dialog starts, unless something else is set.
    pub open spec fn for_media(self, kind: MediaKind) -> DialogModel {
        if self.directory is None && self.start_location is None {
            DialogModel {
                start_location: Some(
                    if kind == MediaKind::Video {
                        StartLocation::Videos
                    } else {
                        StartLocation::Pictures
                    },
                ),
                ..self
            }
        } else {
            self
        }
    }
}

/// A name, or the error that there is none.
pub open spec fn or_invalid_name(name: Option<Seq<char>>) -> std::result::Result<Seq<char>, Error> {
    match name {
        Some(name) => Ok(name),
        None => Err(Error::InvalidFileName),
    }
}

pub open spec fn text_result(result: Result<String>) -> std::result::Result<Seq<char>, Error> {
    match result {
        Ok(text) => Ok(text@),
        Err(error) => Err(error),
    }
}

impl DialogOptions {
    pub fn unset() -> (r: DialogOptions)
        ensures
            r@ == DialogModel::unset(),
    {
        let r = DialogOptions {
            filters: Vec::new(),
            directory: None,
            start_location: None,
            file_name: None,
            title: None,
            mime_type: None,
        };
        assert(r@.filters == Seq::<FilterModel>::empty());
        r
    }

    fn suggested_name(&self, style: PathStyle) -> (r: Option<String>)
        ensures
            text::opt_text(r) == self@.suggested_name(style),
    {
        match &self.file_name {
            Some(name) => file_name_component(name.as_str(), style),
            None => None,
        }
    }

    /// The name under which a file is saved: the suggested one, or else that of the file itself.
    pub fn output_file_name(&self, source: &FilePath, style: PathStyle) -> (r: Result<String>)
        ensures
            text_result(r) == or_invalid_name(self@.output_name(source.bytes@, style)),
    {
        match self.suggested_name(style) {
            Some(name) => Ok(name),
            None => match keep_non_empty(source.file_name(style)) {
                Some(name) => Ok(name),
                None => Err(Error::InvalidFileName),
            },
        }
    }

    /// The name under which data is saved: the suggested one.
    pub fn output_file_name_only(&self, style: PathStyle) -> (r: Result<String>)
        ensures
            text_result(r) == or_invalid_name(self@.suggested_name(style)),
    {
        match self.suggested_name(style) {
            Some(name) => Ok(name),
            None => Err(Error::InvalidFileName),
        }
    }
}

/// A dialog being put together.
#[derive(Clone, Debug)]
pub struct FileDialog {
    pub options: DialogOptions,
}

impl View for FileDialog {
    type V = DialogModel;

    open spec fn view(&self) -> DialogModel {
        self.options@
    }
}

/// A dialog that is ready to be shown.
#[derive(Debug)]
pub enum DialogRequest {
    /// Have the user open a file.
    Open(DialogOptions),
    /// Have the user choose media.
    Media { options: DialogOptions, kind: MediaKind },
    /// Have the user choose where to save data.
    SaveData { options: DialogOptions, file_name: String },
    /// Save a file to where downloads go.
    SaveToDownloads { options: DialogOptions, source: FilePath },
}

impl FileDialog {
    /// A dialog with nothing set.
    pub fn new() -> (r: FileDialog)
        ensures
            r@ == DialogModel::unset(),
    {
        FileDialog { options: DialogOptions::unset() }
    }

    /// Adds a filter. Extensions may be given with or without their dot.
    pub fn add_filter(self, name: &str, extensions: &[&str]) -> (r: FileDialog)
        ensures
            r@ == (DialogModel {
                filters: self@.filters.push(
                    FilterModel { name: name@, extensions: str_texts(extensions@) },
                ),
                ..self@
            }),
    {
        let mut options = self.options;
        let filter = FileFilter::new(name, extensions);
        options.filters.push(filter);
        assert(options@.filters == self@.filters.push(filter@));
        FileDialog { options }
    }

    /// Replaces all the filters.
    pub fn set_filters(self, filters: Vec<FileFilter>) -> (r: FileDialog)
        ensures
            r@ == (DialogModel { filters: filter_models(filters@), ..self@ }),
    {
        FileDialog { options: DialogOptions { filters, ..self.options } }
    }

    /// Sets a MIME type as a hint, where supported.
    pub fn set_mime_type(self, mime_type: &str) -> (r: FileDialog)
        ensures
            r@ == (DialogModel { mime_type: Some(mime_type@), ..self@ }),
    {
        FileDialog {
            options: DialogOptions { mime_type: Some(mime_type.to_owned()), ..self.options },
        }
    }

    /// Sets the initial directory, where supported. The empty path unsets it.
    pub fn set_directory(self, path: &FilePath) -> (r: FileDialog)
        ensures
            r@ == (DialogModel {
                directory: if path.bytes@.len() == 0 {
                    None
                } else {
                    Some(path.bytes@)
                },
                ..self@
            }),
    {
        let directory = if path.is_empty() {
            None
        } else {
            Some(path.copy())
        };
        FileDialog { options: DialogOptions { directory, ..self.options } }
    }

    /// Hints at the well-known folder that the dialog should open in.
    pub fn set_start_location(self, location: StartLocation) -> (r: FileDialog)
        ensures
            r@ == (DialogModel { start_location: Some(location), ..self@ }),
    {
        FileDialog {
            options: DialogOptions { start_location: Some(location), ..self.options },
        }
    }

    /// Sets the suggested file name, where supported.
    pub fn set_file_name(self, file_name: &str) -> (r: FileDialog)
        ensures
            r@ == (DialogModel { file_name: Some(file_name@), ..self@ }),
    {
        FileDialog {
            options: DialogOptions { file_name: Some(file_name.to_owned()), ..self.options },
        }
    }

    /// Sets the title, where supported.
    pub fn set_title(self, title: &str) -> (r: FileDialog)
        ensures
            r@ == (DialogModel { title: Some(title@), ..self@ }),
    {
        FileDialog { options: DialogOptions { title: Some(title.to_owned()), ..self.options } }
    }

    /// Has the user open a file.
    pub fn pick_file(self) -> (r: DialogRequest)
        ensures
            r matches DialogRequest::Open(options) && options@ == self@,
    {
        DialogRequest::Open(self.options)
    }

    /// Has the user choose an image.
    pub fn pick_image(self) -> (r: DialogRequest)
        ensures
            r matches DialogRequest::Media { options, kind } && options@ == self@.for_media(
                MediaKind::Image,
            ) && kind == MediaKind::Image,
    {
        self.pick_media(MediaKind::Image)
    }

    /// Has the user choose a video.
    pub fn pick_video(self) -> (r: DialogRequest)
        ensures
            r matches DialogRequest::Media { options, kind } && options@ == self@.for_media(
                MediaKind::Video,
            ) && kind == MediaKind::Video,
    {
        self.pick_media(MediaKind::Video)
    }

    /// Has the user choose an image or a video.
    pub fn pick_image_or_video(self) -> (r: DialogRequest)
        ensures
            r matches DialogRequest::Media { options, kind } && options@ == self@.for_media(
                MediaKind::ImageOrVideo,
            ) && kind == MediaKind::ImageOrVideo,
    {
        self.pick_media(MediaKind::ImageOrVideo)
    }

    /// Has the user choose media. Unless something else is set, the dialog starts where such media
    /// are.
    pub fn pick_media(self, kind: MediaKind) -> (r: DialogRequest)
        ensures
            r matches DialogRequest::Media { options, kind: asked } && options@ == self@.for_media(
                kind,
            ) && asked == kind,
    {
        let mut options = self.options;
        if options.directory.is_none() && options.start_location.is_none() {
            options.start_location = Some(
                match kind {
                    MediaKind::Video => StartLocation::Videos,
                    _ => StartLocation::Pictures,
                },
            );
        }
        DialogRequest::Media { options, kind }
    }

    /// Has the user choose where to save data. A file name has to be suggested.
    pub fn save_data(self, style: PathStyle) -> (r: Result<DialogRequest>)
        ensures
            match self@.suggested_name(style) {
                Some(name) => r matches Ok(DialogRequest::SaveData { options, file_name })
                    && options@ == self@ && file_name@ == name,
                None => r == Err::<DialogRequest, Error>(Error::InvalidFileName),
            },
    {
        match self.options.output_file_name_only(style) {
            Ok(file_name) => Ok(DialogRequest::SaveData { options: self.options, file_name }),
            Err(error) => Err(error),
        }
    }

    /// Saves a file to where downloads go.
    pub fn save_to_downloads(self, source: &FilePath) -> (r: DialogRequest)
        ensures
            r matches DialogRequest::SaveToDownloads { options, source: from } && options@ == self@
                && from.bytes@ == source.bytes@,
    {
        DialogRequest::SaveToDownloads { options: self.options, source: source.copy() }
    }
}

/// Whatever was set before a dialog became one for media stays set, and every such dialog has a
/// place to start.
pub proof fn media_dialogs_keep_what_is_set(options: DialogModel, kind: MediaKind)
    ensures
        ({
            let media = options.for_media(kind);
            &&& media.directory is Some || media.start_location is Some
            &&& options.directory is Some ==> media == options
            &&& options.start_location is Some ==> media == options
            &&& media.filters == options.filters
            &&& media.file_name == options.file_name
            &&& media.title == options.title
            &&& media.mime_type == options.mime_type
        }),
{
}

} // verus!

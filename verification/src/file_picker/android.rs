//! File dialogs on Android: the values that go to the Java side, and those that come back.

use super::mime::{mime_types, primary_mime_type, save_data_mime_type, save_mime_type};
use super::picked::{PickedFile, PickedLocationModel, PickedModel};
use super::{DialogOptions, Error, MediaKind, Result, StartLocation};
use crate::path;
use crate::path::{FilePath, PathStyle};
use crate::text;
use vstd::prelude::*;
use vstd::utf8::*;

verus! {

pub const RESULT_OK: i32 = -1;

pub const RESULT_CANCELED: i32 = 0;

pub const RESULT_ERROR: i32 = -2;

/// What a well-known directory is called on shared storage. There is no desktop.
pub open spec fn directory_text(location: Option<StartLocation>) -> Option<Seq<char>> {
    match location {
        Some(StartLocation::Documents) => Some("Documents"@),
        Some(StartLocation::Downloads) => Some("Download"@),
        Some(StartLocation::Pictures) => Some("Pictures"@),
        Some(StartLocation::Music) => Some("Music"@),
        Some(StartLocation::Videos) => Some("Movies"@),
        Some(StartLocation::Desktop) => None,
        None => None,
    }
}

/// What a well-known directory is called on shared storage. There is no desktop.
pub fn android_start_location_dir(location: Option<StartLocation>) -> (r: Option<String>)
    ensures
        text::opt_text(r) == directory_text(location),
{
    match location {
        Some(StartLocation::Documents) => Some("Documents".to_owned()),
        Some(StartLocation::Downloads) => Some("Download".to_owned()),
        Some(StartLocation::Pictures) => Some("Pictures".to_owned()),
        Some(StartLocation::Music) => Some("Music".to_owned()),
        Some(StartLocation::Videos) => Some("Movies".to_owned()),
        Some(StartLocation::Desktop) => None,
        None => None,
    }
}

/// The type of media, in the Java side's terms.
pub fn android_media_kind(kind: MediaKind) -> (r: i32)
    ensures
        r == match kind {
            MediaKind::Image => 1i32,
            MediaKind::Video => 2,
            MediaKind::ImageOrVideo => 3,
        },
{
    match kind {
        MediaKind::Image => 1,
        MediaKind::Video => 2,
        MediaKind::ImageOrVideo => 3,
    }
}

/// What came of asking the Java side to show a dialog: it shows one at a time.
pub fn accepted(shown: bool) -> (r: Result<()>)
    ensures
        r == if shown {
            Ok::<(), Error>(())
        } else {
            Err(Error::AlreadyOpen)
        },
{
    if shown {
        Ok(())
    } else {
        Err(Error::AlreadyOpen)
    }
}

/// A dialog for opening a file, as the Java side shows it.
#[derive(Debug)]
pub struct OpenArguments {
    pub title: Option<String>,
    pub file_name: Option<String>,
    pub mime_type: String,
    pub mime_types: Vec<String>,
    pub initial_location: Option<String>,
}

/// The list collects the types of a dialog.
pub open spec fn types_for(options: super::DialogModel, types: Seq<Seq<char>>) -> bool {
    super::mime::collects(
        types,
        options.mime_type,
        super::mime::types_of_all(super::mime::all_extensions(options.filters)),
    )
}

/// Works out a dialog for opening a file.
pub fn open_arguments(options: &DialogOptions) -> (r: OpenArguments)
    ensures
        text::opt_text(r.title) == options@.title,
        text::opt_text(r.file_name) == options@.file_name,
        types_for(options@, text::texts(r.mime_types@)),
        r.mime_type@ == super::mime::primary_of(options@.mime_type, text::texts(r.mime_types@)),
        text::opt_text(r.initial_location) == directory_text(options@.start_location),
{
    let types = mime_types(options);
    OpenArguments {
        title: text::copy_opt(&options.title),
        file_name: text::copy_opt(&options.file_name),
        mime_type: primary_mime_type(&options.mime_type, &types),
        mime_types: types,
        initial_location: android_start_location_dir(options.start_location),
    }
}

/// A dialog for saving data, as the Java side shows it.
#[derive(Debug)]
pub struct SaveArguments {
    pub file_name: String,
    pub mime_type: String,
    pub mime_types: Vec<String>,
    pub title: Option<String>,
    pub initial_location: Option<String>,
}

/// Works out a dialog for saving data. A file name has to be suggested.
pub fn save_data_arguments(options: &DialogOptions) -> (r: Result<SaveArguments>)
    ensures
        r is Err <==> options@.suggested_name(PathStyle::Unix) is None,
        r matches Err(error) ==> error == Error::InvalidFileName,
        r matches Ok(arguments) ==> {
            &&& options@.suggested_name(PathStyle::Unix) == Some(arguments.file_name@)
            &&& types_for(options@, text::texts(arguments.mime_types@))
            &&& arguments.mime_type@ == super::mime::saved_type(
                options@.mime_type,
                super::mime::path_guess(encode_utf8(arguments.file_name@)),
                text::texts(arguments.mime_types@),
            )
            &&& text::opt_text(arguments.title) == options@.title
            &&& text::opt_text(arguments.initial_location) == directory_text(
                options@.start_location,
            )
        },
{
    let file_name = match options.output_file_name_only(PathStyle::Unix) {
        Ok(file_name) => file_name,
        Err(error) => {
            return Err(error);
        },
    };
    let mime_type = save_data_mime_type(options, file_name.as_str());
    let types = mime_types(options);
    proof {
        let guesses = super::mime::types_of_all(
            super::mime::all_extensions(options@.filters),
        );
        let other = choose|types: Seq<Seq<char>>| #[trigger]
            super::mime::collects(types, options@.mime_type, guesses) && mime_type@
                == super::mime::saved_type(
                options@.mime_type,
                super::mime::path_guess(encode_utf8(file_name@)),
                types,
            );
        super::mime::collected_types_are_unique(
            other,
            text::texts(types@),
            options@.mime_type,
            guesses,
        );
    }
    Ok(
        SaveArguments {
            file_name,
            mime_type,
            mime_types: types,
            title: text::copy_opt(&options.title),
            initial_location: android_start_location_dir(options.start_location),
        },
    )
}

/// A file to save where downloads go, as the Java side is told.
#[derive(Debug)]
pub struct DownloadArguments {
    pub file_name: String,
    pub mime_type: String,
    pub source_path: String,
}

/// Works out how a file is saved where downloads go. Its path has to be text.
pub fn download_arguments(options: &DialogOptions, source: &FilePath) -> (r: Result<
    DownloadArguments,
>)
    ensures
        r is Err <==> options@.output_name(source.bytes@, PathStyle::Unix) is None || path::as_text(source.bytes@)
            is None,
        r matches Err(error) ==> error == Error::InvalidFileName,
        r matches Ok(arguments) ==> {
            &&& options@.output_name(source.bytes@, PathStyle::Unix) == Some(arguments.file_name@)
            &&& path::as_text(source.bytes@) == Some(arguments.source_path@)
            &&& exists|types: Seq<Seq<char>>| #[trigger]
                types_for(options@, types) && arguments.mime_type@ == super::mime::saved_type(
                    options@.mime_type,
                    super::mime::path_guess(source.bytes@),
                    types,
                )
        },
{
    let file_name = match options.output_file_name(source, PathStyle::Unix) {
        Ok(file_name) => file_name,
        Err(error) => {
            return Err(error);
        },
    };
    let mime_type = save_mime_type(options, source);
    match source.to_text() {
        Some(source_path) => {
            proof {
                let types = choose|types: Seq<Seq<char>>| #[trigger]
                    super::mime::collects(
                        types,
                        options@.mime_type,
                        super::mime::types_of_all(
                            super::mime::all_extensions(options@.filters),
                        ),
                    ) && mime_type@ == super::mime::saved_type(
                        options@.mime_type,
                        super::mime::path_guess(source.bytes@),
                        types,
                    );
                assert(types_for(options@, types));
            }
            Ok(DownloadArguments { file_name, mime_type, source_path })
        },
        None => Err(Error::InvalidFileName),
    }
}

/// What the user chose, in the Java side's terms.
pub open spec fn chosen(
    code: i32,
    uri: Option<Seq<char>>,
    display_name: Option<Seq<char>>,
    mime_type: Option<Seq<char>>,
    size: i64,
) -> std::result::Result<Option<PickedModel>, Error> {
    if code == RESULT_OK {
        match uri {
            Some(uri) => Ok(
                Some(
                    PickedModel {
                        location: PickedLocationModel::Uri(uri),
                        display_name: super::non_empty(display_name),
                        mime_type: super::non_empty(mime_type),
                        size: if size >= 0 {
                            Some(size as u64)
                        } else {
                            None
                        },
                    },
                ),
            ),
            None => Err(Error::Unknown),
        }
    } else if code == RESULT_CANCELED {
        Ok(None)
    } else if code == RESULT_ERROR {
        Err(Error::Unsupported)
    } else {
        Err(Error::Unknown)
    }
}

pub open spec fn picked_result(result: Result<Option<PickedFile>>) -> std::result::Result<
    Option<PickedModel>,
    Error,
> {
    match result {
        Ok(Some(file)) => Ok(Some(file@)),
        Ok(None) => Ok(None),
        Err(error) => Err(error),
    }
}

/// What the user chose, as the Java side reports it.
pub fn dialog_result(
    code: i32,
    uri: Option<String>,
    display_name: Option<String>,
    mime_type: Option<String>,
    size: i64,
) -> (r: Result<Option<PickedFile>>)
    ensures
        picked_result(r) == chosen(
            code,
            text::opt_text(uri),
            text::opt_text(display_name),
            text::opt_text(mime_type),
            size,
        ),
{
    if code == RESULT_OK {
        match uri {
            Some(uri) => {
                let size = if size >= 0 {
                    Some(size as u64)
                } else {
                    None
                };
                Ok(Some(PickedFile::from_uri_with_metadata(uri, display_name, mime_type, size)))
            },
            None => Err(Error::Unknown),
        }
    } else if code == RESULT_CANCELED {
        Ok(None)
    } else if code == RESULT_ERROR {
        Err(Error::Unsupported)
    } else {
        Err(Error::Unknown)
    }
}

/// Where a URI's contents are copied to, as the Java side is told.
pub fn copy_destination(destination: &FilePath) -> (r: Result<String>)
    ensures
        super::text_result(r) == super::or_invalid_name(path::as_text(destination.bytes@)),
{
    match destination.to_text() {
        Some(text) => Ok(text),
        None => Err(Error::InvalidFileName),
    }
}

/// What came of copying or reading: anything but success is a failed file operation.
pub fn io_outcome(done: bool) -> (r: Result<()>)
    ensures
        r == if done {
            Ok::<(), Error>(())
        } else {
            Err(Error::Io)
        },
{
    if done {
        Ok(())
    } else {
        Err(Error::Io)
    }
}

} // verus!

//! Files that the user chose.

use super::{keep_non_empty, Error, Result};
use crate::path;
use crate::path::{FilePath, PathStyle};
use crate::text;
use vstd::prelude::*;

verus! {

/// Where a chosen file is.
#[derive(Clone, Debug, PartialEq, Eq)]
pub enum PickedLocation {
    /// At a path. One that is ours is a temporary file that has to be cleaned up.
    Path { path: FilePath, owned_temp: bool },
    /// At a platform URI.
    Uri(String),
}

pub enum PickedLocationModel {
    Path { path: Seq<u8>, owned_temp: bool },
    Uri(Seq<char>),
}

impl View for PickedLocation {
    type V = PickedLocationModel;

    open spec fn view(&self) -> PickedLocationModel {
        match *self {
            PickedLocation::Path { path, owned_temp } => PickedLocationModel::Path {
                path: path.bytes@,
                owned_temp,
            },
            PickedLocation::Uri(uri) => PickedLocationModel::Uri(uri@),
        }
    }
}

/// A file that the user chose, with what the platform told about it.
#[derive(Clone, Debug, PartialEq, Eq)]
pub struct PickedFile {
    pub location: PickedLocation,
    pub display_name: Option<String>,
    pub mime_type: Option<String>,
    pub size: Option<u64>,
}

pub struct PickedModel {
    pub location: PickedLocationModel,
    pub display_name: Option<Seq<char>>,
    pub mime_type: Option<Seq<char>>,
    pub size: Option<u64>,
}

impl View for PickedFile {
    type V = PickedModel;

    open spec fn view(&self) -> PickedModel {
        PickedModel {
            location: self.location@,
            display_name: text::opt_text(self.display_name),
            mime_type: text::opt_text(self.mime_type),
            size: self.size,
        }
    }
}

/// The last segment of a URI's path, if it is not empty.
pub open spec fn uri_name(uri: Seq<char>) -> Option<Seq<char>> {
    super::non_empty(
        Some(
            text::after_last(text::without_trailing(text::before_first(uri, '?'), '/'), '/'),
        ),
    )
}

fn uri_file_name(uri: &String) -> (r: Option<String>)
    ensures
        text::opt_text(r) == uri_name(uri@),
{
    let resource = text::cut_before(uri.as_str(), '?');
    let trimmed = text::trim_trailing(resource.as_str(), '/');
    keep_non_empty(Some(text::cut_after(trimmed.as_str(), '/')))
}

impl PickedModel {
    /// A file of which only the place is known.
    pub open spec fn bare(location: PickedLocationModel) -> PickedModel {
        PickedModel { location, display_name: None, mime_type: None, size: None }
    }

    pub open spec fn path(self) -> Option<Seq<u8>> {
        match self.location {
            PickedLocationModel::Path { path, .. } => Some(path),
            PickedLocationModel::Uri(_) => None,
        }
    }

    pub open spec fn uri(self) -> Option<Seq<char>> {
        match self.location {
            PickedLocationModel::Path { .. } => None,
            PickedLocationModel::Uri(uri) => Some(uri),
        }
    }

    /// The file once it can be reached through a path: its own, or that of a copy of ours.
    pub open spec fn local(self, reached: Seq<u8>) -> LocalModel {
        LocalModel {
            path: reached,
            display_name: self.display_name,
            mime_type: self.mime_type,
            size: self.size,
            temporary: match self.location {
                PickedLocationModel::Path { owned_temp, .. } => owned_temp,
                PickedLocationModel::Uri(_) => true,
            },
        }
    }

    /// What the file is called: what the platform shows, or else what it is called where it is.
    pub open spec fn file_name(self, style: PathStyle) -> Option<Seq<char>> {
        match super::non_empty(self.display_name) {
            Some(name) => Some(name),
            None => match self.location {
                PickedLocationModel::Path { path, .. } => path::file_name_text(path, style),
                PickedLocationModel::Uri(uri) => uri_name(uri),
            },
        }
    }
}

impl PickedFile {
    /// A file at a path.
    pub fn from_path(path: FilePath) -> (r: PickedFile)
        ensures
            r@ == PickedModel::bare(
                PickedLocationModel::Path { path: path.bytes@, owned_temp: false },
            ),
    {
        PickedFile {
            location: PickedLocation::Path { path, owned_temp: false },
            display_name: None,
            mime_type: None,
            size: None,
        }
    }

    /// A temporary file of ours.
    pub fn from_owned_temp_path(path: FilePath) -> (r: PickedFile)
        ensures
            r@ == PickedModel::bare(
                PickedLocationModel::Path { path: path.bytes@, owned_temp: true },
            ),
    {
        PickedFile {
            location: PickedLocation::Path { path, owned_temp: true },
            display_name: None,
            mime_type: None,
            size: None,
        }
    }

    /// A file at a URI.
    pub fn from_uri(uri: String) -> (r: PickedFile)
        ensures
            r@ == PickedModel::bare(PickedLocationModel::Uri(uri@)),
    {
        PickedFile {
            location: PickedLocation::Uri(uri),
            display_name: None,
            mime_type: None,
            size: None,
        }
    }

    /// A file at a URI, with what the platform told about it. What is empty was not told.
    pub fn from_uri_with_metadata(
        uri: String,
        display_name: Option<String>,
        mime_type: Option<String>,
        size: Option<u64>,
    ) -> (r: PickedFile)
        ensures
            r@ == (PickedModel {
                location: PickedLocationModel::Uri(uri@),
                display_name: super::non_empty(text::opt_text(display_name)),
                mime_type: super::non_empty(text::opt_text(mime_type)),
                size,
            }),
    {
        PickedFile {
            location: PickedLocation::Uri(uri),
            display_name: keep_non_empty(display_name),
            mime_type: keep_non_empty(mime_type),
            size,
        }
    }

    /// The path, if the platform gave one.
    pub fn path(&self) -> (r: Option<&FilePath>)
        ensures
            match r {
                Some(path) => Some(path.bytes@),
                None => None,
            } == self@.path(),
    {
        match &self.location {
            PickedLocation::Path { path, .. } => Some(path),
            PickedLocation::Uri(_) => None,
        }
    }

    /// The URI, if the platform gave one.
    pub fn uri(&self) -> (r: Option<&String>)
        ensures
            match r {
                Some(uri) => Some(uri@),
                None => None,
            } == self@.uri(),
    {
        match &self.location {
            PickedLocation::Path { .. } => None,
            PickedLocation::Uri(uri) => Some(uri),
        }
    }

    /// The path, if the platform gave one.
    pub fn into_path(self) -> (r: Option<FilePath>)
        ensures
            path::opt_path(r) == self@.path(),
    {
        match self.location {
            PickedLocation::Path { path, .. } => Some(path),
            PickedLocation::Uri(_) => None,
        }
    }

    /// The URI, if the platform gave one.
    pub fn into_uri(self) -> (r: Option<String>)
        ensures
            text::opt_text(r) == self@.uri(),
    {
        match self.location {
            PickedLocation::Path { .. } => None,
            PickedLocation::Uri(uri) => Some(uri),
        }
    }

    /// What the platform shows as the file's name, if it told.
    pub fn display_name(&self) -> (r: Option<String>)
        ensures
            text::opt_text(r) == self@.display_name,
    {
        text::copy_opt(&self.display_name)
    }

    /// The MIME type, if the platform told.
    pub fn mime_type(&self) -> (r: Option<String>)
        ensures
            text::opt_text(r) == self@.mime_type,
    {
        text::copy_opt(&self.mime_type)
    }

    /// The size in bytes, if the platform told.
    pub fn size(&self) -> (r: Option<u64>)
        ensures
            r == self@.size,
    {
        self.size
    }

    /// What the file is called: what the platform shows, or else what it is called where it is.
    pub fn file_name(&self, style: PathStyle) -> (r: Option<String>)
        ensures
            text::opt_text(r) == self@.file_name(style),
    {
        match keep_non_empty(text::copy_opt(&self.display_name)) {
            Some(name) => Some(name),
            None => match &self.location {
                PickedLocation::Path { path, .. } => path.file_name(style),
                PickedLocation::Uri(uri) => uri_file_name(uri),
            },
        }
    }

    /// How the file can be reached through a path: at once, or by copying it.
    pub fn into_local_file(self, pid: u32, now_nanos: u128) -> (r: LocalStep)
        ensures
            match self@.location {
                PickedLocationModel::Path { path, .. } => r matches LocalStep::Ready(file)
                    && file@ == self@.local(path),
                PickedLocationModel::Uri(uri) => r matches LocalStep::Copy(request)
                    && request.uri@ == uri && request.directory_name@ == directory_name_text(
                    pid,
                    now_nanos,
                ) && request.file_name@ == copy_name(self@.display_name, uri) && (forall|
                    reached: Seq<u8>,
                | #[trigger]
                    request.local(reached) == self@.local(reached)),
            },
    {
        match self.location {
            PickedLocation::Path { path, owned_temp } => LocalStep::Ready(
                LocalFile {
                    path,
                    display_name: self.display_name,
                    mime_type: self.mime_type,
                    size: self.size,
                    temporary: owned_temp,
                },
            ),
            PickedLocation::Uri(uri) => {
                let file_name = match keep_non_empty(text::copy_opt(&self.display_name)) {
                    Some(name) => name,
                    None => match uri_file_name(&uri) {
                        Some(name) => name,
                        None => "attachment".to_owned(),
                    },
                };
                LocalStep::Copy(
                    CopyRequest {
                        uri,
                        directory_name: directory_name(pid, now_nanos),
                        file_name,
                        display_name: self.display_name,
                        mime_type: self.mime_type,
                        size: self.size,
                    },
                )
            },
        }
    }
}

/// What a copy of the file at a URI is called: what the platform shows, or else what it is called
/// there, or else a stand-in.
pub open spec fn copy_name(display_name: Option<Seq<char>>, uri: Seq<char>) -> Seq<char> {
    match super::non_empty(display_name) {
        Some(name) => name,
        None => match uri_name(uri) {
            Some(name) => name,
            None => "attachment"@,
        },
    }
}

/// The name of a directory for temporary files, unlike any other of the process.
pub open spec fn directory_name_text(pid: u32, now_nanos: u128) -> Seq<char> {
    "robius-file-picker-"@ + text::decimal_text(pid as nat) + "-"@ + text::decimal_text(
        now_nanos as nat,
    )
}

/// The name of a directory for temporary files, unlike any other of the process.
pub fn directory_name(pid: u32, now_nanos: u128) -> (r: String)
    ensures
        r@ == directory_name_text(pid, now_nanos),
{
    let mut name = "robius-file-picker-".to_owned();
    name.append(text::decimal(pid as u64).as_str());
    name.append("-");
    name.append(text::decimal_wide(now_nanos).as_str());
    name
}

/// Directories made at different times have different names.
pub proof fn directory_names_are_unique(pid: u32, first: u128, second: u128)
    requires
        first != second,
    ensures
        directory_name_text(pid, first) != directory_name_text(pid, second),
{
    let start = "robius-file-picker-"@ + text::decimal_text(pid as nat) + "-"@;
    let left = text::decimal_text(first as nat);
    let right = text::decimal_text(second as nat);
    if start + left == start + right {
        assert((start + left).subrange(start.len() as int, (start + left).len() as int) == left);
        assert((start + right).subrange(start.len() as int, (start + right).len() as int)
            == right);
        text::decimal_text_is_injective(first as nat, second as nat);
    }
}

/// How a file can be reached through a path.
#[derive(Debug)]
pub enum LocalStep {
    Ready(LocalFile),
    /// Copy it to a file of this name, in a new directory.
    Copy(CopyRequest),
}

#[derive(Debug)]
pub struct CopyRequest {
    pub uri: String,
    pub directory_name: String,
    pub file_name: String,
    pub display_name: Option<String>,
    pub mime_type: Option<String>,
    pub size: Option<u64>,
}

impl CopyRequest {
    /// The file, once it is copied to a path.
    pub open spec fn local(self, reached: Seq<u8>) -> LocalModel {
        LocalModel {
            path: reached,
            display_name: text::opt_text(self.display_name),
            mime_type: text::opt_text(self.mime_type),
            size: self.size,
            temporary: true,
        }
    }

    /// The file, once it is copied to a path.
    pub fn copied(self, path: FilePath) -> (r: LocalFile)
        ensures
            r@ == self.local(path.bytes@),
    {
        LocalFile {
            path,
            display_name: self.display_name,
            mime_type: self.mime_type,
            size: self.size,
            temporary: true,
        }
    }
}

/// A file that can be reached through a path.
#[derive(Debug)]
pub struct LocalFile {
    path: FilePath,
    display_name: Option<String>,
    mime_type: Option<String>,
    size: Option<u64>,
    /// The file is a temporary one of ours, to be removed once it is not needed any more.
    temporary: bool,
}

pub struct LocalModel {
    pub path: Seq<u8>,
    pub display_name: Option<Seq<char>>,
    pub mime_type: Option<Seq<char>>,
    pub size: Option<u64>,
    pub temporary: bool,
}

impl LocalModel {
    /// What is removed with the last clone of the file.
    pub open spec fn removed(self) -> Option<Seq<u8>> {
        if self.temporary {
            Some(self.path)
        } else {
            None
        }
    }
}

/// The file goes away with the last clone of it exactly if it is a temporary one: a copy of what a
/// URI stands for, or a file that was temporary when it was chosen. A path that the user chose is
/// never removed.
pub proof fn only_temporary_files_are_removed(file: PickedModel, reached: Seq<u8>)
    ensures
        ({
            let local = file.local(reached);
            &&& local.temporary <==> file.location is Uri || file.location->owned_temp
            &&& local.removed() == if local.temporary {
                Some(local.path)
            } else {
                None
            }
            &&& (file.location matches PickedLocationModel::Path { owned_temp, .. } && !owned_temp)
                ==> local.removed() is None
        }),
{
}

impl View for LocalFile {
    type V = LocalModel;

    closed spec fn view(&self) -> LocalModel {
        LocalModel {
            path: self.path.bytes@,
            display_name: text::opt_text(self.display_name),
            mime_type: text::opt_text(self.mime_type),
            size: self.size,
            temporary: self.temporary,
        }
    }
}

impl LocalFile {
    pub fn path(&self) -> (r: &FilePath)
        ensures
            r.bytes@ == self@.path,
    {
        &self.path
    }

    /// What the platform shows as the file's name, if it told.
    pub fn display_name(&self) -> (r: Option<String>)
        ensures
            text::opt_text(r) == self@.display_name,
    {
        text::copy_opt(&self.display_name)
    }

    /// The MIME type, if the platform told.
    pub fn mime_type(&self) -> (r: Option<String>)
        ensures
            text::opt_text(r) == self@.mime_type,
    {
        text::copy_opt(&self.mime_type)
    }

    /// The size in bytes, if the platform told.
    pub fn size(&self) -> (r: Option<u64>)
        ensures
            r == self@.size,
    {
        self.size
    }

    /// Whether this is a temporary file, to be removed once it is not needed any more.
    pub fn is_temporary(&self) -> (r: bool)
        ensures
            r == self@.temporary,
    {
        self.temporary
    }

    /// What has to be removed with the last clone of this file: the file itself where it is a
    /// temporary one, and then its directory if nothing else is in it.
    pub fn to_remove(&self) -> (r: Option<&FilePath>)
        ensures
            match r {
                Some(path) => Some(path.bytes@),
                None => None,
            } == self@.removed(),
    {
        if self.temporary {
            Some(&self.path)
        } else {
            None
        }
    }
}

/// How the contents of a file can be read.
#[derive(Clone, Copy, Debug, PartialEq, Eq, Structural)]
pub enum ReadStep {
    FromPath,
    FromUri,
}

/// How the contents of a file can be read. Only some platforms can read URIs.
pub fn read_step(file: &PickedFile, reads_uris: bool) -> (r: Result<ReadStep>)
    ensures
        r == if file@.path() is Some {
            Ok::<ReadStep, Error>(ReadStep::FromPath)
        } else if reads_uris {
            Ok(ReadStep::FromUri)
        } else {
            Err(Error::Unsupported)
        },
{
    match &file.location {
        PickedLocation::Path { .. } => Ok(ReadStep::FromPath),
        PickedLocation::Uri(_) => if reads_uris {
            Ok(ReadStep::FromUri)
        } else {
            Err(Error::Unsupported)
        },
    }
}

} // verus!

//! Where a file-like item is.

use crate::path;
use crate::path::FilePath;
use crate::text;
use vstd::prelude::*;

verus! {

/// The platform-specific location of a file-like item. Most platforms give paths; some give URIs
/// instead.
#[derive(Clone, Debug, PartialEq, Eq)]
pub enum FileLocation {
    /// A path in the file system.
    Path(FilePath),
    /// A platform URI.
    Uri(String),
}

pub enum LocationModel {
    Path(Seq<u8>),
    Uri(Seq<char>),
}

impl View for FileLocation {
    type V = LocationModel;

    open spec fn view(&self) -> LocationModel {
        match *self {
            FileLocation::Path(path) => LocationModel::Path(path.bytes@),
            FileLocation::Uri(uri) => LocationModel::Uri(uri@),
        }
    }
}

impl LocationModel {
    pub open spec fn path(self) -> Option<Seq<u8>> {
        match self {
            LocationModel::Path(path) => Some(path),
            LocationModel::Uri(_) => None,
        }
    }

    pub open spec fn uri(self) -> Option<Seq<char>> {
        match self {
            LocationModel::Path(_) => None,
            LocationModel::Uri(uri) => Some(uri),
        }
    }
}

/// A location is a path or a URI, and is told as the one that it is.
pub proof fn locations_are_paths_or_uris(path: Seq<u8>, uri: Seq<char>)
    ensures
        LocationModel::Path(path).path() == Some(path),
        LocationModel::Path(path).uri() is None,
        LocationModel::Uri(uri).uri() == Some(uri),
        LocationModel::Uri(uri).path() is None,
{
}

impl FileLocation {
    /// The location that a path gives.
    pub fn from_path(path: &FilePath) -> (r: FileLocation)
        ensures
            r@ == LocationModel::Path(path.bytes@),
    {
        FileLocation::Path(path.copy())
    }

    /// The location that a URI gives.
    pub fn from_uri(uri: &str) -> (r: FileLocation)
        ensures
            r@ == LocationModel::Uri(uri@),
    {
        FileLocation::Uri(uri.to_owned())
    }

    /// The path, if this is one.
    pub fn path(&self) -> (r: Option<&FilePath>)
        ensures
            match r {
                Some(path) => Some(path.bytes@),
                None => None,
            } == self@.path(),
    {
        match self {
            FileLocation::Path(path) => Some(path),
            FileLocation::Uri(_) => None,
        }
    }

    /// The URI, if this is one.
    pub fn uri(&self) -> (r: Option<&String>)
        ensures
            match r {
                Some(uri) => Some(uri@),
                None => None,
            } == self@.uri(),
    {
        match self {
            FileLocation::Path(_) => None,
            FileLocation::Uri(uri) => Some(uri),
        }
    }

    /// The path, if this is one.
    pub fn into_path(self) -> (r: Option<FilePath>)
        ensures
            path::opt_path(r) == self@.path(),
    {
        match self {
            FileLocation::Path(path) => Some(path),
            FileLocation::Uri(_) => None,
        }
    }

    /// The URI, if this is one.
    pub fn into_uri(self) -> (r: Option<String>)
        ensures
            text::opt_text(r) == self@.uri(),
    {
        match self {
            FileLocation::Path(_) => None,
            FileLocation::Uri(uri) => Some(uri),
        }
    }
}

/// A location is a path or a URI, never both and never neither.
pub proof fn locations_are_one_of_two(location: LocationModel)
    ensures
        location.path() is Some <==> location.uri() is None,
{
}

} // verus!

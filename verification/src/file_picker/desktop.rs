//! File dialogs on desktop systems.

use super::mime;
use super::{
    media_filters, DialogModel, DialogOptions, Error, FileFilter, MediaKind, Result,
    StartLocation,
};
use crate::path;
use crate::path::{FilePath, PathStyle};
use crate::text;
use vstd::prelude::*;
use vstd::utf8::*;

verus! {

/// The user's well-known directories, as far as the system has them.
#[derive(Debug)]
pub struct UserDirectories {
    pub desktop: Option<FilePath>,
    pub documents: Option<FilePath>,
    pub downloads: Option<FilePath>,
    pub pictures: Option<FilePath>,
    pub music: Option<FilePath>,
    pub videos: Option<FilePath>,
}

impl UserDirectories {
    /// The directory of a well-known location.
    pub open spec fn directory(self, location: StartLocation) -> Option<Seq<u8>> {
        match location {
            StartLocation::Desktop => path::opt_path(self.desktop),
            StartLocation::Documents => path::opt_path(self.documents),
            StartLocation::Downloads => path::opt_path(self.downloads),
            StartLocation::Pictures => path::opt_path(self.pictures),
            StartLocation::Music => path::opt_path(self.music),
            StartLocation::Videos => path::opt_path(self.videos),
        }
    }

    /// The directory of a well-known location.
    pub fn resolve_start_location(&self, location: StartLocation) -> (r: Option<FilePath>)
        ensures
            path::opt_path(r) == self.directory(location),
    {
        match location {
            StartLocation::Desktop => path::copy_opt_path(&self.desktop),
            StartLocation::Documents => path::copy_opt_path(&self.documents),
            StartLocation::Downloads => path::copy_opt_path(&self.downloads),
            StartLocation::Pictures => path::copy_opt_path(&self.pictures),
            StartLocation::Music => path::copy_opt_path(&self.music),
            StartLocation::Videos => path::copy_opt_path(&self.videos),
        }
    }
}

/// A dialog as the system shows it.
#[derive(Debug)]
pub struct DialogPlan {
    pub filters: Vec<FileFilter>,
    pub directory: Option<FilePath>,
    pub file_name: Option<String>,
    pub title: Option<String>,
}

#[verifier::ext_equal]
pub struct PlanModel {
    pub filters: Seq<super::FilterModel>,
    pub directory: Option<Seq<u8>>,
    pub file_name: Option<Seq<char>>,
    pub title: Option<Seq<char>>,
}

impl View for DialogPlan {
    type V = PlanModel;

    open spec fn view(&self) -> PlanModel {
        PlanModel {
            filters: super::filter_models(self.filters@),
            directory: path::opt_path(self.directory),
            file_name: text::opt_text(self.file_name),
            title: text::opt_text(self.title),
        }
    }
}

/// Where a dialog starts: in the directory that was set, or else at the well-known location.
pub open spec fn initial_directory(options: DialogModel, directories: UserDirectories) -> Option<
    Seq<u8>,
> {
    match options.directory {
        Some(directory) => Some(directory),
        None => match options.start_location {
            Some(location) => directories.directory(location),
            None => None,
        },
    }
}

/// A filter as the system takes it: with extensions that do not begin with a dot.
pub open spec fn bare_filter(filter: super::FilterModel) -> super::FilterModel {
    super::FilterModel {
        name: filter.name,
        extensions: filter.extensions.map_values(|extension: Seq<char>| mime::bare(extension)),
    }
}

pub open spec fn bare_filters(filters: Seq<super::FilterModel>) -> Seq<super::FilterModel> {
    filters.map_values(|filter: super::FilterModel| bare_filter(filter))
}

fn native_filter(filter: &FileFilter) -> (r: FileFilter)
    ensures
        r@ == bare_filter(filter@),
{
    let mut extensions: Vec<String> = Vec::new();
    for i in 0..filter.extensions.len()
        invariant
            extensions@.len() == i,
            forall|k: int|
                0 <= k < i ==> (#[trigger] extensions@[k])@ == mime::bare(filter.extensions@[k]@),
    {
        extensions.push(text::trim_leading(filter.extensions[i].as_str(), '.'));
    }
    assert(text::texts(extensions@) =~= bare_filter(filter@).extensions);
    FileFilter { name: filter.name.clone(), extensions }
}

fn native_filters(filters: &Vec<FileFilter>) -> (r: Vec<FileFilter>)
    ensures
        super::filter_models(r@) == bare_filters(super::filter_models(filters@)),
{
    let mut natives: Vec<FileFilter> = Vec::new();
    for i in 0..filters.len()
        invariant
            natives@.len() == i,
            forall|k: int| 0 <= k < i ==> (#[trigger] natives@[k])@ == bare_filter(filters@[k]@),
    {
        natives.push(native_filter(&filters[i]));
    }
    assert(super::filter_models(natives@) =~= bare_filters(super::filter_models(filters@)));
    natives
}

/// A dialog as the system shows it.
pub open spec fn plan_of(options: DialogModel, directories: UserDirectories) -> PlanModel {
    PlanModel {
        filters: bare_filters(options.filters),
        directory: initial_directory(options, directories),
        file_name: options.file_name,
        title: options.title,
    }
}

/// A dialog as the system shows it.
pub fn dialog(options: &DialogOptions, directories: &UserDirectories) -> (r: DialogPlan)
    ensures
        r@ == plan_of(options@, *directories),
{
    DialogPlan {
        filters: native_filters(&options.filters),
        directory: match &options.directory {
            Some(directory) => Some(directory.copy()),
            None => match options.start_location {
                Some(location) => directories.resolve_start_location(location),
                None => None,
            },
        },
        file_name: text::copy_opt(&options.file_name),
        title: text::copy_opt(&options.title),
    }
}

/// A dialog for media as the system shows it. Without filters of its own it has the usual ones.
pub fn media_dialog(options: &DialogOptions, directories: &UserDirectories, kind: MediaKind) -> (r:
    DialogPlan)
    ensures
        r@ == (PlanModel {
            filters: if options@.filters.len() == 0 {
                super::default_filters(kind)
            } else {
                bare_filters(options@.filters)
            },
            ..plan_of(options@, *directories)
        }),
{
    let plan = dialog(options, directories);
    if options.filters.len() == 0 {
        DialogPlan { filters: media_filters(kind), ..plan }
    } else {
        plan
    }
}

/// The stem of a file name; a stand-in where there is none.
pub open spec fn stem_or_untitled(name: Seq<char>, style: PathStyle) -> Seq<char> {
    match super::non_empty(path::stem_text(encode_utf8(name), style)) {
        Some(stem) => stem,
        None => "Untitled"@,
    }
}

/// What follows the number in a file name.
pub open spec fn dot_extension(name: Seq<char>, style: PathStyle) -> Seq<char> {
    match path::extension_text(encode_utf8(name), style) {
        Some(extension) => "."@ + extension,
        None => Seq::empty(),
    }
}

/// The name that is tried after so many others were taken: the name itself, and then with a number.
pub open spec fn candidate_text(name: Seq<char>, taken: u64, style: PathStyle) -> Seq<char> {
    if taken == 0 {
        name
    } else {
        stem_or_untitled(name, style) + " ("@ + text::decimal_text(taken as nat) + ")"@ + dot_extension(name, style)
    }
}

/// The name that is tried after so many others were taken: the name itself, and then with a number.
pub fn candidate_name(name: &str, taken: u64, style: PathStyle) -> (r: String)
    ensures
        r@ == candidate_text(name@, taken, style),
{
    if taken == 0 {
        return name.to_owned();
    }
    let path = FilePath::from_text(name);
    let mut candidate = match super::keep_non_empty(path.file_stem(style)) {
        Some(stem) => stem,
        None => "Untitled".to_owned(),
    };
    candidate.append(" (");
    candidate.append(text::decimal(taken).as_str());
    candidate.append(")");
    if let Some(extension) = path.extension(style) {
        candidate.append(".");
        candidate.append(extension.as_str());
    }
    assert(candidate@ == candidate_text(name@, taken, style));
    candidate
}

/// No name is tried twice, so a free one is found.
pub proof fn candidates_differ(name: Seq<char>, first: u64, second: u64, style: PathStyle)
    requires
        0 < first,
        0 < second,
        first != second,
    ensures
        candidate_text(name, first, style) != candidate_text(name, second, style),
{
    let start = stem_or_untitled(name, style) + " ("@;
    let end = ")"@ + dot_extension(name, style);
    let left = text::decimal_text(first as nat);
    let right = text::decimal_text(second as nat);
    assert(candidate_text(name, first, style) == start + left + end);
    assert(candidate_text(name, second, style) == start + right + end);
    if start + left + end == start + right + end {
        let one = start + left + end;
        let other = start + right + end;
        assert(one.subrange(start.len() as int, one.len() - end.len()) == left);
        assert(other.subrange(start.len() as int, other.len() - end.len()) == right);
        text::decimal_text_is_injective(first as nat, second as nat);
    }
}

/// A file that is saved where downloads go: the directory, and the name that is tried first.
#[derive(Debug)]
pub struct DownloadPlan {
    pub directory: FilePath,
    pub file_name: String,
}

/// Where a file is saved. There has to be a directory for downloads.
pub fn download_plan(
    options: &DialogOptions,
    source: &FilePath,
    directories: &UserDirectories,
    style: PathStyle,
) -> (r: Result<DownloadPlan>)
    ensures
        match (directories.directory(StartLocation::Downloads), options@.output_name(source.bytes@, style)) {
            (None, _) => r == Err::<DownloadPlan, Error>(Error::Unsupported),
            (Some(_), None) => r == Err::<DownloadPlan, Error>(Error::InvalidFileName),
            (Some(directory), Some(name)) => r matches Ok(plan) && plan.directory.bytes@
                == directory && plan.file_name@ == name,
        },
{
    let directory = match directories.resolve_start_location(StartLocation::Downloads) {
        Some(directory) => directory,
        None => {
            return Err(Error::Unsupported);
        },
    };
    match options.output_file_name(source, style) {
        Ok(file_name) => Ok(DownloadPlan { directory, file_name }),
        Err(error) => Err(error),
    }
}

/// Whether a file has to be copied to get where it should be.
pub fn needs_copy(source: &FilePath, destination: &FilePath, style: PathStyle) -> (r: bool)
    ensures
        r == !path::same_way(source.bytes@, destination.bytes@, style),
{
    !source.same_path(destination, style)
}

} // verus!

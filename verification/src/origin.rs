//! Where a resolved package comes from, and what follows from that alone.

use crate::text::text_of;
use vstd::prelude::*;

verus! {

/// The revision of a repository that a user asked for.
#[derive(Debug, Clone, PartialEq, Eq)]
pub enum VcsReference {
    Branch(String),
    Tag(String),
    Commit(String),
    /// The repository's default branch: a reference without a text of its own.
    DefaultBranch,
}

/// The model of a `VcsReference`.
pub enum VcsReferenceView {
    Branch(Seq<char>),
    Tag(Seq<char>),
    Commit(Seq<char>),
    DefaultBranch,
}

impl View for VcsReference {
    type V = VcsReferenceView;

    open spec fn view(&self) -> VcsReferenceView {
        match self {
            VcsReference::Branch(name) => VcsReferenceView::Branch(name@),
            VcsReference::Tag(name) => VcsReferenceView::Tag(name@),
            VcsReference::Commit(name) => VcsReferenceView::Commit(name@),
            VcsReference::DefaultBranch => VcsReferenceView::DefaultBranch,
        }
    }
}

impl VcsReferenceView {
    /// The reference as text, where it has one.
    pub open spec fn text(self) -> Option<Seq<char>> {
        match self {
            VcsReferenceView::Branch(name) => Some(name),
            VcsReferenceView::Tag(name) => Some(name),
            VcsReferenceView::Commit(name) => Some(name),
            VcsReferenceView::DefaultBranch => None,
        }
    }
}

impl VcsReference {
    /// The reference as text, where it has one.
    pub fn as_str(&self) -> (text: Option<&String>)
        ensures
            crate::text::text_of_ref(text) == self@.text(),
    {
        match self {
            VcsReference::Branch(name) => Some(name),
            VcsReference::Tag(name) => Some(name),
            VcsReference::Commit(name) => Some(name),
            VcsReference::DefaultBranch => None,
        }
    }
}

/// The one distribution that a resolved package is tied to. The variants
/// exclude each other and are all there are.
#[derive(Debug, Clone, PartialEq, Eq)]
pub enum DistributionOrigin {
    /// A wheel from a package index.
    RegistryBuilt { index: String },
    /// A source distribution from a package index.
    RegistrySource { index: String },
    /// A wheel at an archive URL.
    DirectUrlBuilt { location: String },
    /// A source archive at a URL.
    DirectUrlSource { location: String, subdirectory: Option<String> },
    /// A wheel file on this machine.
    LocalPathBuilt { install_path: String },
    /// A source archive file on this machine.
    LocalPathSource { install_path: String },
    /// A project directory on this machine.
    LocalDirectorySource { install_path: String, subdirectory: Option<String>, editable: bool },
    /// A checkout of a repository. `reference` is what the user asked for,
    /// `resolved_commit` the commit that it was resolved to, once it was.
    VcsSource {
        repository_url: String,
        reference: Option<VcsReference>,
        resolved_commit: Option<Vec<u8>>,
        subdirectory: Option<String>,
    },
    /// Already installed, from an index.
    InstalledRegistry { path: String },
    /// Already installed, from a URL.
    InstalledUrl { url: String },
    /// Already installed, recorded in an `.egg-info` file.
    InstalledEggInfoFile { path: String },
    /// Already installed, recorded in an `.egg-info` directory.
    InstalledEggInfoDirectory { path: String },
    /// Already installed as a legacy editable.
    InstalledLegacyEditable { target_url: String },
}

/// The model of a `DistributionOrigin`.
pub enum OriginView {
    RegistryBuilt { index: Seq<char> },
    RegistrySource { index: Seq<char> },
    DirectUrlBuilt { location: Seq<char> },
    DirectUrlSource { location: Seq<char>, subdirectory: Option<Seq<char>> },
    LocalPathBuilt { install_path: Seq<char> },
    LocalPathSource { install_path: Seq<char> },
    LocalDirectorySource { install_path: Seq<char>, subdirectory: Option<Seq<char>>, editable: bool },
    VcsSource {
        repository_url: Seq<char>,
        reference: Option<VcsReferenceView>,
        resolved_commit: Option<Seq<u8>>,
        subdirectory: Option<Seq<char>>,
    },
    InstalledRegistry { path: Seq<char> },
    InstalledUrl { url: Seq<char> },
    InstalledEggInfoFile { path: Seq<char> },
    InstalledEggInfoDirectory { path: Seq<char> },
    InstalledLegacyEditable { target_url: Seq<char> },
}

impl View for DistributionOrigin {
    type V = OriginView;

    open spec fn view(&self) -> OriginView {
        match self {
            DistributionOrigin::RegistryBuilt { index } => OriginView::RegistryBuilt {
                index: index@,
            },
            DistributionOrigin::RegistrySource { index } => OriginView::RegistrySource {
                index: index@,
            },
            DistributionOrigin::DirectUrlBuilt { location } => OriginView::DirectUrlBuilt {
                location: location@,
            },
            DistributionOrigin::DirectUrlSource {
                location,
                subdirectory,
            } => OriginView::DirectUrlSource {
                location: location@,
                subdirectory: text_of(*subdirectory),
            },
            DistributionOrigin::LocalPathBuilt { install_path } => OriginView::LocalPathBuilt {
                install_path: install_path@,
            },
            DistributionOrigin::LocalPathSource { install_path } => OriginView::LocalPathSource {
                install_path: install_path@,
            },
            DistributionOrigin::LocalDirectorySource {
                install_path,
                subdirectory,
                editable,
            } => OriginView::LocalDirectorySource {
                install_path: install_path@,
                subdirectory: text_of(*subdirectory),
                editable: *editable,
            },
            DistributionOrigin::VcsSource {
                repository_url,
                reference,
                resolved_commit,
                subdirectory,
            } => OriginView::VcsSource {
                repository_url: repository_url@,
                reference: match reference {
                    Some(reference) => Some(reference@),
                    None => None,
                },
                resolved_commit: match resolved_commit {
                    Some(commit) => Some(commit@),
                    None => None,
                },
                subdirectory: text_of(*subdirectory),
            },
            DistributionOrigin::InstalledRegistry { path } => OriginView::InstalledRegistry {
                path: path@,
            },
            DistributionOrigin::InstalledUrl { url } => OriginView::InstalledUrl { url: url@ },
            DistributionOrigin::InstalledEggInfoFile { path } => OriginView::InstalledEggInfoFile {
                path: path@,
            },
            DistributionOrigin::InstalledEggInfoDirectory {
                path,
            } => OriginView::InstalledEggInfoDirectory { path: path@ },
            DistributionOrigin::InstalledLegacyEditable {
                target_url,
            } => OriginView::InstalledLegacyEditable { target_url: target_url@ },
        }
    }
}

/// Where an origin lies: at a URL that it holds, or at a path on this machine.
#[derive(Debug, Clone, Copy, PartialEq, Eq)]
pub enum Location<'a> {
    Url(&'a String),
    Path(&'a String),
}

/// The model of a `Location`.
pub enum LocationView {
    Url(Seq<char>),
    Path(Seq<char>),
}

impl<'a> View for Location<'a> {
    type V = LocationView;

    open spec fn view(&self) -> LocationView {
        match self {
            Location::Url(url) => LocationView::Url(url@),
            Location::Path(path) => LocationView::Path(path@),
        }
    }
}

impl OriginView {
    /// Whether the distribution is to be fetched from a package index.
    pub open spec fn is_registry(self) -> bool {
        self is RegistryBuilt || self is RegistrySource
    }

    /// Whether the package was obtained otherwise than by looking a version up
    /// in an index.
    pub open spec fn is_direct(self) -> bool {
        !(self is RegistryBuilt || self is RegistrySource || self is InstalledRegistry)
    }

    /// Whether the package is installed editable.
    pub open spec fn is_editable(self) -> bool {
        match self {
            OriginView::LocalDirectorySource { editable, .. } => editable,
            OriginView::InstalledLegacyEditable { .. } => true,
            _ => false,
        }
    }

    /// The index that the distribution comes from, for the two registry
    /// variants.
    pub open spec fn index(self) -> Option<Seq<char>> {
        match self {
            OriginView::RegistryBuilt { index } => Some(index),
            OriginView::RegistrySource { index } => Some(index),
            _ => None,
        }
    }

    /// The URL or path that the origin holds.
    pub open spec fn location(self) -> LocationView {
        match self {
            OriginView::RegistryBuilt { index } => LocationView::Url(index),
            OriginView::RegistrySource { index } => LocationView::Url(index),
            OriginView::DirectUrlBuilt { location } => LocationView::Url(location),
            OriginView::DirectUrlSource { location, .. } => LocationView::Url(location),
            OriginView::LocalPathBuilt { install_path } => LocationView::Path(install_path),
            OriginView::LocalPathSource { install_path } => LocationView::Path(install_path),
            OriginView::LocalDirectorySource { install_path, .. } => LocationView::Path(
                install_path,
            ),
            OriginView::VcsSource { repository_url, .. } => LocationView::Url(repository_url),
            OriginView::InstalledRegistry { path } => LocationView::Path(path),
            OriginView::InstalledUrl { url } => LocationView::Url(url),
            OriginView::InstalledEggInfoFile { path } => LocationView::Path(path),
            OriginView::InstalledEggInfoDirectory { path } => LocationView::Path(path),
            OriginView::InstalledLegacyEditable { target_url } => LocationView::Url(target_url),
        }
    }

    /// The subdirectory of the archive or repository in which the project
    /// lies, for the origins that are an archive or a repository.
    pub open spec fn subdirectory(self) -> Option<Seq<char>> {
        match self {
            OriginView::DirectUrlSource { subdirectory, .. } => subdirectory,
            OriginView::VcsSource { subdirectory, .. } => subdirectory,
            _ => None,
        }
    }
}

/// A local path that has no `file://` URL.
#[derive(Debug, Clone, PartialEq, Eq)]
pub struct PathConversionError {
    pub path: String,
}

/// A canonical URL, or the path that could not be turned into one.
pub type UrlOutcome = Result<Seq<char>, Seq<char>>;

/// The model of a canonical URL as the functions of this module return it.
pub open spec fn url_outcome(result: Result<String, PathConversionError>) -> UrlOutcome {
    match result {
        Ok(url) => Ok(url@),
        Err(error) => Err(error.path@),
    }
}

/// The text of the URL that `url::Url::from_file_path` makes of a path, if
/// it makes one.
pub uninterp spec fn file_url_text(path: Seq<char>) -> Option<Seq<char>>;

/// `url::Url::from_file_path`, with the URL as text: the `file://` URL of an
/// absolute path, and nothing where the path has no such URL.
#[verifier::external_body]
fn file_url(path: &String) -> (url: Option<String>)
    ensures
        text_of(url) == file_url_text(path@),
{
    match url::Url::from_file_path(path) {
        Ok(url) => Some(String::from(url)),
        Err(()) => None,
    }
}

/// The canonical URL of an origin, given the `file://` URL that was made of
/// its path: the URL that the origin holds, or else that `file://` URL. An
/// origin at a path of which no URL was made has none.
pub open spec fn located(origin: OriginView, converted: Option<Seq<char>>) -> UrlOutcome {
    match origin.location() {
        LocationView::Url(url) => Ok(url),
        LocationView::Path(path) => match converted {
            Some(url) => Ok(url),
            None => Err(path),
        },
    }
}

/// The canonical URL of an origin: for a registry the index, for an archive
/// its URL, for a repository the repository's URL, and for a local file or
/// directory the `file://` URL of its path.
pub open spec fn canonical_url(origin: OriginView) -> UrlOutcome {
    match origin.location() {
        LocationView::Url(url) => Ok(url),
        LocationView::Path(path) => located(origin, file_url_text(path)),
    }
}

/// What an origin says of a package by itself.
#[derive(Debug, PartialEq, Eq)]
pub struct Classification {
    pub is_direct: bool,
    pub is_editable: bool,
    pub canonical_url: Result<String, PathConversionError>,
    pub index: Option<String>,
}

impl DistributionOrigin {
    /// Whether the distribution is to be fetched from a package index.
    pub fn is_registry(&self) -> (registry: bool)
        ensures
            registry == self@.is_registry(),
    {
        match self {
            DistributionOrigin::RegistryBuilt { .. } => true,
            DistributionOrigin::RegistrySource { .. } => true,
            DistributionOrigin::DirectUrlBuilt { .. } => false,
            DistributionOrigin::DirectUrlSource { .. } => false,
            DistributionOrigin::LocalPathBuilt { .. } => false,
            DistributionOrigin::LocalPathSource { .. } => false,
            DistributionOrigin::LocalDirectorySource { .. } => false,
            DistributionOrigin::VcsSource { .. } => false,
            DistributionOrigin::InstalledRegistry { .. } => false,
            DistributionOrigin::InstalledUrl { .. } => false,
            DistributionOrigin::InstalledEggInfoFile { .. } => false,
            DistributionOrigin::InstalledEggInfoDirectory { .. } => false,
            DistributionOrigin::InstalledLegacyEditable { .. } => false,
        }
    }

    /// Whether the package was obtained otherwise than by looking a version up
    /// in an index: false for the two registry variants and for a package
    /// installed from an index, true for every other origin.
    pub fn is_direct(&self) -> (direct: bool)
        ensures
            direct == self@.is_direct(),
            !direct <==> (self is RegistryBuilt || self is RegistrySource
                || self is InstalledRegistry),
    {
        match self {
            DistributionOrigin::RegistryBuilt { .. } => false,
            DistributionOrigin::RegistrySource { .. } => false,
            DistributionOrigin::DirectUrlBuilt { .. } => true,
            DistributionOrigin::DirectUrlSource { .. } => true,
            DistributionOrigin::LocalPathBuilt { .. } => true,
            DistributionOrigin::LocalPathSource { .. } => true,
            DistributionOrigin::LocalDirectorySource { .. } => true,
            DistributionOrigin::VcsSource { .. } => true,
            DistributionOrigin::InstalledRegistry { .. } => false,
            DistributionOrigin::InstalledUrl { .. } => true,
            DistributionOrigin::InstalledEggInfoFile { .. } => true,
            DistributionOrigin::InstalledEggInfoDirectory { .. } => true,
            DistributionOrigin::InstalledLegacyEditable { .. } => true,
        }
    }

    /// Whether the package is installed editable: a project directory that
    /// says so, or a legacy editable.
    pub fn is_editable(&self) -> (editable: bool)
        ensures
            editable == self@.is_editable(),
    {
        match self {
            DistributionOrigin::RegistryBuilt { .. } => false,
            DistributionOrigin::RegistrySource { .. } => false,
            DistributionOrigin::DirectUrlBuilt { .. } => false,
            DistributionOrigin::DirectUrlSource { .. } => false,
            DistributionOrigin::LocalPathBuilt { .. } => false,
            DistributionOrigin::LocalPathSource { .. } => false,
            DistributionOrigin::LocalDirectorySource { editable, .. } => *editable,
            DistributionOrigin::VcsSource { .. } => false,
            DistributionOrigin::InstalledRegistry { .. } => false,
            DistributionOrigin::InstalledUrl { .. } => false,
            DistributionOrigin::InstalledEggInfoFile { .. } => false,
            DistributionOrigin::InstalledEggInfoDirectory { .. } => false,
            DistributionOrigin::InstalledLegacyEditable { .. } => true,
        }
    }

    /// The index that the distribution comes from, if it comes from one.
    pub fn index(&self) -> (index: Option<&String>)
        ensures
            crate::text::text_of_ref(index) == self@.index(),
    {
        match self {
            DistributionOrigin::RegistryBuilt { index } => Some(index),
            DistributionOrigin::RegistrySource { index } => Some(index),
            DistributionOrigin::DirectUrlBuilt { .. } => None,
            DistributionOrigin::DirectUrlSource { .. } => None,
            DistributionOrigin::LocalPathBuilt { .. } => None,
            DistributionOrigin::LocalPathSource { .. } => None,
            DistributionOrigin::LocalDirectorySource { .. } => None,
            DistributionOrigin::VcsSource { .. } => None,
            DistributionOrigin::InstalledRegistry { .. } => None,
            DistributionOrigin::InstalledUrl { .. } => None,
            DistributionOrigin::InstalledEggInfoFile { .. } => None,
            DistributionOrigin::InstalledEggInfoDirectory { .. } => None,
            DistributionOrigin::InstalledLegacyEditable { .. } => None,
        }
    }

    /// The URL or path that the origin holds.
    pub fn location(&self) -> (location: Location<'_>)
        ensures
            location@ == self@.location(),
    {
        match self {
            DistributionOrigin::RegistryBuilt { index } => Location::Url(index),
            DistributionOrigin::RegistrySource { index } => Location::Url(index),
            DistributionOrigin::DirectUrlBuilt { location } => Location::Url(location),
            DistributionOrigin::DirectUrlSource { location, .. } => Location::Url(location),
            DistributionOrigin::LocalPathBuilt { install_path } => Location::Path(install_path),
            DistributionOrigin::LocalPathSource { install_path } => Location::Path(install_path),
            DistributionOrigin::LocalDirectorySource { install_path, .. } => Location::Path(
                install_path,
            ),
            DistributionOrigin::VcsSource { repository_url, .. } => Location::Url(repository_url),
            DistributionOrigin::InstalledRegistry { path } => Location::Path(path),
            DistributionOrigin::InstalledUrl { url } => Location::Url(url),
            DistributionOrigin::InstalledEggInfoFile { path } => Location::Path(path),
            DistributionOrigin::InstalledEggInfoDirectory { path } => Location::Path(path),
            DistributionOrigin::InstalledLegacyEditable { target_url } => Location::Url(target_url),
        }
    }

    /// The canonical URL of the origin, given the `file://` URL that was made
    /// of its path, if one was made. The URL that the origin holds goes before
    /// it; an origin at a path of which no URL was made fails with that path.
    pub fn url_from(&self, converted: Option<String>) -> (url: Result<String, PathConversionError>)
        ensures
            url_outcome(url) == located(self@, text_of(converted)),
    {
        match self.location() {
            Location::Url(url) => Ok(url.clone()),
            Location::Path(path) => match converted {
                Some(url) => Ok(url),
                None => Err(PathConversionError { path: path.clone() }),
            },
        }
    }

    /// The canonical URL of the origin. An origin at a local path has the
    /// `file://` URL of that path, and fails with the path where it has no
    /// such URL.
    pub fn url(&self) -> (url: Result<String, PathConversionError>)
        ensures
            url_outcome(url) == canonical_url(self@),
    {
        match self.location() {
            Location::Url(_) => self.url_from(None),
            Location::Path(path) => self.url_from(file_url(path)),
        }
    }
}

/// Classifies an origin. Every origin has a classification: the call has no
/// precondition, and the canonical URL is the one part that can fail.
pub fn classify(origin: &DistributionOrigin) -> (class: Classification)
    ensures
        class.is_direct == origin@.is_direct(),
        !class.is_direct <==> (origin is RegistryBuilt || origin is RegistrySource
            || origin is InstalledRegistry),
        class.is_editable == origin@.is_editable(),
        url_outcome(class.canonical_url) == canonical_url(origin@),
        text_of(class.index) == origin@.index(),
{
    let index = match origin.index() {
        Some(index) => Some(index.clone()),
        None => None,
    };
    Classification {
        is_direct: origin.is_direct(),
        is_editable: origin.is_editable(),
        canonical_url: origin.url(),
        index,
    }
}

} // verus!

//! A resolved package: its distribution, and what the resolution knows of it.

use crate::direct_url::{
    synthesize, synthesized, DirectUrl, DirectUrlView, UnrepresentableRevisionError,
};
use crate::hashes::{digest_pairs, HashDigest, HashPair};
use crate::json::{value_doc, JsonDoc};
use crate::origin::{
    canonical_url, url_outcome, DistributionOrigin, Location, OriginView, PathConversionError,
    UrlOutcome,
};
use crate::text::{text_of, text_of_ref};
use pep440_rs::Version;
use pep508_rs::MarkerTree;
use serde_json::Value;
use vstd::prelude::*;

verus! {

/// `pep440_rs::Version`: carried with a package, never read.
#[verifier::external_type_specification]
#[verifier::external_body]
pub struct ExVersion(pep440_rs::Version);

/// `pep508_rs::MarkerTree`: carried with a package, never read.
#[verifier::external_type_specification]
#[verifier::external_body]
pub struct ExMarkerTree(pep508_rs::MarkerTree);

/// A resolved package with the distribution it is tied to. A package that is
/// both a requirement of its own and a member of an extra or of a dependency
/// group has one value for each.
#[derive(Debug, PartialEq)]
pub struct AnnotatedDist {
    pub dist: DistributionOrigin,
    /// The normalized name of the package.
    pub name: String,
    pub version: Version,
    /// The extra that this value stands for, if it stands for one.
    pub extra: Option<String>,
    /// The dependency group that this value stands for, if it stands for one.
    pub dev: Option<String>,
    /// The digests known of the distribution, in the order they were found.
    pub hashes: Vec<HashDigest>,
    /// The metadata of the package, once it was read.
    pub metadata: Option<Value>,
    /// The environments in which the package applies.
    pub marker: MarkerTree,
    /// Whether the index marks this version as yanked.
    pub yanked: bool,
}

/// What the contracts read of a resolved package.
pub struct AnnotatedDistView {
    pub origin: OriginView,
    pub name: Seq<char>,
    pub extra: Option<Seq<char>>,
    pub dev: Option<Seq<char>>,
    pub hashes: Seq<HashPair>,
    pub metadata: Option<JsonDoc>,
    pub yanked: bool,
}

impl View for AnnotatedDist {
    type V = AnnotatedDistView;

    open spec fn view(&self) -> AnnotatedDistView {
        AnnotatedDistView {
            origin: self.dist@,
            name: self.name@,
            extra: text_of(self.extra),
            dev: text_of(self.dev),
            hashes: digest_pairs(self.hashes@),
            metadata: match self.metadata {
                Some(metadata) => Some(value_doc(metadata)),
                None => None,
            },
            yanked: self.yanked,
        }
    }
}

/// Why a package has no direct-URL record.
#[derive(Debug, Clone, PartialEq, Eq)]
pub enum ProvenanceError {
    PathConversion(PathConversionError),
    UnrepresentableRevision(UnrepresentableRevisionError),
}

/// The model of a `ProvenanceError`.
pub enum ProvenanceErrorView {
    PathConversion { path: Seq<char> },
    UnrepresentableRevision,
}

impl View for ProvenanceError {
    type V = ProvenanceErrorView;

    open spec fn view(&self) -> ProvenanceErrorView {
        match self {
            ProvenanceError::PathConversion(error) => ProvenanceErrorView::PathConversion {
                path: error.path@,
            },
            ProvenanceError::UnrepresentableRevision(_) => ProvenanceErrorView::UnrepresentableRevision,
        }
    }
}

/// The model of what `direct_url` returns.
pub open spec fn provenance_view(result: Result<Option<DirectUrl>, ProvenanceError>) -> Result<
    Option<DirectUrlView>,
    ProvenanceErrorView,
> {
    match result {
        Ok(Some(record)) => Ok(Some(record@)),
        Ok(None) => Ok(None),
        Err(error) => Err(error@),
    }
}

/// A version, or the place that a package was obtained from directly.
#[derive(Debug, Clone, Copy)]
pub enum VersionOrUrl<'a> {
    Version(&'a Version),
    Url(Location<'a>),
}

impl AnnotatedDistView {
    /// Whether the value stands for the package itself.
    pub open spec fn is_base(self) -> bool {
        self.extra is None && self.dev is None
    }

    /// Whether the package comes from an index that marks its version as
    /// yanked. Only a distribution that is fetched from an index can be.
    pub open spec fn is_yanked(self) -> bool {
        self.origin.is_registry() && self.yanked
    }

    /// The direct-URL record of the package, given the canonical URL of its
    /// origin: the record synthesized from that URL and the package's digests.
    pub open spec fn direct_url_at(self, url: UrlOutcome) -> Result<
        Option<DirectUrlView>,
        ProvenanceErrorView,
    > {
        match url {
            Err(path) => Err(ProvenanceErrorView::PathConversion { path }),
            Ok(url) => match synthesized(self.origin, url, self.hashes) {
                Ok(record) => Ok(record),
                Err(_) => Err(ProvenanceErrorView::UnrepresentableRevision),
            },
        }
    }

    /// The direct-URL record of the package.
    pub open spec fn direct_url(self) -> Result<Option<DirectUrlView>, ProvenanceErrorView> {
        self.direct_url_at(canonical_url(self.origin))
    }
}

impl AnnotatedDist {
    /// Whether the value stands for the package itself, and not for one of
    /// its extras or dependency groups.
    pub fn is_base(&self) -> (base: bool)
        ensures
            base == self@.is_base(),
    {
        self.extra.is_none() && self.dev.is_none()
    }

    /// The name of the package.
    pub fn name(&self) -> (name: &String)
        ensures
            name@ == self@.name,
    {
        &self.name
    }

    /// The index that the distribution comes from, if it comes from one.
    pub fn index(&self) -> (index: Option<&String>)
        ensures
            text_of_ref(index) == self@.origin.index(),
    {
        self.dist.index()
    }

    /// The canonical URL of the distribution.
    pub fn url(&self) -> (url: Result<String, PathConversionError>)
        ensures
            url_outcome(url) == canonical_url(self@.origin),
    {
        self.dist.url()
    }

    /// The version of a package that was looked up in an index, and the place
    /// of one that was obtained directly.
    pub fn version_or_url(&self) -> (found: VersionOrUrl<'_>)
        ensures
            found is Url <==> self@.origin.is_direct(),
            found matches VersionOrUrl::Url(location) ==> location@ == self@.origin.location(),
            found matches VersionOrUrl::Version(version) ==> *version == self.version,
    {
        if self.dist.is_direct() {
            VersionOrUrl::Url(self.dist.location())
        } else {
            VersionOrUrl::Version(&self.version)
        }
    }

    /// Whether the package comes from an index that marks its version as
    /// yanked.
    pub fn is_yanked(&self) -> (yanked: bool)
        ensures
            yanked == self@.is_yanked(),
    {
        self.dist.is_registry() && self.yanked
    }

    /// The direct-URL record of the package, given the canonical URL of its
    /// origin or the failure to make one. A failure to make the URL is handed
    /// on; so is a requested revision that has no text.
    pub fn direct_url_at(&self, url: Result<String, PathConversionError>) -> (record: Result<
        Option<DirectUrl>,
        ProvenanceError,
    >)
        ensures
            provenance_view(record) == self@.direct_url_at(url_outcome(url)),
    {
        match url {
            Err(error) => Err(ProvenanceError::PathConversion(error)),
            Ok(url) => match synthesize(&self.dist, &url, &self.hashes) {
                Ok(record) => Ok(record),
                Err(error) => Err(ProvenanceError::UnrepresentableRevision(error)),
            },
        }
    }

    /// The direct-URL record of the package: none for a package that was
    /// picked from an index and has no digests.
    pub fn direct_url(&self) -> (record: Result<Option<DirectUrl>, ProvenanceError>)
        ensures
            provenance_view(record) == self@.direct_url(),
    {
        self.direct_url_at(self.dist.url())
    }
}

} // verus!

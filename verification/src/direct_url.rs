//! The direct-URL record of a package: where and how it was obtained, for a
//! package that was not simply picked from an index by its version.

use crate::hashes::{aggregate, digest_pairs, ArchiveHashes, HashDigest, HashPair};
use crate::origin::{DistributionOrigin, OriginView, VcsReference};
use crate::text::{copy_text, hex_text, text_of, to_hex};
use vstd::prelude::*;

verus! {

/// A version control system.
#[derive(Debug, Clone, Copy, PartialEq, Eq)]
pub enum VcsKind {
    Git,
    Hg,
    Bzr,
    Svn,
}

/// The provenance of a package beyond the index.
#[derive(Debug, PartialEq, Eq)]
pub enum DirectUrl {
    /// A directory on this machine.
    LocalDirectory { url: String, editable: bool },
    /// An archive, with the digests known of it.
    ArchiveUrl {
        url: String,
        hash_algorithm: Option<String>,
        hashes: ArchiveHashes,
        subdirectory: Option<String>,
    },
    /// A checkout of a repository.
    VcsUrl {
        url: String,
        vcs_kind: VcsKind,
        commit_id: Option<String>,
        requested_revision: Option<String>,
        subdirectory: Option<String>,
    },
}

/// The model of a `DirectUrl`.
pub enum DirectUrlView {
    LocalDirectory { url: Seq<char>, editable: bool },
    ArchiveUrl {
        url: Seq<char>,
        hash_algorithm: Option<Seq<char>>,
        hashes: Seq<HashPair>,
        subdirectory: Option<Seq<char>>,
    },
    VcsUrl {
        url: Seq<char>,
        vcs_kind: VcsKind,
        commit_id: Option<Seq<char>>,
        requested_revision: Option<Seq<char>>,
        subdirectory: Option<Seq<char>>,
    },
}

impl View for DirectUrl {
    type V = DirectUrlView;

    open spec fn view(&self) -> DirectUrlView {
        match self {
            DirectUrl::LocalDirectory { url, editable } => DirectUrlView::LocalDirectory {
                url: url@,
                editable: *editable,
            },
            DirectUrl::ArchiveUrl {
                url,
                hash_algorithm,
                hashes,
                subdirectory,
            } => DirectUrlView::ArchiveUrl {
                url: url@,
                hash_algorithm: text_of(*hash_algorithm),
                hashes: hashes@,
                subdirectory: text_of(*subdirectory),
            },
            DirectUrl::VcsUrl {
                url,
                vcs_kind,
                commit_id,
                requested_revision,
                subdirectory,
            } => DirectUrlView::VcsUrl {
                url: url@,
                vcs_kind: *vcs_kind,
                commit_id: text_of(*commit_id),
                requested_revision: text_of(*requested_revision),
                subdirectory: text_of(*subdirectory),
            },
        }
    }
}

impl Clone for DirectUrl {
    fn clone(&self) -> (copy: Self)
        ensures
            copy@ == self@,
    {
        match self {
            DirectUrl::LocalDirectory { url, editable } => DirectUrl::LocalDirectory {
                url: url.clone(),
                editable: *editable,
            },
            DirectUrl::ArchiveUrl {
                url,
                hash_algorithm,
                hashes,
                subdirectory,
            } => DirectUrl::ArchiveUrl {
                url: url.clone(),
                hash_algorithm: copy_text(hash_algorithm),
                hashes: hashes.clone(),
                subdirectory: copy_text(subdirectory),
            },
            DirectUrl::VcsUrl {
                url,
                vcs_kind,
                commit_id,
                requested_revision,
                subdirectory,
            } => DirectUrl::VcsUrl {
                url: url.clone(),
                vcs_kind: *vcs_kind,
                commit_id: copy_text(commit_id),
                requested_revision: copy_text(requested_revision),
                subdirectory: copy_text(subdirectory),
            },
        }
    }
}

/// The model of an optional record.
pub open spec fn record_view(record: Option<DirectUrl>) -> Option<DirectUrlView> {
    match record {
        Some(record) => Some(record@),
        None => None,
    }
}

/// The requested revision of a repository has no text to record.
#[derive(Debug, Clone, Copy, PartialEq, Eq)]
pub struct UnrepresentableRevisionError;

/// The kinds of origin that the records tell apart.
pub enum OriginKind {
    /// A project directory, or a package installed in a legacy shape.
    Directory,
    /// A local file, an archive at a URL, or a package installed from a URL.
    Archive,
    /// A package index.
    Index,
    /// A repository.
    Repository,
}

impl OriginView {
    /// The kind of record that an origin asks for.
    pub open spec fn kind(self) -> OriginKind {
        match self {
            OriginView::RegistryBuilt { .. } => OriginKind::Index,
            OriginView::RegistrySource { .. } => OriginKind::Index,
            OriginView::DirectUrlBuilt { .. } => OriginKind::Archive,
            OriginView::DirectUrlSource { .. } => OriginKind::Archive,
            OriginView::LocalPathBuilt { .. } => OriginKind::Archive,
            OriginView::LocalPathSource { .. } => OriginKind::Archive,
            OriginView::LocalDirectorySource { .. } => OriginKind::Directory,
            OriginView::VcsSource { .. } => OriginKind::Repository,
            OriginView::InstalledRegistry { .. } => OriginKind::Index,
            OriginView::InstalledUrl { .. } => OriginKind::Archive,
            OriginView::InstalledEggInfoFile { .. } => OriginKind::Directory,
            OriginView::InstalledEggInfoDirectory { .. } => OriginKind::Directory,
            OriginView::InstalledLegacyEditable { .. } => OriginKind::Directory,
        }
    }

    /// The commit that a repository origin was resolved to, in hexadecimal.
    pub open spec fn commit_id(self) -> Option<Seq<char>> {
        match self {
            OriginView::VcsSource { resolved_commit: Some(commit), .. } => Some(hex_text(commit)),
            _ => None,
        }
    }

    /// The text of the revision that was asked of a repository origin.
    pub open spec fn requested_revision(self) -> Option<Seq<char>> {
        match self {
            OriginView::VcsSource { reference: Some(reference), .. } => reference.text(),
            _ => None,
        }
    }

    /// Whether a revision was asked of a repository origin that has no text.
    pub open spec fn revision_unrepresentable(self) -> bool {
        match self {
            OriginView::VcsSource { reference: Some(reference), .. } => reference.text() is None,
            _ => false,
        }
    }
}

/// The archive record for a URL and the digests known of the archive: the
/// digests aggregated by algorithm, the last one of each algorithm winning.
pub open spec fn archive_record(
    url: Seq<char>,
    hashes: Seq<HashPair>,
    subdirectory: Option<Seq<char>>,
) -> DirectUrlView {
    DirectUrlView::ArchiveUrl { url, hash_algorithm: None, hashes: aggregate(hashes), subdirectory }
}

/// The record that belongs to an origin with a given canonical URL and given
/// digests.
///
/// - A directory, or a package installed in a legacy shape: a local-directory
///   record, editable as the origin is.
/// - A local file, an archive at a URL, a package installed from a URL: an
///   archive record, with the origin's subdirectory if it has one.
/// - An index: an archive record where digests are known, and no record
///   otherwise.
/// - A repository: a repository record with the resolved commit in
///   hexadecimal and the text of the requested revision; it fails where a
///   revision was requested that has no text.
pub open spec fn synthesized(origin: OriginView, url: Seq<char>, hashes: Seq<HashPair>) -> Result<
    Option<DirectUrlView>,
    UnrepresentableRevisionError,
> {
    match origin.kind() {
        OriginKind::Directory => Ok(
            Some(DirectUrlView::LocalDirectory { url, editable: origin.is_editable() }),
        ),
        OriginKind::Archive => Ok(Some(archive_record(url, hashes, origin.subdirectory()))),
        OriginKind::Index => if hashes.len() == 0 {
            Ok(None)
        } else {
            Ok(Some(archive_record(url, hashes, None)))
        },
        OriginKind::Repository => if origin.revision_unrepresentable() {
            Err(UnrepresentableRevisionError)
        } else {
            Ok(
                Some(
                    DirectUrlView::VcsUrl {
                        url,
                        vcs_kind: VcsKind::Git,
                        commit_id: origin.commit_id(),
                        requested_revision: origin.requested_revision(),
                        subdirectory: origin.subdirectory(),
                    },
                ),
            )
        },
    }
}

/// Only a package that was picked from an index, and of which no digest is
/// known, is without a record: every other origin has one, or fails for its
/// revision.
pub proof fn lemma_no_record_only_from_index(
    origin: OriginView,
    url: Seq<char>,
    hashes: Seq<HashPair>,
)
    ensures
        synthesized(origin, url, hashes) matches Ok(None) <==> origin.kind() is Index
            && hashes.len() == 0,
        origin.is_direct() ==> !(synthesized(origin, url, hashes) matches Ok(None)),
        synthesized(origin, url, hashes) is Err <==> origin.revision_unrepresentable(),
{
}

/// An editable project directory has a local-directory record that says so,
/// whatever its URL and digests.
pub proof fn lemma_editable_directory(origin: OriginView, url: Seq<char>, hashes: Seq<HashPair>)
    requires
        origin matches OriginView::LocalDirectorySource { editable, .. } && editable,
    ensures
        synthesized(origin, url, hashes) == Ok::<Option<DirectUrlView>, UnrepresentableRevisionError>(
            Some(DirectUrlView::LocalDirectory { url, editable: true }),
        ),
{
}

/// A repository of which a revision with a text was asked, and which was
/// resolved to a commit, has a repository record with the commit in
/// hexadecimal and the text of the revision.
pub proof fn lemma_resolved_repository(origin: OriginView, url: Seq<char>, hashes: Seq<HashPair>)
    requires
        origin matches OriginView::VcsSource { reference: Some(reference), resolved_commit: Some(_), .. }
            && reference.text() is Some,
    ensures
        synthesized(origin, url, hashes) matches Ok(Some(DirectUrlView::VcsUrl {
            commit_id,
            requested_revision,
            ..
        })) && commit_id == Some(hex_text(origin->resolved_commit->0)) && requested_revision
            == origin->reference->0.text(),
{
}

/// A repository of which a revision without a text was asked has no record:
/// the synthesis fails, whatever else is known of the repository.
pub proof fn lemma_unrepresentable_revision(origin: OriginView, url: Seq<char>, hashes: Seq<HashPair>)
    requires
        origin matches OriginView::VcsSource { reference: Some(reference), .. } && reference.text()
            is None,
    ensures
        synthesized(origin, url, hashes) is Err,
{
}

/// The model of what `synthesize` returns.
pub open spec fn synthesis_view(
    result: Result<Option<DirectUrl>, UnrepresentableRevisionError>,
) -> Result<Option<DirectUrlView>, UnrepresentableRevisionError> {
    match result {
        Ok(record) => Ok(record_view(record)),
        Err(error) => Err(error),
    }
}

/// The archive record for a URL, with the digests aggregated.
fn archive(url: &String, hashes: &Vec<HashDigest>, subdirectory: &Option<String>) -> (record:
    DirectUrl)
    ensures
        record@ == archive_record(url@, digest_pairs(hashes@), text_of(*subdirectory)),
{
    DirectUrl::ArchiveUrl {
        url: url.clone(),
        hash_algorithm: None,
        hashes: ArchiveHashes::aggregate(hashes),
        subdirectory: copy_text(subdirectory),
    }
}

/// The text of a requested revision; none where no revision was requested,
/// and a failure where the requested one has no text.
fn revision_text(reference: &Option<VcsReference>) -> (text: Result<
    Option<String>,
    UnrepresentableRevisionError,
>)
    ensures
        match *reference {
            None => text matches Ok(None),
            Some(reference) => match reference@.text() {
                Some(revision) => text matches Ok(Some(written)) && written@ == revision,
                None => text is Err,
            },
        },
{
    match reference {
        None => Ok(None),
        Some(reference) => match reference.as_str() {
            Some(revision) => Ok(Some(revision.clone())),
            None => Err(UnrepresentableRevisionError),
        },
    }
}

/// Makes the direct-URL record of an origin, from its canonical URL and the
/// digests known of its distribution.
pub fn synthesize(origin: &DistributionOrigin, canonical_url: &String, hashes: &Vec<HashDigest>) -> (record:
    Result<Option<DirectUrl>, UnrepresentableRevisionError>)
    ensures
        synthesis_view(record) == synthesized(origin@, canonical_url@, digest_pairs(hashes@)),
{
    let no_subdirectory: Option<String> = None;
    match origin {
        DistributionOrigin::RegistryBuilt { .. }
        | DistributionOrigin::RegistrySource { .. }
        | DistributionOrigin::InstalledRegistry { .. } => {
            if hashes.len() == 0 {
                Ok(None)
            } else {
                Ok(Some(archive(canonical_url, hashes, &no_subdirectory)))
            }
        },
        DistributionOrigin::DirectUrlBuilt { .. }
        | DistributionOrigin::LocalPathBuilt { .. }
        | DistributionOrigin::LocalPathSource { .. }
        | DistributionOrigin::InstalledUrl { .. } => Ok(
            Some(archive(canonical_url, hashes, &no_subdirectory)),
        ),
        DistributionOrigin::DirectUrlSource { subdirectory, .. } => Ok(
            Some(archive(canonical_url, hashes, subdirectory)),
        ),
        DistributionOrigin::LocalDirectorySource { .. }
        | DistributionOrigin::InstalledEggInfoFile { .. }
        | DistributionOrigin::InstalledEggInfoDirectory { .. }
        | DistributionOrigin::InstalledLegacyEditable { .. } => Ok(
            Some(
                DirectUrl::LocalDirectory {
                    url: canonical_url.clone(),
                    editable: origin.is_editable(),
                },
            ),
        ),
        DistributionOrigin::VcsSource { reference, resolved_commit, subdirectory, .. } => {
            let requested_revision = revision_text(reference)?;
            let commit_id = match resolved_commit {
                Some(commit) => Some(to_hex(commit)),
                None => None,
            };
            Ok(
                Some(
                    DirectUrl::VcsUrl {
                        url: canonical_url.clone(),
                        vcs_kind: VcsKind::Git,
                        commit_id,
                        requested_revision,
                        subdirectory: copy_text(subdirectory),
                    },
                ),
            )
        },
    }
}

} // verus!

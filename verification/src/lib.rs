//! Provenance classification and installation reports for resolved packages.
//!
//! A resolved package is tied to one distribution origin. This crate classifies
//! that origin, derives the direct-URL provenance record that belongs to it, and
//! assembles the installation report that lists every resolved package.

pub mod decode;
pub mod direct_url;
pub mod dist;
pub mod document;
pub mod hashes;
pub mod json;
pub mod origin;
pub mod report;
pub mod text;

pub use direct_url::{synthesize, DirectUrl, UnrepresentableRevisionError, VcsKind};
pub use dist::{AnnotatedDist, ProvenanceError, VersionOrUrl};
pub use hashes::{ArchiveHashes, HashDigest};
pub use json::SerializationError;
pub use origin::{
    classify, Classification, DistributionOrigin, Location, PathConversionError, VcsReference,
};
pub use report::{InstallationReportItem, PipReport, ReportError, Requirement};

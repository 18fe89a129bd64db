//! The installation report: one entry for each resolved package, in the order
//! of the resolution.

use crate::direct_url::{record_view, DirectUrl, DirectUrlView};
use crate::dist::{AnnotatedDist, AnnotatedDistView, ProvenanceError, ProvenanceErrorView};
use crate::json::{clone_value, value_doc, JsonDoc};
use crate::origin::{canonical_url, url_outcome, PathConversionError, UrlOutcome};
use crate::text::{copy_texts, texts_of};
use serde_json::Value;
use vstd::prelude::*;

verus! {

/// A requirement that the user stated: a package by its normalized name, with
/// the extras asked of it.
#[derive(Debug, Clone, PartialEq, Eq)]
pub struct Requirement {
    pub name: String,
    pub extras: Vec<String>,
}

/// The model of a `Requirement`.
pub struct RequirementView {
    pub name: Seq<char>,
    pub extras: Seq<Seq<char>>,
}

impl View for Requirement {
    type V = RequirementView;

    open spec fn view(&self) -> RequirementView {
        RequirementView { name: self.name@, extras: texts_of(self.extras@) }
    }
}

/// The models of a list of requirements, in order.
pub open spec fn requirement_views(requirements: Seq<Requirement>) -> Seq<RequirementView> {
    requirements.map_values(|r: Requirement| r@)
}

/// The place of the first requirement on a package: the least index of a
/// requirement with that name, or the list's length where there is none.
pub open spec fn request_position(requirements: Seq<RequirementView>, name: Seq<char>) -> int
    decreases requirements.len(),
{
    if requirements.len() == 0 {
        0
    } else if requirements[0].name == name {
        0
    } else {
        1 + request_position(requirements.drop_first(), name)
    }
}

/// Where `request_position` points, and what lies before it.
pub proof fn lemma_request_position(requirements: Seq<RequirementView>, name: Seq<char>)
    ensures
        0 <= request_position(requirements, name) <= requirements.len(),
        request_position(requirements, name) < requirements.len() ==> requirements[request_position(
            requirements,
            name,
        )].name == name,
        forall|i: int|
            0 <= i < request_position(requirements, name) ==> (#[trigger] requirements[i]).name
                != name,
    decreases requirements.len(),
{
    if requirements.len() > 0 && requirements[0].name != name {
        let rest = requirements.drop_first();
        lemma_request_position(rest, name);
        assert forall|i: int| 0 <= i < request_position(requirements, name) implies (
        #[trigger] requirements[i]).name != name by {
            if i > 0 {
                assert(rest[i - 1] == requirements[i]);
            }
        }
    }
}

/// Whether the user asked for a package by name.
pub open spec fn is_requested(requirements: Seq<RequirementView>, name: Seq<char>) -> bool {
    request_position(requirements, name) < requirements.len()
}

/// The extras that the user asked of a package: those of the first
/// requirement on it, and none where there is no requirement on it.
pub open spec fn requested_extras(requirements: Seq<RequirementView>, name: Seq<char>) -> Seq<
    Seq<char>,
> {
    if is_requested(requirements, name) {
        requirements[request_position(requirements, name)].extras
    } else {
        Seq::empty()
    }
}

/// One entry of the report.
#[derive(Debug, PartialEq)]
pub struct InstallationReportItem {
    pub metadata: Value,
    pub is_direct: bool,
    pub is_yanked: bool,
    pub download_info: Option<DirectUrl>,
    pub requested: bool,
    pub requested_extras: Vec<String>,
}

/// The model of an `InstallationReportItem`.
pub struct ItemView {
    pub metadata: JsonDoc,
    pub is_direct: bool,
    pub is_yanked: bool,
    pub download_info: Option<DirectUrlView>,
    pub requested: bool,
    pub requested_extras: Seq<Seq<char>>,
}

impl View for InstallationReportItem {
    type V = ItemView;

    open spec fn view(&self) -> ItemView {
        ItemView {
            metadata: value_doc(self.metadata),
            is_direct: self.is_direct,
            is_yanked: self.is_yanked,
            download_info: record_view(self.download_info),
            requested: self.requested,
            requested_extras: texts_of(self.requested_extras@),
        }
    }
}

impl Clone for InstallationReportItem {
    fn clone(&self) -> (copy: Self)
        ensures
            copy@ == self@,
    {
        InstallationReportItem {
            metadata: clone_value(&self.metadata),
            is_direct: self.is_direct,
            is_yanked: self.is_yanked,
            download_info: match &self.download_info {
                Some(record) => Some(record.clone()),
                None => None,
            },
            requested: self.requested,
            requested_extras: copy_texts(&self.requested_extras),
        }
    }
}

/// The report: the entries, in the order of the resolution.
#[derive(Debug, PartialEq)]
pub struct PipReport {
    pub install: Vec<InstallationReportItem>,
}

impl View for PipReport {
    type V = Seq<ItemView>;

    open spec fn view(&self) -> Seq<ItemView> {
        self.install@.map_values(|item: InstallationReportItem| item@)
    }
}

impl Clone for PipReport {
    fn clone(&self) -> (copy: Self)
        ensures
            copy@ == self@,
    {
        let mut install: Vec<InstallationReportItem> = Vec::new();
        let mut at: usize = 0;
        while at < self.install.len()
            invariant
                at <= self.install.len(),
                install.len() == at,
                forall|i: int| 0 <= i < at ==> (#[trigger] install@[i])@ == self.install@[i]@,
            decreases self.install.len() - at,
        {
            install.push(self.install[at].clone());
            at += 1;
        }
        let copy = PipReport { install };
        assert(copy@ =~= self@);
        copy
    }
}

/// Why no report was built.
#[derive(Debug, Clone, PartialEq, Eq)]
pub enum ReportError {
    /// The metadata of a package was not read.
    MissingMetadata { package: String },
    /// The provenance of a package could not be established.
    Provenance { package: String, cause: ProvenanceError },
}

/// The model of a `ReportError`.
pub enum ReportErrorView {
    MissingMetadata { package: Seq<char> },
    Provenance { package: Seq<char>, cause: ProvenanceErrorView },
}

impl View for ReportError {
    type V = ReportErrorView;

    open spec fn view(&self) -> ReportErrorView {
        match self {
            ReportError::MissingMetadata { package } => ReportErrorView::MissingMetadata {
                package: package@,
            },
            ReportError::Provenance { package, cause } => ReportErrorView::Provenance {
                package: package@,
                cause: cause@,
            },
        }
    }
}

/// The entry for a package, given the canonical URL of its origin or the
/// failure to make one.
///
/// A package without metadata has no entry, and nothing else is looked at. A
/// failure to make the URL is fatal. A requested revision without a text is
/// not: the entry then has no download information.
pub open spec fn entry_at(
    dist: AnnotatedDistView,
    requirements: Seq<RequirementView>,
    url: UrlOutcome,
) -> Result<ItemView, ReportErrorView> {
    match dist.metadata {
        None => Err(ReportErrorView::MissingMetadata { package: dist.name }),
        Some(metadata) => match dist.direct_url_at(url) {
            Err(ProvenanceErrorView::PathConversion { path }) => Err(
                ReportErrorView::Provenance {
                    package: dist.name,
                    cause: ProvenanceErrorView::PathConversion { path },
                },
            ),
            Err(ProvenanceErrorView::UnrepresentableRevision) => Ok(
                entry_with(dist, requirements, metadata, None),
            ),
            Ok(download_info) => Ok(entry_with(dist, requirements, metadata, download_info)),
        },
    }
}

/// The entry for a package with given metadata and download information.
pub open spec fn entry_with(
    dist: AnnotatedDistView,
    requirements: Seq<RequirementView>,
    metadata: JsonDoc,
    download_info: Option<DirectUrlView>,
) -> ItemView {
    ItemView {
        metadata,
        is_direct: dist.origin.is_direct(),
        is_yanked: dist.is_yanked(),
        download_info,
        requested: is_requested(requirements, dist.name),
        requested_extras: requested_extras(requirements, dist.name),
    }
}

/// The entry for a package.
pub open spec fn entry(dist: AnnotatedDistView, requirements: Seq<RequirementView>) -> Result<
    ItemView,
    ReportErrorView,
> {
    entry_at(dist, requirements, canonical_url(dist.origin))
}

/// The report for a resolution: the entries of its packages in order, or the
/// error of the first package that has no entry.
pub open spec fn report(dists: Seq<AnnotatedDistView>, requirements: Seq<RequirementView>) -> Result<
    Seq<ItemView>,
    ReportErrorView,
>
    decreases dists.len(),
{
    if dists.len() == 0 {
        Ok(Seq::empty())
    } else {
        match report(dists.drop_last(), requirements) {
            Err(error) => Err(error),
            Ok(entries) => match entry(dists.last(), requirements) {
                Err(error) => Err(error),
                Ok(item) => Ok(entries.push(item)),
            },
        }
    }
}

/// The models of a list of resolved packages, in order.
pub open spec fn dist_views(dists: Seq<AnnotatedDist>) -> Seq<AnnotatedDistView> {
    dists.map_values(|dist: AnnotatedDist| dist@)
}

/// The model of what building an entry returns.
pub open spec fn entry_view(result: Result<InstallationReportItem, ReportError>) -> Result<
    ItemView,
    ReportErrorView,
> {
    match result {
        Ok(item) => Ok(item@),
        Err(error) => Err(error@),
    }
}

/// The model of what building a report returns.
pub open spec fn report_view(result: Result<PipReport, ReportError>) -> Result<
    Seq<ItemView>,
    ReportErrorView,
> {
    match result {
        Ok(report) => Ok(report@),
        Err(error) => Err(error@),
    }
}

/// A report is built exactly where every package has an entry, and then it
/// holds the entry of each package at the place of the package: the order of
/// the report is the order of the resolution.
pub proof fn lemma_report_keeps_order(
    dists: Seq<AnnotatedDistView>,
    requirements: Seq<RequirementView>,
)
    ensures
        report(dists, requirements) is Ok <==> forall|i: int|
            0 <= i < dists.len() ==> (#[trigger] entry(dists[i], requirements)) is Ok,
        report(dists, requirements) matches Ok(entries) ==> entries.len() == dists.len()
            && forall|i: int|
            0 <= i < dists.len() ==> Ok::<ItemView, ReportErrorView>(#[trigger] entries[i])
                == entry(dists[i], requirements),
    decreases dists.len(),
{
    if dists.len() > 0 {
        let front = dists.drop_last();
        lemma_report_keeps_order(front, requirements);
        assert forall|i: int| 0 <= i < front.len() implies front[i] == dists[i] by {}
        if report(dists, requirements) is Ok {
            assert forall|i: int| 0 <= i < dists.len() implies (#[trigger] entry(
                dists[i],
                requirements,
            )) is Ok by {
                if i < front.len() {
                    assert(front[i] == dists[i]);
                }
            }
        }
        if forall|i: int| 0 <= i < dists.len() ==> (#[trigger] entry(dists[i], requirements)) is Ok {
            assert forall|i: int| 0 <= i < front.len() implies (#[trigger] entry(
                front[i],
                requirements,
            )) is Ok by {
                assert(front[i] == dists[i]);
            }
            assert(entry(dists[dists.len() - 1], requirements) is Ok);
        }
        if let Ok(entries) = report(dists, requirements) {
            let before = report(front, requirements)->Ok_0;
            assert forall|i: int| 0 <= i < dists.len() implies Ok::<ItemView, ReportErrorView>(
                #[trigger] entries[i],
            ) == entry(dists[i], requirements) by {
                if i < front.len() {
                    assert(entries[i] == before[i]);
                    assert(front[i] == dists[i]);
                }
            }
        }
    }
}

/// Where a report is not built, the error is that of the first package in the
/// order of the resolution that has no entry.
pub proof fn lemma_report_first_error(
    dists: Seq<AnnotatedDistView>,
    requirements: Seq<RequirementView>,
    first: int,
)
    requires
        0 <= first < dists.len(),
        entry(dists[first], requirements) is Err,
        forall|i: int| 0 <= i < first ==> (#[trigger] entry(dists[i], requirements)) is Ok,
    ensures
        report(dists, requirements) == Err::<Seq<ItemView>, ReportErrorView>(
            entry(dists[first], requirements)->Err_0,
        ),
    decreases dists.len(),
{
    let front = dists.drop_last();
    if first == dists.len() - 1 {
        lemma_report_keeps_order(front, requirements);
        assert forall|i: int| 0 <= i < front.len() implies (#[trigger] entry(
            front[i],
            requirements,
        )) is Ok by {
            assert(front[i] == dists[i]);
        }
    } else {
        assert(front[first] == dists[first]);
        assert forall|i: int| 0 <= i < first implies (#[trigger] entry(front[i], requirements))
            is Ok by {
            assert(front[i] == dists[i]);
        }
        lemma_report_first_error(front, requirements, first);
    }
}

/// A resolution in which some package has no metadata has no report. Where
/// every package before the first such one has a canonical URL, the error
/// names that package as the one whose metadata is missing.
pub proof fn lemma_missing_metadata_is_fatal(
    dists: Seq<AnnotatedDistView>,
    requirements: Seq<RequirementView>,
    missing: int,
)
    requires
        0 <= missing < dists.len(),
        dists[missing].metadata is None,
    ensures
        report(dists, requirements) is Err,
        (forall|i: int|
            0 <= i < missing ==> (#[trigger] dists[i]).metadata is Some && canonical_url(
                dists[i].origin,
            ) is Ok) ==> report(dists, requirements) == Err::<Seq<ItemView>, ReportErrorView>(
            ReportErrorView::MissingMetadata { package: dists[missing].name },
        ),
{
    lemma_report_keeps_order(dists, requirements);
    assert(entry(dists[missing], requirements) is Err);
    if forall|i: int|
        0 <= i < missing ==> (#[trigger] dists[i]).metadata is Some && canonical_url(
            dists[i].origin,
        ) is Ok {
        assert forall|i: int| 0 <= i < missing implies (#[trigger] entry(dists[i], requirements))
            is Ok by {
            assert(dists[i].metadata is Some);
        }
        lemma_report_first_error(dists, requirements, missing);
    }
}

/// The index of the first requirement on a package, or the number of
/// requirements where there is none.
fn find_requirement(requirements: &Vec<Requirement>, name: &String) -> (at: usize)
    ensures
        at == request_position(requirement_views(requirements@), name@),
        at <= requirements.len(),
{
    let ghost views = requirement_views(requirements@);
    let mut at: usize = 0;
    while at < requirements.len()
        invariant
            at <= requirements.len(),
            views == requirement_views(requirements@),
            forall|i: int| 0 <= i < at ==> (#[trigger] views[i]).name != name@,
        decreases requirements.len() - at,
    {
        if requirements[at].name == *name {
            proof {
                lemma_request_position(views, name@);
                assert(views[at as int].name == name@);
            }
            return at;
        }
        at += 1;
    }
    proof {
        lemma_request_position(views, name@);
    }
    at
}

impl InstallationReportItem {
    /// The entry for a package, given the canonical URL of its origin or the
    /// failure to make one.
    ///
    /// It fails for a package without metadata, and for one whose origin has
    /// no canonical URL. A requested revision that has no text is no failure:
    /// the entry is then without download information.
    pub fn from_dist(
        dist: &AnnotatedDist,
        requirements: &Vec<Requirement>,
        url: Result<String, PathConversionError>,
    ) -> (item: Result<InstallationReportItem, ReportError>)
        ensures
            entry_view(item) == entry_at(
                dist@,
                requirement_views(requirements@),
                url_outcome(url),
            ),
    {
        let metadata = match &dist.metadata {
            None => {
                return Err(ReportError::MissingMetadata { package: dist.name.clone() });
            },
            Some(metadata) => clone_value(metadata),
        };
        let download_info = match dist.direct_url_at(url) {
            Ok(record) => record,
            Err(ProvenanceError::UnrepresentableRevision(_)) => None,
            Err(cause) => {
                return Err(ReportError::Provenance { package: dist.name.clone(), cause });
            },
        };
        let at = find_requirement(requirements, &dist.name);
        let requested = at < requirements.len();
        let extras = if requested {
            copy_texts(&requirements[at].extras)
        } else {
            Vec::new()
        };
        assert(texts_of(extras@) =~= requested_extras(
            requirement_views(requirements@),
            dist@.name,
        ));
        Ok(
            InstallationReportItem {
                metadata,
                is_direct: dist.dist.is_direct(),
                is_yanked: dist.is_yanked(),
                download_info,
                requested,
                requested_extras: extras,
            },
        )
    }

    /// The entry for a package.
    pub fn from_cached_dist(dist: &AnnotatedDist, requirements: &Vec<Requirement>) -> (item:
        Result<InstallationReportItem, ReportError>)
        ensures
            entry_view(item) == entry(dist@, requirement_views(requirements@)),
    {
        InstallationReportItem::from_dist(dist, requirements, dist.url())
    }
}

impl PipReport {
    /// The report for a resolution: one entry for each package, in the order
    /// of the resolution. Where a package has no entry there is no report, and
    /// the error is that of the first such package.
    pub fn from_resolution(dists: &Vec<AnnotatedDist>, requirements: &Vec<Requirement>) -> (built:
        Result<PipReport, ReportError>)
        ensures
            report_view(built) == report(dist_views(dists@), requirement_views(requirements@)),
    {
        let ghost all = dist_views(dists@);
        let ghost asked = requirement_views(requirements@);
        let mut install: Vec<InstallationReportItem> = Vec::new();
        let mut done: usize = 0;
        assert(install@.map_values(|item: InstallationReportItem| item@) =~= Seq::<
            ItemView,
        >::empty());
        while done < dists.len()
            invariant
                done <= dists.len(),
                all == dist_views(dists@),
                asked == requirement_views(requirements@),
                report(all.take(done as int), asked) == Ok::<Seq<ItemView>, ReportErrorView>(
                    install@.map_values(|item: InstallationReportItem| item@),
                ),
            decreases dists.len() - done,
        {
            proof {
                assert(all.take(done + 1).drop_last() =~= all.take(done as int));
                assert(all.take(done + 1).last() == dists@[done as int]@);
            }
            let ghost before = install@.map_values(|item: InstallationReportItem| item@);
            match InstallationReportItem::from_cached_dist(&dists[done], requirements) {
                Err(error) => {
                    proof {
                        lemma_report_first_error_in_prefix(all, asked, done as int);
                    }
                    return Err(error);
                },
                Ok(item) => {
                    let ghost added = item@;
                    install.push(item);
                    assert(install@.map_values(|item: InstallationReportItem| item@)
                        =~= before.push(added));
                },
            }
            done += 1;
        }
        assert(all.take(done as int) =~= all);
        Ok(PipReport { install })
    }
}

/// A failure in a front part of a resolution is the failure of the whole.
proof fn lemma_report_first_error_in_prefix(
    dists: Seq<AnnotatedDistView>,
    requirements: Seq<RequirementView>,
    first: int,
)
    requires
        0 <= first < dists.len(),
        report(dists.take(first), requirements) is Ok,
        entry(dists[first], requirements) is Err,
    ensures
        report(dists, requirements) == Err::<Seq<ItemView>, ReportErrorView>(
            entry(dists[first], requirements)->Err_0,
        ),
{
    lemma_report_keeps_order(dists.take(first), requirements);
    assert forall|i: int| 0 <= i < first implies (#[trigger] entry(dists[i], requirements))
        is Ok by {
        assert(dists.take(first)[i] == dists[i]);
    }
    lemma_report_first_error(dists, requirements, first);
}

} // verus!

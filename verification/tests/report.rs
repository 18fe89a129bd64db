use pep440_rs::Version;
use pep508_rs::MarkerTree;
use report_types::direct_url::{DirectUrl, UnrepresentableRevisionError, VcsKind};
use report_types::dist::{AnnotatedDist, ProvenanceError, VersionOrUrl};
use report_types::hashes::{ArchiveHashes, HashDigest};
use report_types::origin::{DistributionOrigin, Location, PathConversionError, VcsReference};
use report_types::report::{InstallationReportItem, PipReport, ReportError, Requirement};
use serde_json::Value;
use std::str::FromStr;

fn text(value: &str) -> String {
    value.to_string()
}

fn metadata(name: &str) -> Value {
    let mut fields = serde_json::Map::new();
    fields.insert(text("name"), Value::String(text(name)));
    fields.insert(text("version"), Value::String(text("1.0.0")));
    Value::Object(fields)
}

fn package(name: &str, origin: DistributionOrigin) -> AnnotatedDist {
    AnnotatedDist {
        dist: origin,
        name: text(name),
        version: Version::from_str("1.0.0").unwrap(),
        extra: None,
        dev: None,
        hashes: Vec::new(),
        metadata: Some(metadata(name)),
        marker: MarkerTree::TRUE,
        yanked: false,
    }
}

fn from_index(name: &str) -> AnnotatedDist {
    package(name, DistributionOrigin::RegistryBuilt { index: text("https://pypi.org/simple") })
}

fn requirement(name: &str, extras: &[&str]) -> Requirement {
    Requirement { name: text(name), extras: extras.iter().map(|extra| text(extra)).collect() }
}

fn names(report: &PipReport) -> Vec<String> {
    report.install.iter().map(|item| item.metadata["name"].as_str().unwrap().to_string()).collect()
}

#[test]
fn requested_packages_carry_their_extras_and_others_none() {
    let dists = vec![from_index("flask"), from_index("werkzeug")];
    let requirements = vec![requirement("flask", &["async"])];
    let report = PipReport::from_resolution(&dists, &requirements).unwrap();
    assert_eq!(
        report,
        PipReport {
            install: vec![
                InstallationReportItem {
                    metadata: metadata("flask"),
                    is_direct: false,
                    is_yanked: false,
                    download_info: None,
                    requested: true,
                    requested_extras: vec![text("async")],
                },
                InstallationReportItem {
                    metadata: metadata("werkzeug"),
                    is_direct: false,
                    is_yanked: false,
                    download_info: None,
                    requested: false,
                    requested_extras: Vec::new(),
                },
            ],
        }
    );
}

#[test]
fn the_first_of_two_requirements_on_one_package_wins() {
    let requirements = vec![
        requirement("werkzeug", &["watchdog"]),
        requirement("flask", &["async"]),
        requirement("flask", &["dotenv"]),
    ];
    let item = InstallationReportItem::from_cached_dist(&from_index("flask"), &requirements).unwrap();
    assert!(item.requested);
    assert_eq!(item.requested_extras, vec![text("async")]);
}

#[test]
fn names_are_matched_exactly() {
    let requirements = vec![requirement("Flask", &["async"]), requirement("flask-cors", &[])];
    let item = InstallationReportItem::from_cached_dist(&from_index("flask"), &requirements).unwrap();
    assert!(!item.requested);
    assert_eq!(item.requested_extras, Vec::<String>::new());
}

#[test]
fn a_requirement_without_extras_is_still_a_request() {
    let item = InstallationReportItem::from_cached_dist(
        &from_index("flask"),
        &vec![requirement("flask", &[])],
    ).unwrap();
    assert!(item.requested);
    assert_eq!(item.requested_extras, Vec::<String>::new());
}

#[test]
fn missing_metadata_fails_the_whole_report() {
    for missing in 0..3 {
        let mut dists = vec![from_index("flask"), from_index("werkzeug"), from_index("jinja2")];
        let name = dists[missing].name.clone();
        dists[missing].metadata = None;
        assert_eq!(
            PipReport::from_resolution(&dists, &Vec::new()),
            Err(ReportError::MissingMetadata { package: name })
        );
    }
}

#[test]
fn the_first_package_without_metadata_is_named() {
    let mut dists = vec![from_index("flask"), from_index("werkzeug"), from_index("jinja2")];
    dists[1].metadata = None;
    dists[2].metadata = None;
    assert_eq!(
        PipReport::from_resolution(&dists, &Vec::new()),
        Err(ReportError::MissingMetadata { package: text("werkzeug") })
    );
}

#[test]
fn missing_metadata_goes_before_a_bad_path_of_the_same_package() {
    let mut dist = package(
        "app",
        DistributionOrigin::LocalPathBuilt { install_path: text("wheels/app.whl") },
    );
    dist.metadata = None;
    assert_eq!(
        InstallationReportItem::from_cached_dist(&dist, &Vec::new()),
        Err(ReportError::MissingMetadata { package: text("app") })
    );
}

#[test]
fn the_report_keeps_the_order_of_the_resolution() {
    let order = ["werkzeug", "flask", "click", "jinja2", "blinker", "itsdangerous"];
    let dists: Vec<AnnotatedDist> = order.iter().map(|name| from_index(name)).collect();
    let report = PipReport::from_resolution(&dists, &vec![requirement("flask", &[])]).unwrap();
    assert_eq!(names(&report), order.iter().map(|name| text(name)).collect::<Vec<String>>());
    let reversed: Vec<AnnotatedDist> = order.iter().rev().map(|name| from_index(name)).collect();
    let report = PipReport::from_resolution(&reversed, &Vec::new()).unwrap();
    assert_eq!(
        names(&report),
        order.iter().rev().map(|name| text(name)).collect::<Vec<String>>()
    );
}

#[test]
fn an_empty_resolution_has_an_empty_report() {
    assert_eq!(
        PipReport::from_resolution(&Vec::new(), &vec![requirement("flask", &[])]),
        Ok(PipReport { install: Vec::new() })
    );
}

#[test]
fn an_editable_directory_is_reported_as_such() {
    let dist = package(
        "app",
        DistributionOrigin::LocalDirectorySource {
            install_path: text("/src/app"),
            subdirectory: None,
            editable: true,
        },
    );
    let item = InstallationReportItem::from_cached_dist(&dist, &Vec::new()).unwrap();
    assert!(item.is_direct);
    assert!(!item.is_yanked);
    assert_eq!(
        item.download_info,
        Some(DirectUrl::LocalDirectory { url: text("file:///src/app"), editable: true })
    );
}

#[test]
fn a_path_without_url_fails_the_report_with_the_package_named() {
    let dists = vec![
        from_index("flask"),
        package(
            "app",
            DistributionOrigin::LocalDirectorySource {
                install_path: text("src/app"),
                subdirectory: None,
                editable: false,
            },
        ),
    ];
    assert_eq!(
        PipReport::from_resolution(&dists, &Vec::new()),
        Err(
            ReportError::Provenance {
                package: text("app"),
                cause: ProvenanceError::PathConversion(PathConversionError { path: text("src/app") }),
            }
        )
    );
}

#[test]
fn an_installed_registry_package_at_a_bad_path_fails_too() {
    let dist = package("flask", DistributionOrigin::InstalledRegistry { path: text("site-packages") });
    assert_eq!(
        InstallationReportItem::from_cached_dist(&dist, &Vec::new()),
        Err(
            ReportError::Provenance {
                package: text("flask"),
                cause: ProvenanceError::PathConversion(
                    PathConversionError { path: text("site-packages") },
                ),
            }
        )
    );
}

#[test]
fn a_revision_without_text_leaves_the_entry_without_download_info() {
    let dist = package(
        "flask",
        DistributionOrigin::VcsSource {
            repository_url: text("https://github.com/pallets/flask"),
            reference: Some(VcsReference::DefaultBranch),
            resolved_commit: Some(vec![0x5a; 20]),
            subdirectory: None,
        },
    );
    assert_eq!(
        dist.direct_url(),
        Err(ProvenanceError::UnrepresentableRevision(UnrepresentableRevisionError))
    );
    let report = PipReport::from_resolution(&vec![dist], &Vec::new()).unwrap();
    assert_eq!(report.install.len(), 1);
    assert!(report.install[0].is_direct);
    assert_eq!(report.install[0].download_info, None);
}

#[test]
fn a_repository_entry_has_commit_and_revision() {
    let mut dist = package(
        "flask",
        DistributionOrigin::VcsSource {
            repository_url: text("https://github.com/pallets/flask"),
            reference: Some(VcsReference::Branch(text("main"))),
            resolved_commit: Some(vec![0x5a; 20]),
            subdirectory: None,
        },
    );
    dist.hashes = vec![HashDigest { algorithm: text("sha256"), digest: text("abc") }];
    let item = InstallationReportItem::from_cached_dist(&dist, &Vec::new()).unwrap();
    assert_eq!(
        item.download_info,
        Some(
            DirectUrl::VcsUrl {
                url: text("https://github.com/pallets/flask"),
                vcs_kind: VcsKind::Git,
                commit_id: Some(text("5a5a5a5a5a5a5a5a5a5a5a5a5a5a5a5a5a5a5a5a")),
                requested_revision: Some(text("main")),
                subdirectory: None,
            }
        )
    );
}

#[test]
fn a_registry_package_with_hashes_has_an_archive_record() {
    let mut dist = from_index("flask");
    dist.hashes = vec![
        HashDigest { algorithm: text("sha256"), digest: text("old") },
        HashDigest { algorithm: text("md5"), digest: text("m") },
        HashDigest { algorithm: text("sha256"), digest: text("new") },
    ];
    let item = InstallationReportItem::from_cached_dist(&dist, &Vec::new()).unwrap();
    assert!(!item.is_direct);
    assert_eq!(
        item.download_info,
        Some(
            DirectUrl::ArchiveUrl {
                url: text("https://pypi.org/simple"),
                hash_algorithm: None,
                hashes: ArchiveHashes::new()
                    .insert(text("sha256"), text("new"))
                    .insert(text("md5"), text("m")),
                subdirectory: None,
            }
        )
    );
}

#[test]
fn only_a_registry_distribution_can_be_yanked() {
    let mut wheel = from_index("flask");
    wheel.yanked = true;
    assert!(wheel.is_yanked());
    assert!(InstallationReportItem::from_cached_dist(&wheel, &Vec::new()).unwrap().is_yanked);
    let mut sdist =
        package("flask", DistributionOrigin::RegistrySource { index: text("https://pypi.org/simple") });
    sdist.yanked = true;
    assert!(InstallationReportItem::from_cached_dist(&sdist, &Vec::new()).unwrap().is_yanked);
    sdist.yanked = false;
    assert!(!InstallationReportItem::from_cached_dist(&sdist, &Vec::new()).unwrap().is_yanked);
    let others = vec![
        DistributionOrigin::DirectUrlBuilt { location: text("https://example.org/a.whl") },
        DistributionOrigin::LocalPathBuilt { install_path: text("/wheels/a.whl") },
        DistributionOrigin::InstalledRegistry { path: text("/venv/a.dist-info") },
        DistributionOrigin::InstalledUrl { url: text("https://example.org/a.whl") },
    ];
    for origin in others {
        let mut dist = package("flask", origin);
        dist.yanked = true;
        assert!(!dist.is_yanked());
        assert!(!InstallationReportItem::from_cached_dist(&dist, &Vec::new()).unwrap().is_yanked);
    }
}

#[test]
fn from_dist_takes_the_url_that_it_is_given() {
    let dist = package("app", DistributionOrigin::LocalPathSource { install_path: text("/a.tar.gz") });
    let item =
        InstallationReportItem::from_dist(&dist, &Vec::new(), Ok(text("file:///elsewhere.tar.gz")))
            .unwrap();
    assert_eq!(
        item.download_info,
        Some(
            DirectUrl::ArchiveUrl {
                url: text("file:///elsewhere.tar.gz"),
                hash_algorithm: None,
                hashes: ArchiveHashes::new(),
                subdirectory: None,
            }
        )
    );
    assert_eq!(
        InstallationReportItem::from_dist(
            &dist,
            &Vec::new(),
            Err(PathConversionError { path: text("/a.tar.gz") }),
        ),
        Err(
            ReportError::Provenance {
                package: text("app"),
                cause: ProvenanceError::PathConversion(PathConversionError { path: text("/a.tar.gz") }),
            }
        )
    );
}

#[test]
fn a_package_is_base_without_extra_and_group() {
    let mut dist = from_index("flask");
    assert!(dist.is_base());
    dist.extra = Some(text("async"));
    assert!(!dist.is_base());
    dist.extra = None;
    dist.dev = Some(text("test"));
    assert!(!dist.is_base());
    assert_eq!(dist.name(), &text("flask"));
}

#[test]
fn a_package_has_a_version_or_a_place() {
    let wheel = from_index("flask");
    match wheel.version_or_url() {
        VersionOrUrl::Version(version) => assert_eq!(version, &Version::from_str("1.0.0").unwrap()),
        VersionOrUrl::Url(_) => panic!("a registry wheel has a version"),
    }
    assert_eq!(wheel.index(), Some(&text("https://pypi.org/simple")));
    assert_eq!(wheel.url(), Ok(text("https://pypi.org/simple")));
    let path = text("/wheels/a.whl");
    let local = package("a", DistributionOrigin::LocalPathBuilt { install_path: path.clone() });
    match local.version_or_url() {
        VersionOrUrl::Url(location) => assert_eq!(location, Location::Path(&path)),
        VersionOrUrl::Version(_) => panic!("a local wheel has a place"),
    }
    assert_eq!(local.index(), None);
    assert_eq!(local.url(), Ok(text("file:///wheels/a.whl")));
}

#[test]
fn direct_url_of_a_package_uses_its_own_hashes() {
    let mut dist =
        package("a", DistributionOrigin::DirectUrlBuilt { location: text("https://example.org/a.whl") });
    dist.hashes = vec![HashDigest { algorithm: text("sha256"), digest: text("abc") }];
    assert_eq!(
        dist.direct_url(),
        Ok(
            Some(
                DirectUrl::ArchiveUrl {
                    url: text("https://example.org/a.whl"),
                    hash_algorithm: None,
                    hashes: ArchiveHashes::new().insert(text("sha256"), text("abc")),
                    subdirectory: None,
                }
            )
        )
    );
    assert_eq!(from_index("flask").direct_url(), Ok(None));
}

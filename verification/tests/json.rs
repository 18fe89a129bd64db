use report_types::direct_url::{DirectUrl, VcsKind};
use report_types::hashes::ArchiveHashes;
use report_types::json::SerializationError;
use report_types::report::{InstallationReportItem, PipReport};
use serde_json::{Number, Value};

fn text(value: &str) -> String {
    value.to_string()
}

fn metadata(name: &str) -> Value {
    let mut fields = serde_json::Map::new();
    fields.insert(text("name"), Value::String(text(name)));
    Value::Object(fields)
}

fn item(name: &str, download_info: Option<DirectUrl>) -> InstallationReportItem {
    InstallationReportItem {
        metadata: metadata(name),
        is_direct: download_info.is_some(),
        is_yanked: false,
        download_info,
        requested: false,
        requested_extras: Vec::new(),
    }
}

fn directory() -> DirectUrl {
    DirectUrl::LocalDirectory { url: text("file:///src/app"), editable: true }
}

fn archive() -> DirectUrl {
    DirectUrl::ArchiveUrl {
        url: text("https://example.org/a.tar.gz"),
        hash_algorithm: None,
        hashes: ArchiveHashes::new()
            .insert(text("sha256"), text("abc"))
            .insert(text("md5"), text("def")),
        subdirectory: None,
    }
}

fn checkout() -> DirectUrl {
    DirectUrl::VcsUrl {
        url: text("https://github.com/pallets/flask"),
        vcs_kind: VcsKind::Git,
        commit_id: Some(text("0123456789abcdef0123456789abcdef01234567")),
        requested_revision: Some(text("main")),
        subdirectory: Some(text("src")),
    }
}

fn every_shape() -> PipReport {
    let mut requested = item("flask", None);
    requested.requested = true;
    requested.is_yanked = true;
    requested.requested_extras = vec![text("async"), text("dotenv")];
    let mut numbered = item("numbered", Some(checkout()));
    let mut fields = serde_json::Map::new();
    fields.insert(text("name"), Value::String(text("numbered")));
    fields.insert(text("size"), Value::Number(Number::from(12)));
    fields.insert(text("classifiers"), Value::Array(vec![Value::Null, Value::Bool(true)]));
    numbered.metadata = Value::Object(fields);
    PipReport {
        install: vec![
            requested,
            item("app", Some(directory())),
            item("archived", Some(archive())),
            numbered,
            item(
                "bare",
                Some(
                    DirectUrl::VcsUrl {
                        url: text("https://example.org/repo"),
                        vcs_kind: VcsKind::Hg,
                        commit_id: None,
                        requested_revision: None,
                        subdirectory: None,
                    },
                ),
            ),
            item(
                "hashed",
                Some(
                    DirectUrl::ArchiveUrl {
                        url: text("https://example.org/b.whl"),
                        hash_algorithm: Some(text("sha256=abc")),
                        hashes: ArchiveHashes::new(),
                        subdirectory: Some(text("python")),
                    },
                ),
            ),
        ],
    }
}

#[test]
fn compact_text_of_a_report_without_download_info() {
    let mut flask = item("flask", None);
    flask.requested = true;
    flask.requested_extras = vec![text("async")];
    let report = PipReport { install: vec![flask, item("werkzeug", None)] };
    assert_eq!(
        report.to_json().unwrap(),
        "{\"install\":[{\"metadata\":{\"name\":\"flask\"},\"is-direct\":false,\"is-yanked\":false,\
         \"download-info\":null,\"requested\":true,\"requested-extras\":[\"async\"]},\
         {\"metadata\":{\"name\":\"werkzeug\"},\"is-direct\":false,\"is-yanked\":false,\
         \"download-info\":null,\"requested\":false,\"requested-extras\":[]}]}"
    );
}

#[test]
fn compact_text_of_an_empty_report() {
    assert_eq!(PipReport { install: Vec::new() }.to_json().unwrap(), "{\"install\":[]}");
    assert_eq!(
        PipReport { install: Vec::new() }.to_json_pretty().unwrap(),
        "{\n  \"install\": []\n}"
    );
}

#[test]
fn compact_text_of_a_local_directory() {
    let report = PipReport { install: vec![item("app", Some(directory()))] };
    assert_eq!(
        report.to_json().unwrap(),
        "{\"install\":[{\"metadata\":{\"name\":\"app\"},\"is-direct\":true,\"is-yanked\":false,\
         \"download-info\":{\"url\":\"file:///src/app\",\"dir_info\":{\"editable\":true}},\
         \"requested\":false,\"requested-extras\":[]}]}"
    );
}

#[test]
fn compact_text_of_an_archive() {
    let report = PipReport { install: vec![item("archived", Some(archive()))] };
    assert_eq!(
        report.to_json().unwrap(),
        "{\"install\":[{\"metadata\":{\"name\":\"archived\"},\"is-direct\":true,\
         \"is-yanked\":false,\"download-info\":{\"url\":\"https://example.org/a.tar.gz\",\
         \"archive_info\":{\"hash\":null,\"hashes\":{\"sha256\":\"abc\",\"md5\":\"def\"}},\
         \"subdirectory\":null},\"requested\":false,\"requested-extras\":[]}]}"
    );
}

#[test]
fn compact_text_of_a_checkout() {
    let report = PipReport { install: vec![item("flask", Some(checkout()))] };
    assert_eq!(
        report.to_json().unwrap(),
        "{\"install\":[{\"metadata\":{\"name\":\"flask\"},\"is-direct\":true,\"is-yanked\":false,\
         \"download-info\":{\"url\":\"https://github.com/pallets/flask\",\
         \"vcs_info\":{\"vcs\":\"git\",\
         \"commit_id\":\"0123456789abcdef0123456789abcdef01234567\",\
         \"requested_revision\":\"main\"},\"subdirectory\":\"src\"},\
         \"requested\":false,\"requested-extras\":[]}]}"
    );
}

#[test]
fn pretty_text_of_a_local_directory() {
    let report = PipReport { install: vec![item("app", Some(directory()))] };
    let expected = [
        "{",
        "  \"install\": [",
        "    {",
        "      \"metadata\": {",
        "        \"name\": \"app\"",
        "      },",
        "      \"is-direct\": true,",
        "      \"is-yanked\": false,",
        "      \"download-info\": {",
        "        \"url\": \"file:///src/app\",",
        "        \"dir_info\": {",
        "          \"editable\": true",
        "        }",
        "      },",
        "      \"requested\": false,",
        "      \"requested-extras\": []",
        "    }",
        "  ]",
        "}",
    ];
    assert_eq!(report.to_json_pretty().unwrap(), expected.join("\n"));
}

#[test]
fn the_editable_flag_can_be_read_from_the_text() {
    let report = PipReport { install: vec![item("app", Some(directory()))] };
    let document: Value = serde_json::from_str(&report.to_json().unwrap()).unwrap();
    assert_eq!(
        document.pointer("/install/0/download-info/dir_info/editable"),
        Some(&Value::Bool(true))
    );
}

#[test]
fn compact_and_pretty_text_hold_the_same_document() {
    let report = every_shape();
    let compact: Value = serde_json::from_str(&report.to_json().unwrap()).unwrap();
    let pretty: Value = serde_json::from_str(&report.to_json_pretty().unwrap()).unwrap();
    assert_eq!(compact, pretty);
    assert_eq!(compact, report.to_document());
}

#[test]
fn a_report_read_from_its_compact_text_is_the_same_report() {
    let report = every_shape();
    let read = PipReport::from_json(&report.to_json().unwrap()).unwrap();
    assert_eq!(read, report);
    assert_eq!(read.to_json().unwrap(), report.to_json().unwrap());
}

#[test]
fn a_report_read_from_its_pretty_text_is_the_same_report() {
    let report = every_shape();
    let read = PipReport::from_json(&report.to_json_pretty().unwrap()).unwrap();
    assert_eq!(read, report);
    assert_eq!(read.to_json_pretty().unwrap(), report.to_json_pretty().unwrap());
}

#[test]
fn a_report_read_from_its_document_is_the_same_report() {
    let report = every_shape();
    assert_eq!(PipReport::from_document(&report.to_document()), Some(report));
    let empty = PipReport { install: Vec::new() };
    assert_eq!(PipReport::from_document(&empty.to_document()), Some(empty));
}

#[test]
fn the_order_of_the_hashes_is_kept_in_the_text() {
    let hashes = ArchiveHashes::new()
        .insert(text("sha512"), text("c"))
        .insert(text("md5"), text("a"))
        .insert(text("sha256"), text("b"));
    let record = DirectUrl::ArchiveUrl {
        url: text("https://example.org/a.whl"),
        hash_algorithm: None,
        hashes: hashes.clone(),
        subdirectory: None,
    };
    let report = PipReport { install: vec![item("a", Some(record))] };
    let written = report.to_json().unwrap();
    assert!(written.contains("\"hashes\":{\"sha512\":\"c\",\"md5\":\"a\",\"sha256\":\"b\"}"));
    match &PipReport::from_json(&written).unwrap().install[0].download_info {
        Some(DirectUrl::ArchiveUrl { hashes: read, .. }) => {
            assert_eq!(read.entries(), hashes.entries());
        },
        other => panic!("not an archive: {:?}", other),
    }
}

#[test]
fn text_that_is_not_json_is_a_parser_error() {
    for written in ["", "{\"install\":[", "install", "{\"install\":[]} trailing"] {
        assert!(matches!(PipReport::from_json(written), Err(SerializationError::Json(_))));
    }
}

#[test]
fn json_that_is_not_a_report_is_refused() {
    let refused = [
        "null",
        "[]",
        "{}",
        "{\"install\":{}}",
        "{\"install\":[],\"version\":\"1\"}",
        "{\"installed\":[]}",
        "{\"install\":[null]}",
        "{\"install\":[{\"metadata\":{},\"is-direct\":false,\"is-yanked\":false,\
          \"download-info\":null,\"requested\":false}]}",
        "{\"install\":[{\"metadata\":{},\"is-direct\":\"no\",\"is-yanked\":false,\
          \"download-info\":null,\"requested\":false,\"requested-extras\":[]}]}",
        "{\"install\":[{\"metadata\":{},\"is-direct\":false,\"is-yanked\":false,\
          \"download-info\":null,\"requested\":false,\"requested-extras\":null}]}",
        "{\"install\":[{\"metadata\":{},\"is-direct\":false,\"is-yanked\":false,\
          \"download-info\":null,\"requested\":false,\"requested-extras\":[1]}]}",
        "{\"install\":[{\"is-direct\":false,\"metadata\":{},\"is-yanked\":false,\
          \"download-info\":null,\"requested\":false,\"requested-extras\":[]}]}",
        "{\"install\":[{\"metadata\":{},\"is-direct\":false,\"is-yanked\":false,\
          \"download-info\":{\"url\":\"u\"},\"requested\":false,\"requested-extras\":[]}]}",
        "{\"install\":[{\"metadata\":{},\"is-direct\":false,\"is-yanked\":false,\
          \"download-info\":{\"url\":\"u\",\"dir_info\":{\"editable\":null}},\
          \"requested\":false,\"requested-extras\":[]}]}",
        "{\"install\":[{\"metadata\":{},\"is-direct\":false,\"is-yanked\":false,\
          \"download-info\":{\"url\":\"u\",\"vcs_info\":{\"vcs\":\"cvs\",\"commit_id\":null,\
          \"requested_revision\":null},\"subdirectory\":null},\
          \"requested\":false,\"requested-extras\":[]}]}",
        "{\"install\":[{\"metadata\":{},\"is-direct\":false,\"is-yanked\":false,\
          \"download-info\":{\"url\":\"u\",\"archive_info\":{\"hash\":null,\
          \"hashes\":{\"sha256\":7}},\"subdirectory\":null},\
          \"requested\":false,\"requested-extras\":[]}]}",
    ];
    for written in refused {
        assert!(
            matches!(PipReport::from_json(written), Err(SerializationError::NotAReport)),
            "{}",
            written
        );
    }
}

#[test]
fn a_report_is_read_from_text_written_elsewhere() {
    let written = "{ \"install\": [ { \"metadata\": {\"name\": \"svn-thing\"}, \
                   \"is-direct\": true, \"is-yanked\": false, \
                   \"download-info\": { \"url\": \"https://example.org/svn\", \
                   \"vcs_info\": { \"vcs\": \"svn\", \"commit_id\": \"r12\", \
                   \"requested_revision\": null }, \"subdirectory\": null }, \
                   \"requested\": true, \"requested-extras\": [\"a\", \"b\"] } ] }";
    let report = PipReport::from_json(written).unwrap();
    assert_eq!(
        report,
        PipReport {
            install: vec![
                InstallationReportItem {
                    metadata: metadata("svn-thing"),
                    is_direct: true,
                    is_yanked: false,
                    download_info: Some(
                        DirectUrl::VcsUrl {
                            url: text("https://example.org/svn"),
                            vcs_kind: VcsKind::Svn,
                            commit_id: Some(text("r12")),
                            requested_revision: None,
                            subdirectory: None,
                        },
                    ),
                    requested: true,
                    requested_extras: vec![text("a"), text("b")],
                },
            ],
        }
    );
}

#[test]
fn every_vcs_kind_is_written_by_its_name() {
    for (kind, name) in
        [(VcsKind::Git, "git"), (VcsKind::Hg, "hg"), (VcsKind::Bzr, "bzr"), (VcsKind::Svn, "svn")]
    {
        let record = DirectUrl::VcsUrl {
            url: text("u"),
            vcs_kind: kind,
            commit_id: None,
            requested_revision: None,
            subdirectory: None,
        };
        let report = PipReport { install: vec![item("a", Some(record))] };
        let document = report.to_document();
        assert_eq!(
            document.pointer("/install/0/download-info/vcs_info/vcs"),
            Some(&Value::String(text(name)))
        );
        assert_eq!(PipReport::from_document(&document), Some(report));
    }
}

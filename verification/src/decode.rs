//! Reading a report back from its JSON document.

use crate::direct_url::{DirectUrl, DirectUrlView, VcsKind};
use crate::document::{
    archive_info_doc, dir_info_doc, direct_url_doc, download_info_doc, hashes_doc, item_doc,
    items_doc, lemma_keys_differ, lemma_report_doc_injective, member_views, optional_text_doc,
    parsed_report, report_doc, texts_doc, value_docs, vcs_info_doc, vcs_name,
};
use crate::hashes::{digest_pairs, ArchiveHashes, HashDigest, HashPair};
use crate::json::{
    clone_value, distinct_keys, open_value, parsed_text, read_value, value_doc, JsonDoc,
    JsonParts, SerializationError,
};
use crate::report::{InstallationReportItem, ItemView, PipReport};
use crate::text::{text_of, texts_of};
use serde_json::Value;
use vstd::prelude::*;

verus! {

/// The truth value that a document is, if it is one.
fn as_bool(document: &Value) -> (flag: Option<bool>)
    ensures
        match flag {
            Some(flag) => value_doc(*document) == JsonDoc::Bool(flag),
            None => !(value_doc(*document) is Bool),
        },
{
    match open_value(document) {
        JsonParts::Bool(flag) => Some(flag),
        _ => None,
    }
}

/// The text that a document is, if it is one.
fn as_text(document: &Value) -> (text: Option<String>)
    ensures
        match text {
            Some(text) => value_doc(*document) == JsonDoc::Text(text@),
            None => !(value_doc(*document) is Text),
        },
{
    match open_value(document) {
        JsonParts::Text(text) => Some(text),
        _ => None,
    }
}

/// The text that a document is, or none for null; refused is every other
/// document.
fn as_optional_text(document: &Value) -> (text: Option<Option<String>>)
    ensures
        match text {
            Some(text) => value_doc(*document) == optional_text_doc(text_of(text)),
            None => forall|text: Option<Seq<char>>| optional_text_doc(text) != value_doc(*document),
        },
{
    match open_value(document) {
        JsonParts::Text(text) => Some(Some(text)),
        JsonParts::Null => Some(None),
        _ => None,
    }
}

/// The items of a document that is a list.
fn as_list(document: &Value) -> (items: Option<Vec<Value>>)
    ensures
        match items {
            Some(items) => value_doc(*document) == JsonDoc::List(value_docs(items@)),
            None => !(value_doc(*document) is List),
        },
{
    match open_value(document) {
        JsonParts::List(items) => Some(items),
        _ => None,
    }
}

/// The members of a document that is a record.
fn as_record(document: &Value) -> (members: Option<Vec<(String, Value)>>)
    ensures
        match members {
            Some(members) => value_doc(*document) == JsonDoc::Record(member_views(members@))
                && distinct_keys(member_views(members@)),
            None => !(value_doc(*document) is Record),
        },
{
    match open_value(document) {
        JsonParts::Record(members) => Some(members),
        _ => None,
    }
}

/// Whether a member has the given key.
fn has_key(member: &(String, Value), key: &str) -> (same: bool)
    ensures
        same == (member.0@ == key@),
{
    member.0 == key.to_owned()
}

/// Reads a list of texts: some exactly for the documents of such lists.
fn read_texts(document: &Value) -> (texts: Option<Vec<String>>)
    ensures
        match texts {
            Some(texts) => texts_doc(texts_of(texts@)) == value_doc(*document),
            None => forall|texts: Seq<Seq<char>>| texts_doc(texts) != value_doc(*document),
        },
{
    let items = match as_list(document) {
        Some(items) => items,
        None => {
            return None;
        },
    };
    let ghost docs = value_docs(items@);
    let mut texts: Vec<String> = Vec::new();
    let mut at: usize = 0;
    while at < items.len()
        invariant
            at <= items.len(),
            texts.len() == at,
            docs == value_docs(items@),
            value_doc(*document) == JsonDoc::List(docs),
            forall|i: int| 0 <= i < at ==> docs[i] == JsonDoc::Text((#[trigger] texts@[i])@),
        decreases items.len() - at,
    {
        match as_text(&items[at]) {
            Some(text) => {
                texts.push(text);
            },
            None => {
                proof {
                    assert forall|other: Seq<Seq<char>>| texts_doc(other) != value_doc(
                        *document,
                    ) by {
                        let written = other.map_values(|text: Seq<char>| JsonDoc::Text(text));
                        if written == docs {
                            assert(written.len() == other.len());
                            assert(docs.len() == items.len());
                            assert(written[at as int] == JsonDoc::Text(other[at as int]));
                            assert(docs[at as int] == value_doc(items@[at as int]));
                        }
                    }
                }
                return None;
            },
        }
        at += 1;
    }
    assert(texts_of(texts@).map_values(|text: Seq<char>| JsonDoc::Text(text)) =~= docs);
    Some(texts)
}

/// Reads digests by algorithm.
fn read_hashes(document: &Value) -> (hashes: Option<ArchiveHashes>)
    ensures
        match hashes {
            Some(hashes) => hashes_doc(hashes@) == value_doc(*document),
            None => forall|hashes: Seq<HashPair>| hashes_doc(hashes) != value_doc(*document),
        },
{
    let members = match as_record(document) {
        Some(members) => members,
        None => {
            return None;
        },
    };
    let ghost views = member_views(members@);
    let mut entries: Vec<HashDigest> = Vec::new();
    let mut at: usize = 0;
    while at < members.len()
        invariant
            at <= members.len(),
            entries.len() == at,
            views == member_views(members@),
            value_doc(*document) == JsonDoc::Record(views),
            forall|i: int|
                0 <= i < at ==> views[i] == ((#[trigger] entries@[i]).algorithm@, JsonDoc::Text(
                    entries@[i].digest@,
                )),
        decreases members.len() - at,
    {
        match as_text(&members[at].1) {
            Some(digest) => {
                entries.push(HashDigest { algorithm: members[at].0.clone(), digest });
            },
            None => {
                proof {
                    assert forall|other: Seq<HashPair>| hashes_doc(other) != value_doc(
                        *document,
                    ) by {
                        let written = other.map_values(
                            |pair: HashPair| (pair.0, JsonDoc::Text(pair.1)),
                        );
                        if written == views {
                            assert(written.len() == other.len());
                            assert(views.len() == members.len());
                            assert(written[at as int].1 == JsonDoc::Text(other[at as int].1));
                            assert(views[at as int].1 == value_doc(members@[at as int].1));
                        }
                    }
                }
                return None;
            },
        }
        at += 1;
    }
    let ghost pairs = digest_pairs(entries@);
    assert(pairs.map_values(|pair: HashPair| (pair.0, JsonDoc::Text(pair.1))) =~= views);
    assert forall|i: int, j: int| 0 <= i < j < pairs.len() implies (#[trigger] pairs[i]).0 != (
    #[trigger] pairs[j]).0 by {
        assert(views[i].0 == pairs[i].0);
        assert(views[j].0 == pairs[j].0);
    }
    Some(ArchiveHashes::from_distinct(entries))
}

/// Reads a version control system from its name.
fn read_vcs_kind(document: &Value) -> (kind: Option<VcsKind>)
    ensures
        match kind {
            Some(kind) => JsonDoc::Text(vcs_name(kind)) == value_doc(*document),
            None => forall|kind: VcsKind| JsonDoc::Text(vcs_name(kind)) != value_doc(*document),
        },
{
    let name = match as_text(document) {
        Some(name) => name,
        None => {
            return None;
        },
    };
    if name == "git".to_owned() {
        Some(VcsKind::Git)
    } else if name == "hg".to_owned() {
        Some(VcsKind::Hg)
    } else if name == "bzr".to_owned() {
        Some(VcsKind::Bzr)
    } else if name == "svn".to_owned() {
        Some(VcsKind::Svn)
    } else {
        None
    }
}

/// Reads what a local-directory record says of the directory.
fn read_dir_info(document: &Value) -> (editable: Option<bool>)
    ensures
        match editable {
            Some(editable) => dir_info_doc(editable) == value_doc(*document),
            None => forall|editable: bool| dir_info_doc(editable) != value_doc(*document),
        },
{
    let members = match as_record(document) {
        Some(members) => members,
        None => {
            return None;
        },
    };
    let ghost views = member_views(members@);
    if members.len() != 1 || !has_key(&members[0], "editable") {
        proof {
            assert forall|editable: bool| dir_info_doc(editable) != value_doc(*document) by {
                let written = dir_info_doc(editable)->Record_0;
                if written == views {
                    assert(written.len() == 1);
                    assert(views.len() == members.len());
                    assert(written[0].0 == views[0].0);
                }
            }
        }
        return None;
    }
    match as_bool(&members[0].1) {
        Some(editable) => {
            assert(views =~= dir_info_doc(editable)->Record_0);
            Some(editable)
        },
        None => {
            proof {
                assert forall|editable: bool| dir_info_doc(editable) != value_doc(*document) by {
                    let written = dir_info_doc(editable)->Record_0;
                    if written == views {
                        assert(written[0].1 == views[0].1);
                    }
                }
            }
            None
        },
    }
}

/// Reads what an archive record says of the archive.
fn read_archive_info(document: &Value) -> (info: Option<(Option<String>, ArchiveHashes)>)
    ensures
        match info {
            Some(info) => archive_info_doc(text_of(info.0), info.1@) == value_doc(*document),
            None => forall|hash: Option<Seq<char>>, hashes: Seq<HashPair>|
                archive_info_doc(hash, hashes) != value_doc(*document),
        },
{
    let members = match as_record(document) {
        Some(members) => members,
        None => {
            return None;
        },
    };
    let ghost views = member_views(members@);
    if members.len() != 2 || !has_key(&members[0], "hash") || !has_key(&members[1], "hashes") {
        proof {
            assert forall|hash: Option<Seq<char>>, hashes: Seq<HashPair>|
                archive_info_doc(hash, hashes) != value_doc(*document) by {
                let written = archive_info_doc(hash, hashes)->Record_0;
                if written == views {
                    assert(written.len() == 2);
                    assert(views.len() == members.len());
                    assert(written[0].0 == views[0].0);
                    assert(written[1].0 == views[1].0);
                }
            }
        }
        return None;
    }
    let hash = as_optional_text(&members[0].1);
    let hashes = read_hashes(&members[1].1);
    match (hash, hashes) {
        (Some(hash), Some(hashes)) => {
            assert(views =~= archive_info_doc(text_of(hash), hashes@)->Record_0);
            Some((hash, hashes))
        },
        _ => {
            proof {
                assert forall|hash: Option<Seq<char>>, hashes: Seq<HashPair>|
                    archive_info_doc(hash, hashes) != value_doc(*document) by {
                    let written = archive_info_doc(hash, hashes)->Record_0;
                    if written == views {
                        assert(written[0].1 == views[0].1);
                        assert(written[1].1 == views[1].1);
                    }
                }
            }
            None
        },
    }
}

/// Reads what a repository record says of the checkout.
fn read_vcs_info(document: &Value) -> (info: Option<(VcsKind, Option<String>, Option<String>)>)
    ensures
        match info {
            Some(info) => vcs_info_doc(info.0, text_of(info.1), text_of(info.2)) == value_doc(
                *document,
            ),
            None => forall|kind: VcsKind, commit: Option<Seq<char>>, revision: Option<Seq<char>>|
                vcs_info_doc(kind, commit, revision) != value_doc(*document),
        },
{
    let members = match as_record(document) {
        Some(members) => members,
        None => {
            return None;
        },
    };
    let ghost views = member_views(members@);
    if members.len() != 3 || !has_key(&members[0], "vcs") || !has_key(&members[1], "commit_id")
        || !has_key(&members[2], "requested_revision") {
        proof {
            assert forall|kind: VcsKind, commit: Option<Seq<char>>, revision: Option<Seq<char>>|
                vcs_info_doc(kind, commit, revision) != value_doc(*document) by {
                let written = vcs_info_doc(kind, commit, revision)->Record_0;
                if written == views {
                    assert(written.len() == 3);
                    assert(views.len() == members.len());
                    assert(written[0].0 == views[0].0);
                    assert(written[1].0 == views[1].0);
                    assert(written[2].0 == views[2].0);
                }
            }
        }
        return None;
    }
    let kind = read_vcs_kind(&members[0].1);
    let commit = as_optional_text(&members[1].1);
    let revision = as_optional_text(&members[2].1);
    match (kind, commit, revision) {
        (Some(kind), Some(commit), Some(revision)) => {
            assert(views =~= vcs_info_doc(kind, text_of(commit), text_of(revision))->Record_0);
            Some((kind, commit, revision))
        },
        _ => {
            proof {
                assert forall|kind: VcsKind, commit: Option<Seq<char>>, revision: Option<Seq<char>>|
                    vcs_info_doc(kind, commit, revision) != value_doc(*document) by {
                    let written = vcs_info_doc(kind, commit, revision)->Record_0;
                    if written == views {
                        assert(written[0].1 == views[0].1);
                        assert(written[1].1 == views[1].1);
                        assert(written[2].1 == views[2].1);
                    }
                }
            }
            None
        },
    }
}

/// Reads a direct-URL record: the record whose document this is, and none
/// where it is the document of no record.
fn read_direct_url(document: &Value) -> (record: Option<DirectUrl>)
    ensures
        match record {
            Some(record) => direct_url_doc(record@) == value_doc(*document),
            None => forall|record: DirectUrlView| direct_url_doc(record) != value_doc(*document),
        },
{
    proof {
        lemma_keys_differ();
    }
    let members = match as_record(document) {
        Some(members) => members,
        None => {
            return None;
        },
    };
    let ghost views = member_views(members@);
    assert(views.len() == members.len());
    if members.len() < 2 || members.len() > 3 || !has_key(&members[0], "url") {
        proof {
            assert forall|record: DirectUrlView| direct_url_doc(record) != value_doc(
                *document,
            ) by {
                let written = direct_url_doc(record)->Record_0;
                if written == views {
                    assert(written[0].0 == views[0].0);
                }
            }
        }
        return None;
    }
    let url = match as_text(&members[0].1) {
        Some(url) => url,
        None => {
            proof {
                assert forall|record: DirectUrlView| direct_url_doc(record) != value_doc(
                    *document,
                ) by {
                    let written = direct_url_doc(record)->Record_0;
                    if written == views {
                        assert(written[0].1 == views[0].1);
                    }
                }
            }
            return None;
        },
    };
    if members.len() == 2 {
        let editable = if has_key(&members[1], "dir_info") {
            read_dir_info(&members[1].1)
        } else {
            None
        };
        return match editable {
            Some(editable) => {
                let record = DirectUrl::LocalDirectory { url, editable };
                assert(views =~= direct_url_doc(record@)->Record_0);
                Some(record)
            },
            None => {
                proof {
                    assert forall|record: DirectUrlView| direct_url_doc(record) != value_doc(
                        *document,
                    ) by {
                        let written = direct_url_doc(record)->Record_0;
                        if written == views {
                            assert(written[1] == views[1]);
                        }
                    }
                }
                None
            },
        };
    }
    let subdirectory = if has_key(&members[2], "subdirectory") {
        as_optional_text(&members[2].1)
    } else {
        None
    };
    let subdirectory = match subdirectory {
        Some(subdirectory) => subdirectory,
        None => {
            proof {
                assert forall|record: DirectUrlView| direct_url_doc(record) != value_doc(
                    *document,
                ) by {
                    let written = direct_url_doc(record)->Record_0;
                    if written == views {
                        assert(written[2] == views[2]);
                    }
                }
            }
            return None;
        },
    };
    if has_key(&members[1], "archive_info") {
        match read_archive_info(&members[1].1) {
            Some((hash_algorithm, hashes)) => {
                let record = DirectUrl::ArchiveUrl { url, hash_algorithm, hashes, subdirectory };
                assert(views =~= direct_url_doc(record@)->Record_0);
                Some(record)
            },
            None => {
                proof {
                    assert forall|record: DirectUrlView| direct_url_doc(record) != value_doc(
                        *document,
                    ) by {
                        let written = direct_url_doc(record)->Record_0;
                        if written == views {
                            assert(written[1] == views[1]);
                        }
                    }
                }
                None
            },
        }
    } else if has_key(&members[1], "vcs_info") {
        match read_vcs_info(&members[1].1) {
            Some((vcs_kind, commit_id, requested_revision)) => {
                let record = DirectUrl::VcsUrl {
                    url,
                    vcs_kind,
                    commit_id,
                    requested_revision,
                    subdirectory,
                };
                assert(views =~= direct_url_doc(record@)->Record_0);
                Some(record)
            },
            None => {
                proof {
                    assert forall|record: DirectUrlView| direct_url_doc(record) != value_doc(
                        *document,
                    ) by {
                        let written = direct_url_doc(record)->Record_0;
                        if written == views {
                            assert(written[1] == views[1]);
                        }
                    }
                }
                None
            },
        }
    } else {
        proof {
            assert forall|record: DirectUrlView| direct_url_doc(record) != value_doc(
                *document,
            ) by {
                let written = direct_url_doc(record)->Record_0;
                if written == views {
                    assert(written[1] == views[1]);
                }
            }
        }
        None
    }
}

/// Reads the download information of an entry: null, or a record.
fn read_download_info(document: &Value) -> (record: Option<Option<DirectUrl>>)
    ensures
        match record {
            Some(record) => download_info_doc(crate::direct_url::record_view(record))
                == value_doc(*document),
            None => forall|record: Option<DirectUrlView>|
                download_info_doc(record) != value_doc(*document),
        },
{
    match open_value(document) {
        JsonParts::Null => Some(None),
        _ => match read_direct_url(document) {
            Some(record) => Some(Some(record)),
            None => None,
        },
    }
}

/// Reads an entry.
fn read_item(document: &Value) -> (item: Option<InstallationReportItem>)
    ensures
        match item {
            Some(item) => item_doc(item@) == value_doc(*document),
            None => forall|item: ItemView| item_doc(item) != value_doc(*document),
        },
{
    proof {
        lemma_keys_differ();
    }
    let members = match as_record(document) {
        Some(members) => members,
        None => {
            return None;
        },
    };
    let ghost views = member_views(members@);
    assert(views.len() == members.len());
    if members.len() != 6 || !has_key(&members[0], "metadata") || !has_key(
        &members[1],
        "is-direct",
    ) || !has_key(&members[2], "is-yanked") || !has_key(&members[3], "download-info")
        || !has_key(&members[4], "requested") || !has_key(&members[5], "requested-extras") {
        proof {
            assert forall|item: ItemView| item_doc(item) != value_doc(*document) by {
                let written = item_doc(item)->Record_0;
                if written == views {
                    assert(written.len() == 6);
                    assert(written[0].0 == views[0].0);
                    assert(written[1].0 == views[1].0);
                    assert(written[2].0 == views[2].0);
                    assert(written[3].0 == views[3].0);
                    assert(written[4].0 == views[4].0);
                    assert(written[5].0 == views[5].0);
                }
            }
        }
        return None;
    }
    let is_direct = as_bool(&members[1].1);
    let is_yanked = as_bool(&members[2].1);
    let download_info = read_download_info(&members[3].1);
    let requested = as_bool(&members[4].1);
    let requested_extras = read_texts(&members[5].1);
    match (is_direct, is_yanked, download_info, requested, requested_extras) {
        (
            Some(is_direct),
            Some(is_yanked),
            Some(download_info),
            Some(requested),
            Some(requested_extras),
        ) => {
            let item = InstallationReportItem {
                metadata: clone_value(&members[0].1),
                is_direct,
                is_yanked,
                download_info,
                requested,
                requested_extras,
            };
            assert(views =~= item_doc(item@)->Record_0);
            Some(item)
        },
        _ => {
            proof {
                assert forall|item: ItemView| item_doc(item) != value_doc(*document) by {
                    let written = item_doc(item)->Record_0;
                    if written == views {
                        assert(written[1].1 == views[1].1);
                        assert(written[2].1 == views[2].1);
                        assert(written[3].1 == views[3].1);
                        assert(written[4].1 == views[4].1);
                        assert(written[5].1 == views[5].1);
                    }
                }
            }
            None
        },
    }
}

/// The models of a list of entries, in order.
pub open spec fn item_views(items: Seq<InstallationReportItem>) -> Seq<ItemView> {
    items.map_values(|item: InstallationReportItem| item@)
}

/// Reads a list of entries.
fn read_items(document: &Value) -> (items: Option<Vec<InstallationReportItem>>)
    ensures
        match items {
            Some(items) => items_doc(item_views(items@)) == value_doc(*document),
            None => forall|items: Seq<ItemView>| items_doc(items) != value_doc(*document),
        },
{
    let values = match as_list(document) {
        Some(values) => values,
        None => {
            return None;
        },
    };
    let ghost docs = value_docs(values@);
    let mut items: Vec<InstallationReportItem> = Vec::new();
    let mut at: usize = 0;
    while at < values.len()
        invariant
            at <= values.len(),
            items.len() == at,
            docs == value_docs(values@),
            value_doc(*document) == JsonDoc::List(docs),
            forall|i: int| 0 <= i < at ==> docs[i] == item_doc((#[trigger] items@[i])@),
        decreases values.len() - at,
    {
        match read_item(&values[at]) {
            Some(item) => {
                items.push(item);
            },
            None => {
                proof {
                    assert forall|other: Seq<ItemView>| items_doc(other) != value_doc(
                        *document,
                    ) by {
                        let written = other.map_values(|item: ItemView| item_doc(item));
                        if written == docs {
                            assert(written.len() == other.len());
                            assert(docs.len() == values.len());
                            assert(written[at as int] == item_doc(other[at as int]));
                            assert(docs[at as int] == value_doc(values@[at as int]));
                        }
                    }
                }
                return None;
            },
        }
        at += 1;
    }
    assert(item_views(items@).map_values(|item: ItemView| item_doc(item)) =~= docs);
    Some(items)
}

/// The model of a report that may be absent.
pub open spec fn optional_report(report: Option<PipReport>) -> Option<Seq<ItemView>> {
    match report {
        Some(report) => Some(report@),
        None => None,
    }
}

impl PipReport {
    /// Reads a report from JSON text. A text that holds no JSON document fails
    /// with the parser's error; a document that is not the document of a
    /// report fails as `NotAReport`; every other text gives the one report
    /// whose document it holds.
    pub fn from_json(text: &str) -> (report: Result<PipReport, SerializationError>)
        ensures
            match parsed_text(text@) {
                None => report matches Err(SerializationError::Json(_)),
                Some(document) => match parsed_report(document) {
                    Some(items) => report matches Ok(read) && read@ == items,
                    None => report matches Err(SerializationError::NotAReport),
                },
            },
    {
        match read_value(text) {
            Err(error) => Err(SerializationError::Json(error)),
            Ok(document) => match PipReport::from_document(&document) {
                Some(report) => Ok(report),
                None => Err(SerializationError::NotAReport),
            },
        }
    }

    /// Reads a report from a JSON document. It reads exactly the documents
    /// that `to_document` writes: of any other document it makes no report.
    pub fn from_document(document: &Value) -> (report: Option<PipReport>)
        ensures
            optional_report(report) == parsed_report(value_doc(*document)),
            report matches Some(report) ==> report_doc(report@) == value_doc(*document),
            report is None ==> forall|items: Seq<ItemView>|
                report_doc(items) != value_doc(*document),
    {
        let members = match as_record(document) {
            Some(members) => members,
            None => {
                return None;
            },
        };
        let ghost views = member_views(members@);
        assert(views.len() == members.len());
        if members.len() != 1 || !has_key(&members[0], "install") {
            proof {
                assert forall|items: Seq<ItemView>| report_doc(items) != value_doc(*document) by {
                    let written = report_doc(items)->Record_0;
                    if written == views {
                        assert(written.len() == 1);
                        assert(written[0].0 == views[0].0);
                    }
                }
            }
            return None;
        }
        match read_items(&members[0].1) {
            Some(install) => {
                let report = PipReport { install };
                proof {
                    assert(report@ == item_views(report.install@));
                    assert(views =~= report_doc(report@)->Record_0);
                    let found = choose|items: Seq<ItemView>|
                        report_doc(items) == value_doc(*document);
                    lemma_report_doc_injective(found, report@);
                }
                Some(report)
            },
            None => {
                proof {
                    assert forall|items: Seq<ItemView>| report_doc(items) != value_doc(
                        *document,
                    ) by {
                        let written = report_doc(items)->Record_0;
                        if written == views {
                            assert(written[0].1 == views[0].1);
                        }
                    }
                }
                None
            },
        }
    }
}
} // verus!

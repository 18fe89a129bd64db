//! The report as a JSON document.

use crate::direct_url::{DirectUrl, DirectUrlView, VcsKind};
use crate::hashes::{ArchiveHashes, HashPair};
use crate::json::{
    clone_value, close_value, compact_text, distinct_keys, pretty_text, value_doc, write_compact,
    write_pretty, JsonDoc, JsonParts, SerializationError,
};
use crate::report::{InstallationReportItem, ItemView, PipReport};
use crate::text::{text_of, texts_of};
use serde_json::Value;
use vstd::prelude::*;

verus! {

/// A member of a record.
pub type Member = (Seq<char>, JsonDoc);

/// The document of an optional text: the text, or null.
pub open spec fn optional_text_doc(text: Option<Seq<char>>) -> JsonDoc {
    match text {
        Some(text) => JsonDoc::Text(text),
        None => JsonDoc::Null,
    }
}

/// The document of a list of texts: a list of them, in order.
pub open spec fn texts_doc(texts: Seq<Seq<char>>) -> JsonDoc {
    JsonDoc::List(texts.map_values(|text: Seq<char>| JsonDoc::Text(text)))
}

/// The document of digests by algorithm: a record with one member for each
/// algorithm, in order.
pub open spec fn hashes_doc(hashes: Seq<HashPair>) -> JsonDoc {
    JsonDoc::Record(hashes.map_values(|pair: HashPair| (pair.0, JsonDoc::Text(pair.1))))
}

/// The name of a version control system in a document.
pub open spec fn vcs_name(kind: VcsKind) -> Seq<char> {
    match kind {
        VcsKind::Git => "git"@,
        VcsKind::Hg => "hg"@,
        VcsKind::Bzr => "bzr"@,
        VcsKind::Svn => "svn"@,
    }
}

/// The document of what a local-directory record says of the directory.
pub open spec fn dir_info_doc(editable: bool) -> JsonDoc {
    JsonDoc::Record(seq![("editable"@, JsonDoc::Bool(editable))])
}

/// The document of what an archive record says of the archive.
pub open spec fn archive_info_doc(hash_algorithm: Option<Seq<char>>, hashes: Seq<HashPair>) -> JsonDoc {
    JsonDoc::Record(
        seq![("hash"@, optional_text_doc(hash_algorithm)), ("hashes"@, hashes_doc(hashes))],
    )
}

/// The document of what a repository record says of the checkout.
pub open spec fn vcs_info_doc(
    vcs_kind: VcsKind,
    commit_id: Option<Seq<char>>,
    requested_revision: Option<Seq<char>>,
) -> JsonDoc {
    JsonDoc::Record(
        seq![
            ("vcs"@, JsonDoc::Text(vcs_name(vcs_kind))),
            ("commit_id"@, optional_text_doc(commit_id)),
            ("requested_revision"@, optional_text_doc(requested_revision)),
        ],
    )
}

/// The document of a direct-URL record. What the record does not have is
/// written as null.
pub open spec fn direct_url_doc(record: DirectUrlView) -> JsonDoc {
    match record {
        DirectUrlView::LocalDirectory { url, editable } => JsonDoc::Record(
            seq![("url"@, JsonDoc::Text(url)), ("dir_info"@, dir_info_doc(editable))],
        ),
        DirectUrlView::ArchiveUrl { url, hash_algorithm, hashes, subdirectory } => JsonDoc::Record(
            seq![
                ("url"@, JsonDoc::Text(url)),
                ("archive_info"@, archive_info_doc(hash_algorithm, hashes)),
                ("subdirectory"@, optional_text_doc(subdirectory)),
            ],
        ),
        DirectUrlView::VcsUrl {
            url,
            vcs_kind,
            commit_id,
            requested_revision,
            subdirectory,
        } => JsonDoc::Record(
            seq![
                ("url"@, JsonDoc::Text(url)),
                ("vcs_info"@, vcs_info_doc(vcs_kind, commit_id, requested_revision)),
                ("subdirectory"@, optional_text_doc(subdirectory)),
            ],
        ),
    }
}

/// The document of the download information of an entry: that of the
/// record, or null where there is none.
pub open spec fn download_info_doc(record: Option<DirectUrlView>) -> JsonDoc {
    match record {
        Some(record) => direct_url_doc(record),
        None => JsonDoc::Null,
    }
}

/// The document of an entry. The extras are a list also where there are none.
pub open spec fn item_doc(item: ItemView) -> JsonDoc {
    JsonDoc::Record(
        seq![
            ("metadata"@, item.metadata),
            ("is-direct"@, JsonDoc::Bool(item.is_direct)),
            ("is-yanked"@, JsonDoc::Bool(item.is_yanked)),
            ("download-info"@, download_info_doc(item.download_info)),
            ("requested"@, JsonDoc::Bool(item.requested)),
            ("requested-extras"@, texts_doc(item.requested_extras)),
        ],
    )
}

/// The document of a list of entries: their documents, in order.
pub open spec fn items_doc(items: Seq<ItemView>) -> JsonDoc {
    JsonDoc::List(items.map_values(|item: ItemView| item_doc(item)))
}

/// The document of a report: its entries, in order, under `install`.
pub open spec fn report_doc(items: Seq<ItemView>) -> JsonDoc {
    JsonDoc::Record(seq![("install"@, items_doc(items))])
}

/// The model of a list of members as the records of this module hold them.
pub open spec fn member_views(members: Seq<(String, Value)>) -> Seq<Member> {
    members.map_values(|m: (String, Value)| (m.0@, value_doc(m.1)))
}

/// The documents of a list of values.
pub open spec fn value_docs(values: Seq<Value>) -> Seq<JsonDoc> {
    values.map_values(|v: Value| value_doc(v))
}

/// The value `null`.
fn null_value() -> (value: Value)
    ensures
        value_doc(value) == JsonDoc::Null,
{
    close_value(JsonParts::Null)
}

/// The value of a truth value.
fn bool_value(flag: bool) -> (value: Value)
    ensures
        value_doc(value) == JsonDoc::Bool(flag),
{
    close_value(JsonParts::Bool(flag))
}

/// The value of a text.
fn text_value(text: &String) -> (value: Value)
    ensures
        value_doc(value) == JsonDoc::Text(text@),
{
    close_value(JsonParts::Text(text.clone()))
}

/// The value of a text that may be absent.
fn optional_text_value(text: &Option<String>) -> (value: Value)
    ensures
        value_doc(value) == optional_text_doc(text_of(*text)),
{
    match text {
        Some(text) => text_value(text),
        None => null_value(),
    }
}

/// The list of the given values.
fn list_value(items: Vec<Value>) -> (value: Value)
    ensures
        value_doc(value) == JsonDoc::List(value_docs(items@)),
{
    close_value(JsonParts::List(items))
}

/// The record of the given members, whose keys are distinct.
fn record_value(members: Vec<(String, Value)>) -> (value: Value)
    requires
        distinct_keys(member_views(members@)),
    ensures
        value_doc(value) == JsonDoc::Record(member_views(members@)),
{
    close_value(JsonParts::Record(members))
}

/// A member of a record.
fn member(key: &str, value: Value) -> (member: (String, Value))
    ensures
        member.0@ == key@,
        member.1 == value,
{
    (key.to_owned(), value)
}

/// The value of a list of texts.
fn texts_value(texts: &Vec<String>) -> (value: Value)
    ensures
        value_doc(value) == texts_doc(texts_of(texts@)),
{
    let mut items: Vec<Value> = Vec::new();
    let mut at: usize = 0;
    while at < texts.len()
        invariant
            at <= texts.len(),
            items.len() == at,
            forall|i: int| 0 <= i < at ==> value_doc(#[trigger] items@[i]) == JsonDoc::Text(texts@[i]@),
        decreases texts.len() - at,
    {
        items.push(text_value(&texts[at]));
        at += 1;
    }
    assert(value_docs(items@) =~= texts_of(texts@).map_values(
        |text: Seq<char>| JsonDoc::Text(text),
    ));
    list_value(items)
}

/// The value of digests by algorithm.
fn hashes_value(hashes: &ArchiveHashes) -> (value: Value)
    ensures
        value_doc(value) == hashes_doc(hashes@),
{
    let entries = hashes.entries();
    let mut members: Vec<(String, Value)> = Vec::new();
    let mut at: usize = 0;
    while at < entries.len()
        invariant
            at <= entries.len(),
            members.len() == at,
            forall|i: int|
                0 <= i < at ==> (#[trigger] members@[i]).0@ == entries@[i].algorithm@ && value_doc(
                    members@[i].1,
                ) == JsonDoc::Text(entries@[i].digest@),
        decreases entries.len() - at,
    {
        members.push((entries[at].algorithm.clone(), text_value(&entries[at].digest)));
        at += 1;
    }
    let ghost views = member_views(members@);
    assert(views =~= hashes@.map_values(|pair: HashPair| (pair.0, JsonDoc::Text(pair.1))));
    assert forall|i: int, j: int| 0 <= i < j < views.len() implies (#[trigger] views[i]).0 != (
    #[trigger] views[j]).0 by {
        assert(hashes@[i].0 == views[i].0);
        assert(hashes@[j].0 == views[j].0);
    }
    record_value(members)
}

/// The keys that stand together in one record differ from each other, and so
/// do the keys and names by which one shape is told from another.
pub(crate) proof fn lemma_keys_differ()
    ensures
        "url"@ != "dir_info"@,
        "url"@ != "archive_info"@,
        "url"@ != "vcs_info"@,
        "url"@ != "subdirectory"@,
        "dir_info"@ != "archive_info"@,
        "dir_info"@ != "vcs_info"@,
        "archive_info"@ != "vcs_info"@,
        "archive_info"@ != "subdirectory"@,
        "vcs_info"@ != "subdirectory"@,
        "hash"@ != "hashes"@,
        "vcs"@ != "commit_id"@,
        "vcs"@ != "requested_revision"@,
        "commit_id"@ != "requested_revision"@,
        "metadata"@ != "is-direct"@,
        "metadata"@ != "is-yanked"@,
        "metadata"@ != "download-info"@,
        "metadata"@ != "requested"@,
        "metadata"@ != "requested-extras"@,
        "is-direct"@ != "is-yanked"@,
        "is-direct"@ != "download-info"@,
        "is-direct"@ != "requested"@,
        "is-direct"@ != "requested-extras"@,
        "is-yanked"@ != "download-info"@,
        "is-yanked"@ != "requested"@,
        "is-yanked"@ != "requested-extras"@,
        "download-info"@ != "requested"@,
        "download-info"@ != "requested-extras"@,
        "requested"@ != "requested-extras"@,
        "git"@ != "hg"@,
        "git"@ != "bzr"@,
        "git"@ != "svn"@,
        "hg"@ != "bzr"@,
        "hg"@ != "svn"@,
        "bzr"@ != "svn"@,
{
    reveal_strlit("url");
    reveal_strlit("dir_info");
    reveal_strlit("archive_info");
    reveal_strlit("vcs_info");
    reveal_strlit("subdirectory");
    reveal_strlit("hash");
    reveal_strlit("hashes");
    reveal_strlit("vcs");
    reveal_strlit("commit_id");
    reveal_strlit("requested_revision");
    reveal_strlit("metadata");
    reveal_strlit("is-direct");
    reveal_strlit("is-yanked");
    reveal_strlit("download-info");
    reveal_strlit("requested");
    reveal_strlit("requested-extras");
    reveal_strlit("git");
    reveal_strlit("hg");
    reveal_strlit("bzr");
    reveal_strlit("svn");
    assert("url"@.len() == 3);
    assert("dir_info"@.len() == 8);
    assert("archive_info"@.len() == 12);
    assert("vcs_info"@.len() == 8);
    assert("subdirectory"@.len() == 12);
    assert("hash"@.len() == 4);
    assert("hashes"@.len() == 6);
    assert("vcs"@.len() == 3);
    assert("commit_id"@.len() == 9);
    assert("requested_revision"@.len() == 18);
    assert("metadata"@.len() == 8);
    assert("is-direct"@.len() == 9);
    assert("is-yanked"@.len() == 9);
    assert("download-info"@.len() == 13);
    assert("requested"@.len() == 9);
    assert("requested-extras"@.len() == 16);
    assert("git"@.len() == 3);
    assert("hg"@.len() == 2);
    assert("bzr"@.len() == 3);
    assert("svn"@.len() == 3);
    assert("dir_info"@[0] != "vcs_info"@[0]);
    assert("archive_info"@[0] != "subdirectory"@[0]);
    assert("is-direct"@[3] != "is-yanked"@[3]);
    assert("is-direct"@[0] != "requested"@[0]);
    assert("is-yanked"@[0] != "requested"@[0]);
    assert("git"@[0] != "bzr"@[0]);
    assert("git"@[0] != "svn"@[0]);
    assert("bzr"@[0] != "svn"@[0]);
}

/// The value of the name of a version control system.
fn vcs_value(kind: VcsKind) -> (value: Value)
    ensures
        value_doc(value) == JsonDoc::Text(vcs_name(kind)),
{
    let name = match kind {
        VcsKind::Git => "git",
        VcsKind::Hg => "hg",
        VcsKind::Bzr => "bzr",
        VcsKind::Svn => "svn",
    };
    text_value(&name.to_owned())
}

/// The value of a direct-URL record.
fn direct_url_value(record: &DirectUrl) -> (value: Value)
    ensures
        value_doc(value) == direct_url_doc(record@),
{
    proof {
        lemma_keys_differ();
    }
    match record {
        DirectUrl::LocalDirectory { url, editable } => {
            let mut info: Vec<(String, Value)> = Vec::new();
            info.push(member("editable", bool_value(*editable)));
            assert(member_views(info@) =~= seq![("editable"@, JsonDoc::Bool(*editable))]);
            let mut members: Vec<(String, Value)> = Vec::new();
            members.push(member("url", text_value(url)));
            members.push(member("dir_info", record_value(info)));
            assert(member_views(members@) =~= direct_url_doc(record@)->Record_0);
            record_value(members)
        },
        DirectUrl::ArchiveUrl { url, hash_algorithm, hashes, subdirectory } => {
            let mut info: Vec<(String, Value)> = Vec::new();
            info.push(member("hash", optional_text_value(hash_algorithm)));
            info.push(member("hashes", hashes_value(hashes)));
            assert(member_views(info@) =~= seq![
                ("hash"@, optional_text_doc(text_of(*hash_algorithm))),
                ("hashes"@, hashes_doc(hashes@)),
            ]);
            let mut members: Vec<(String, Value)> = Vec::new();
            members.push(member("url", text_value(url)));
            members.push(member("archive_info", record_value(info)));
            members.push(member("subdirectory", optional_text_value(subdirectory)));
            assert(member_views(members@) =~= direct_url_doc(record@)->Record_0);
            record_value(members)
        },
        DirectUrl::VcsUrl { url, vcs_kind, commit_id, requested_revision, subdirectory } => {
            let mut info: Vec<(String, Value)> = Vec::new();
            info.push(member("vcs", vcs_value(*vcs_kind)));
            info.push(member("commit_id", optional_text_value(commit_id)));
            info.push(member("requested_revision", optional_text_value(requested_revision)));
            assert(member_views(info@) =~= seq![
                ("vcs"@, JsonDoc::Text(vcs_name(*vcs_kind))),
                ("commit_id"@, optional_text_doc(text_of(*commit_id))),
                ("requested_revision"@, optional_text_doc(text_of(*requested_revision))),
            ]);
            let mut members: Vec<(String, Value)> = Vec::new();
            members.push(member("url", text_value(url)));
            members.push(member("vcs_info", record_value(info)));
            members.push(member("subdirectory", optional_text_value(subdirectory)));
            assert(member_views(members@) =~= direct_url_doc(record@)->Record_0);
            record_value(members)
        },
    }
}

/// The value of an entry.
fn item_value(item: &InstallationReportItem) -> (value: Value)
    ensures
        value_doc(value) == item_doc(item@),
{
    proof {
        lemma_keys_differ();
    }
    let download_info = match &item.download_info {
        Some(record) => direct_url_value(record),
        None => null_value(),
    };
    let mut members: Vec<(String, Value)> = Vec::new();
    members.push(member("metadata", clone_value(&item.metadata)));
    members.push(member("is-direct", bool_value(item.is_direct)));
    members.push(member("is-yanked", bool_value(item.is_yanked)));
    members.push(member("download-info", download_info));
    members.push(member("requested", bool_value(item.requested)));
    members.push(member("requested-extras", texts_value(&item.requested_extras)));
    assert(member_views(members@) =~= item_doc(item@)->Record_0);
    record_value(members)
}

impl PipReport {
    /// The report as JSON text without white space: the compact text of the
    /// report's document. Every report is written.
    pub fn to_json(&self) -> (text: Result<String, SerializationError>)
        ensures
            text matches Ok(text) && text@ == compact_text(report_doc(self@)),
    {
        match write_compact(&self.to_document()) {
            Ok(text) => Ok(text),
            Err(error) => Err(SerializationError::Json(error)),
        }
    }

    /// The report as indented JSON text: the indented text of the same
    /// document that `to_json` writes. Every report is written.
    pub fn to_json_pretty(&self) -> (text: Result<String, SerializationError>)
        ensures
            text matches Ok(text) && text@ == pretty_text(report_doc(self@)),
    {
        match write_pretty(&self.to_document()) {
            Ok(text) => Ok(text),
            Err(error) => Err(SerializationError::Json(error)),
        }
    }

    /// The report as a JSON document.
    pub fn to_document(&self) -> (document: Value)
        ensures
            value_doc(document) == report_doc(self@),
    {
        let mut items: Vec<Value> = Vec::new();
        let mut at: usize = 0;
        while at < self.install.len()
            invariant
                at <= self.install.len(),
                items.len() == at,
                forall|i: int|
                    0 <= i < at ==> value_doc(#[trigger] items@[i]) == item_doc(self.install@[i]@),
            decreases self.install.len() - at,
        {
            items.push(item_value(&self.install[at]));
            at += 1;
        }
        assert(value_docs(items@) =~= self@.map_values(|item: ItemView| item_doc(item)));
        let mut members: Vec<(String, Value)> = Vec::new();
        members.push(member("install", list_value(items)));
        assert(member_views(members@) =~= report_doc(self@)->Record_0);
        record_value(members)
    }
}
/// Two lists of texts with the same document are the same.
pub proof fn lemma_texts_doc_injective(a: Seq<Seq<char>>, b: Seq<Seq<char>>)
    requires
        texts_doc(a) == texts_doc(b),
    ensures
        a == b,
{
    let left = a.map_values(|text: Seq<char>| JsonDoc::Text(text));
    let right = b.map_values(|text: Seq<char>| JsonDoc::Text(text));
    assert(left == right);
    assert(a.len() == left.len());
    assert(b.len() == right.len());
    assert forall|i: int| 0 <= i < a.len() implies a[i] == b[i] by {
        assert(left[i] == JsonDoc::Text(a[i]));
        assert(right[i] == JsonDoc::Text(b[i]));
    }
    assert(a =~= b);
}

/// Two mappings of digests with the same document are the same.
pub proof fn lemma_hashes_doc_injective(a: Seq<HashPair>, b: Seq<HashPair>)
    requires
        hashes_doc(a) == hashes_doc(b),
    ensures
        a == b,
{
    let left = a.map_values(|pair: HashPair| (pair.0, JsonDoc::Text(pair.1)));
    let right = b.map_values(|pair: HashPair| (pair.0, JsonDoc::Text(pair.1)));
    assert(left == right);
    assert(a.len() == left.len());
    assert(b.len() == right.len());
    assert forall|i: int| 0 <= i < a.len() implies a[i] == b[i] by {
        assert(left[i] == (a[i].0, JsonDoc::Text(a[i].1)));
        assert(right[i] == (b[i].0, JsonDoc::Text(b[i].1)));
    }
    assert(a =~= b);
}

/// Two direct-URL records with the same document are the same.
pub proof fn lemma_direct_url_doc_injective(a: DirectUrlView, b: DirectUrlView)
    requires
        direct_url_doc(a) == direct_url_doc(b),
    ensures
        a == b,
{
    lemma_keys_differ();
    let left = direct_url_doc(a)->Record_0;
    let right = direct_url_doc(b)->Record_0;
    assert(left == right);
    assert(left.len() == right.len());
    assert(left[0] == right[0]);
    assert(left[1] == right[1]);
    match a {
        DirectUrlView::LocalDirectory { .. } => {
            assert(b is LocalDirectory);
            let x = dir_info_doc(a->editable)->Record_0;
            let y = dir_info_doc(b->editable)->Record_0;
            assert(x[0] == y[0]);
        },
        DirectUrlView::ArchiveUrl { .. } => {
            assert(left[2] == right[2]);
            assert(b is ArchiveUrl);
            let x = archive_info_doc(a->hash_algorithm, a->hashes)->Record_0;
            let y = archive_info_doc(b->hash_algorithm, b->hashes)->Record_0;
            assert(x[0] == y[0]);
            assert(x[1] == y[1]);
            lemma_hashes_doc_injective(a->hashes, b->hashes);
        },
        DirectUrlView::VcsUrl { .. } => {
            assert(left[2] == right[2]);
            assert(b is VcsUrl);
            let x = vcs_info_doc(a->vcs_kind, a->commit_id, a->requested_revision)->Record_0;
            let y = vcs_info_doc(b->vcs_kind, b->commit_id, b->requested_revision)->Record_0;
            assert(x[0] == y[0]);
            assert(x[1] == y[1]);
            assert(x[2] == y[2]);
        },
    }
}

/// Two entries with the same document are the same.
pub proof fn lemma_item_doc_injective(a: ItemView, b: ItemView)
    requires
        item_doc(a) == item_doc(b),
    ensures
        a == b,
{
    let left = item_doc(a)->Record_0;
    let right = item_doc(b)->Record_0;
    assert(left == right);
    assert(left[0] == right[0]);
    assert(left[1] == right[1]);
    assert(left[2] == right[2]);
    assert(left[3] == right[3]);
    assert(left[4] == right[4]);
    assert(left[5] == right[5]);
    lemma_texts_doc_injective(a.requested_extras, b.requested_extras);
    match (a.download_info, b.download_info) {
        (Some(x), Some(y)) => {
            lemma_direct_url_doc_injective(x, y);
        },
        _ => {},
    }
}

/// A document belongs to one report at most.
pub proof fn lemma_report_doc_injective(a: Seq<ItemView>, b: Seq<ItemView>)
    requires
        report_doc(a) == report_doc(b),
    ensures
        a == b,
{
    let left = report_doc(a)->Record_0;
    let right = report_doc(b)->Record_0;
    assert(left == right);
    assert(left[0] == right[0]);
    let x = a.map_values(|item: ItemView| item_doc(item));
    let y = b.map_values(|item: ItemView| item_doc(item));
    assert(x == y);
    assert(a.len() == x.len());
    assert(b.len() == y.len());
    assert forall|i: int| 0 <= i < a.len() implies a[i] == b[i] by {
        assert(x[i] == item_doc(a[i]));
        assert(y[i] == item_doc(b[i]));
        lemma_item_doc_injective(a[i], b[i]);
    }
    assert(a =~= b);
}

/// The report that a document holds: the one report whose document it is, if
/// it is the document of a report.
pub open spec fn parsed_report(document: JsonDoc) -> Option<Seq<ItemView>> {
    if exists|items: Seq<ItemView>| report_doc(items) == document {
        Some(choose|items: Seq<ItemView>| report_doc(items) == document)
    } else {
        None
    }
}

/// Reading the document of a report gives the report back.
pub proof fn lemma_document_round_trip(items: Seq<ItemView>)
    ensures
        parsed_report(report_doc(items)) == Some(items),
{
    let document = report_doc(items);
    assert(report_doc(items) == document);
    let found = choose|found: Seq<ItemView>| report_doc(found) == document;
    lemma_report_doc_injective(found, items);
}

/// Writing the report that was read from a document gives the document back.
pub proof fn lemma_report_round_trip(document: JsonDoc)
    ensures
        parsed_report(document) matches Some(items) ==> report_doc(items) == document,
{
}
} // verus!

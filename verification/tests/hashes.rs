use report_types::hashes::{ArchiveHashes, HashDigest};
use report_types::text::to_hex;

fn digest(algorithm: &str, digest: &str) -> HashDigest {
    HashDigest { algorithm: algorithm.to_string(), digest: digest.to_string() }
}

#[test]
fn aggregation_is_last_write_wins() {
    let hashes = ArchiveHashes::aggregate(&vec![digest("sha256", "A"), digest("sha256", "B")]);
    assert_eq!(hashes.len(), 1);
    assert_eq!(hashes.get(&"sha256".to_string()), Some(&"B".to_string()));
    assert_eq!(hashes.entries(), &vec![digest("sha256", "B")]);
}

#[test]
fn aggregation_keeps_the_order_of_first_occurrence() {
    let hashes = ArchiveHashes::aggregate(
        &vec![
            digest("sha512", "one"),
            digest("md5", "two"),
            digest("sha512", "three"),
            digest("sha256", "four"),
            digest("md5", "five"),
        ],
    );
    assert_eq!(
        hashes.entries(),
        &vec![digest("sha512", "three"), digest("md5", "five"), digest("sha256", "four")]
    );
}

#[test]
fn aggregation_depends_on_the_order_of_the_pairs() {
    let forward = ArchiveHashes::aggregate(&vec![digest("sha256", "A"), digest("sha256", "B")]);
    let backward = ArchiveHashes::aggregate(&vec![digest("sha256", "B"), digest("sha256", "A")]);
    assert_eq!(forward.get(&"sha256".to_string()), Some(&"B".to_string()));
    assert_eq!(backward.get(&"sha256".to_string()), Some(&"A".to_string()));
    assert_ne!(forward, backward);
}

#[test]
fn aggregation_of_nothing_is_empty() {
    let hashes = ArchiveHashes::aggregate(&Vec::new());
    assert_eq!(hashes.len(), 0);
    assert_eq!(hashes, ArchiveHashes::new());
    assert_eq!(hashes.get(&"sha256".to_string()), None);
}

#[test]
fn insert_replaces_in_place_and_appends_new_algorithms() {
    let hashes = ArchiveHashes::new()
        .insert("sha256".to_string(), "first".to_string())
        .insert("md5".to_string(), "second".to_string())
        .insert("sha256".to_string(), "third".to_string());
    assert_eq!(hashes.len(), 2);
    assert_eq!(hashes.entries(), &vec![digest("sha256", "third"), digest("md5", "second")]);
    assert_eq!(hashes.get(&"md5".to_string()), Some(&"second".to_string()));
    assert_eq!(hashes.get(&"sha1".to_string()), None);
}

#[test]
fn a_copy_of_a_mapping_equals_it() {
    let hashes = ArchiveHashes::aggregate(&vec![digest("sha256", "A"), digest("md5", "B")]);
    assert_eq!(hashes.clone(), hashes);
}

#[test]
fn hexadecimal_text_has_two_lower_case_digits_for_each_byte() {
    assert_eq!(to_hex(&vec![0x00, 0x0f, 0xa5, 0xff]), "000fa5ff");
    assert_eq!(to_hex(&vec![0x12, 0x34, 0x56, 0x78, 0x9a, 0xbc, 0xde, 0xf0]), "123456789abcdef0");
    assert_eq!(to_hex(&Vec::new()), "");
}

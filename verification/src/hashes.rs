//! Hash digests of a distribution, and their aggregation by algorithm.

use vstd::prelude::*;

verus! {

/// A digest of a distribution file under one hash algorithm.
#[derive(Debug, Clone, PartialEq, Eq)]
pub struct HashDigest {
    pub algorithm: String,
    pub digest: String,
}

/// An algorithm name with the digest recorded for it.
pub type HashPair = (Seq<char>, Seq<char>);

impl View for HashDigest {
    type V = HashPair;

    open spec fn view(&self) -> HashPair {
        (self.algorithm@, self.digest@)
    }
}

/// The pairs of a sequence of digests, in order.
pub open spec fn digest_pairs(digests: Seq<HashDigest>) -> Seq<HashPair> {
    digests.map_values(|d: HashDigest| d@)
}

/// No algorithm occurs twice.
pub open spec fn distinct_algorithms(pairs: Seq<HashPair>) -> bool {
    forall|i: int, j: int|
        0 <= i < j < pairs.len() ==> (#[trigger] pairs[i]).0 != (#[trigger] pairs[j]).0
}

/// The place of an algorithm in a mapping: the least index that holds it, or
/// the mapping's length where none does.
pub open spec fn position(pairs: Seq<HashPair>, algorithm: Seq<char>) -> int
    decreases pairs.len(),
{
    if pairs.len() == 0 {
        0
    } else if pairs[0].0 == algorithm {
        0
    } else {
        1 + position(pairs.drop_first(), algorithm)
    }
}

/// Records a digest for an algorithm: it replaces the digest that the mapping
/// holds for the algorithm, in place, or else is added at the end.
pub open spec fn record(pairs: Seq<HashPair>, algorithm: Seq<char>, digest: Seq<char>) -> Seq<
    HashPair,
> {
    let at = position(pairs, algorithm);
    if at < pairs.len() {
        pairs.update(at, (algorithm, digest))
    } else {
        pairs.push((algorithm, digest))
    }
}

/// The mapping that results from recording the pairs one after another: each
/// algorithm stands where it first occurred, with the digest of its last
/// occurrence.
pub open spec fn aggregate(pairs: Seq<HashPair>) -> Seq<HashPair>
    decreases pairs.len(),
{
    if pairs.len() == 0 {
        Seq::empty()
    } else {
        record(aggregate(pairs.drop_last()), pairs.last().0, pairs.last().1)
    }
}

/// Where `position` points, and what lies before it.
pub proof fn lemma_position(pairs: Seq<HashPair>, algorithm: Seq<char>)
    ensures
        0 <= position(pairs, algorithm) <= pairs.len(),
        position(pairs, algorithm) < pairs.len() ==> pairs[position(pairs, algorithm)].0
            == algorithm,
        forall|i: int| 0 <= i < position(pairs, algorithm) ==> (#[trigger] pairs[i]).0 != algorithm,
    decreases pairs.len(),
{
    if pairs.len() > 0 && pairs[0].0 != algorithm {
        let rest = pairs.drop_first();
        lemma_position(rest, algorithm);
        assert forall|i: int| 0 <= i < position(pairs, algorithm) implies (#[trigger] pairs[i]).0
            != algorithm by {
            if i > 0 {
                assert(rest[i - 1] == pairs[i]);
            }
        }
    }
}

/// Recording keeps the algorithms distinct.
pub proof fn lemma_record_distinct(pairs: Seq<HashPair>, algorithm: Seq<char>, digest: Seq<char>)
    requires
        distinct_algorithms(pairs),
    ensures
        distinct_algorithms(record(pairs, algorithm, digest)),
{
    lemma_position(pairs, algorithm);
    let at = position(pairs, algorithm);
    let after = record(pairs, algorithm, digest);
    assert forall|i: int, j: int| 0 <= i < j < after.len() implies (#[trigger] after[i]).0 != (
    #[trigger] after[j]).0 by {
        if at < pairs.len() {
            assert(after[i].0 == pairs[i].0);
            assert(after[j].0 == pairs[j].0);
        } else {
            if j < pairs.len() {
                assert(after[i] == pairs[i]);
                assert(after[j] == pairs[j]);
            } else {
                assert(after[i] == pairs[i]);
            }
        }
    }
}

/// Recording moves nothing: every algorithm stays where it stood, and every
/// entry of another algorithm stays as it was.
pub proof fn lemma_record_keeps_places(
    pairs: Seq<HashPair>,
    algorithm: Seq<char>,
    digest: Seq<char>,
)
    ensures
        record(pairs, algorithm, digest).len() >= pairs.len(),
        forall|i: int|
            0 <= i < pairs.len() ==> (#[trigger] record(pairs, algorithm, digest)[i]).0
                == pairs[i].0,
        forall|i: int|
            0 <= i < pairs.len() && pairs[i].0 != algorithm ==> #[trigger] record(
                pairs,
                algorithm,
                digest,
            )[i] == pairs[i],
{
    lemma_position(pairs, algorithm);
}

/// In an aggregated mapping no algorithm occurs twice.
pub proof fn lemma_aggregate_distinct(pairs: Seq<HashPair>)
    ensures
        distinct_algorithms(aggregate(pairs)),
    decreases pairs.len(),
{
    if pairs.len() > 0 {
        lemma_aggregate_distinct(pairs.drop_last());
        lemma_record_distinct(aggregate(pairs.drop_last()), pairs.last().0, pairs.last().1);
    }
}

/// The digest that a mapping holds for an algorithm, if it holds one.
pub open spec fn lookup(pairs: Seq<HashPair>, algorithm: Seq<char>) -> Option<Seq<char>> {
    let at = position(pairs, algorithm);
    if at < pairs.len() {
        Some(pairs[at].1)
    } else {
        None
    }
}

/// What a mapping holds after a digest was recorded: the new digest for its
/// algorithm, and for every other algorithm what it held before.
pub proof fn lemma_record_lookup(
    pairs: Seq<HashPair>,
    algorithm: Seq<char>,
    digest: Seq<char>,
    other: Seq<char>,
)
    ensures
        lookup(record(pairs, algorithm, digest), algorithm) == Some(digest),
        other != algorithm ==> lookup(record(pairs, algorithm, digest), other) == lookup(
            pairs,
            other,
        ),
{
    let after = record(pairs, algorithm, digest);
    lemma_position(pairs, algorithm);
    lemma_position(pairs, other);
    lemma_position(after, algorithm);
    lemma_position(after, other);
    let at = position(pairs, algorithm);
    if at < pairs.len() {
        assert(after[at].0 == algorithm);
        assert(forall|i: int| 0 <= i < pairs.len() ==> (#[trigger] after[i]).0 == pairs[i].0);
    } else {
        assert(after[pairs.len() as int].0 == algorithm);
        assert(forall|i: int| 0 <= i < pairs.len() ==> #[trigger] after[i] == pairs[i]);
    }
    if position(after, algorithm) < at {
        assert(after[position(after, algorithm)].0 == pairs[position(after, algorithm)].0);
    }
    if other != algorithm {
        let before = position(pairs, other);
        let now = position(after, other);
        if before < pairs.len() {
            assert(after[before].0 == other);
            if now < before {
                assert(after[now].0 == pairs[now].0);
            }
        } else if now < after.len() {
            if now < pairs.len() {
                assert(after[now].0 == pairs[now].0);
            }
        }
    }
}

/// Aggregation is last-write-wins: for the algorithm of the pair at `last`,
/// where no later pair has the same algorithm, the aggregated mapping holds the
/// digest of that pair.
pub proof fn lemma_last_write_wins(pairs: Seq<HashPair>, last: int)
    requires
        0 <= last < pairs.len(),
        forall|j: int| last < j < pairs.len() ==> (#[trigger] pairs[j]).0 != pairs[last].0,
    ensures
        lookup(aggregate(pairs), pairs[last].0) == Some(pairs[last].1),
    decreases pairs.len(),
{
    let front = pairs.drop_last();
    if last == pairs.len() - 1 {
        lemma_record_lookup(aggregate(front), pairs.last().0, pairs.last().1, pairs[last].0);
    } else {
        assert(front[last] == pairs[last]);
        assert forall|j: int| last < j < front.len() implies (#[trigger] front[j]).0
            != front[last].0 by {
            assert(front[j] == pairs[j]);
        }
        lemma_last_write_wins(front, last);
        lemma_record_lookup(aggregate(front), pairs.last().0, pairs.last().1, pairs[last].0);
    }
}

/// An aggregated mapping holds a digest for an algorithm exactly where some
/// pair has that algorithm.
pub proof fn lemma_aggregate_covers(pairs: Seq<HashPair>, algorithm: Seq<char>)
    ensures
        lookup(aggregate(pairs), algorithm) is Some <==> exists|i: int|
            0 <= i < pairs.len() && (#[trigger] pairs[i]).0 == algorithm,
    decreases pairs.len(),
{
    if pairs.len() == 0 {
        lemma_position(aggregate(pairs), algorithm);
    } else {
        let front = pairs.drop_last();
        lemma_aggregate_covers(front, algorithm);
        lemma_record_lookup(aggregate(front), pairs.last().0, pairs.last().1, algorithm);
        if lookup(aggregate(pairs), algorithm) is Some {
            if pairs.last().0 == algorithm {
                assert(pairs[pairs.len() - 1].0 == algorithm);
            } else {
                let i = choose|i: int| 0 <= i < front.len() && (#[trigger] front[i]).0 == algorithm;
                assert(pairs[i] == front[i]);
            }
        }
        if exists|i: int| 0 <= i < pairs.len() && (#[trigger] pairs[i]).0 == algorithm {
            let i = choose|i: int| 0 <= i < pairs.len() && (#[trigger] pairs[i]).0 == algorithm;
            if pairs.last().0 != algorithm {
                assert(front[i] == pairs[i]);
            }
        }
    }
}

/// Digests by algorithm: at most one digest for each algorithm, the algorithms
/// in the order in which they were first recorded.
#[derive(Debug, PartialEq, Eq)]
pub struct ArchiveHashes {
    entries: Vec<HashDigest>,
}

impl View for ArchiveHashes {
    type V = Seq<HashPair>;

    closed spec fn view(&self) -> Seq<HashPair> {
        digest_pairs(self.entries@)
    }
}

impl Clone for ArchiveHashes {
    fn clone(&self) -> (copy: Self)
        ensures
            copy@ == self@,
    {
        proof {
            use_type_invariant(self);
        }
        let mut entries: Vec<HashDigest> = Vec::new();
        let mut at: usize = 0;
        while at < self.entries.len()
            invariant
                at <= self.entries.len(),
                entries.len() == at,
                forall|i: int| 0 <= i < at ==> (#[trigger] entries@[i])@ == self.entries@[i]@,
            decreases self.entries.len() - at,
        {
            let algorithm = self.entries[at].algorithm.clone();
            let digest = self.entries[at].digest.clone();
            entries.push(HashDigest { algorithm, digest });
            at += 1;
        }
        assert(digest_pairs(entries@) =~= self@);
        ArchiveHashes { entries }
    }
}

impl ArchiveHashes {
    #[verifier::type_invariant]
    spec fn distinct(self) -> bool {
        distinct_algorithms(self@)
    }

    /// The mapping that holds no digest.
    pub fn new() -> (hashes: Self)
        ensures
            hashes@ == Seq::<HashPair>::empty(),
    {
        let hashes = ArchiveHashes { entries: Vec::new() };
        assert(hashes@ =~= Seq::<HashPair>::empty());
        hashes
    }

    /// The mapping that holds the given entries, which have distinct
    /// algorithms.
    pub(crate) fn from_distinct(entries: Vec<HashDigest>) -> (hashes: Self)
        requires
            distinct_algorithms(digest_pairs(entries@)),
        ensures
            hashes@ == digest_pairs(entries@),
    {
        ArchiveHashes { entries }
    }

    /// How many algorithms have a digest.
    pub fn len(&self) -> (n: usize)
        ensures
            n == self@.len(),
    {
        self.entries.len()
    }

    /// The entries, in order: one for each algorithm.
    pub fn entries(&self) -> (entries: &Vec<HashDigest>)
        ensures
            digest_pairs(entries@) == self@,
            distinct_algorithms(self@),
    {
        proof {
            use_type_invariant(self);
        }
        &self.entries
    }

    /// The index of the entry that holds an algorithm, or the number of entries
    /// where none holds it.
    fn find(&self, algorithm: &String) -> (at: usize)
        ensures
            at == position(self@, algorithm@),
            at <= self.entries.len(),
    {
        let mut at: usize = 0;
        while at < self.entries.len()
            invariant
                at <= self.entries.len(),
                forall|i: int| 0 <= i < at ==> (#[trigger] self@[i]).0 != algorithm@,
            decreases self.entries.len() - at,
        {
            if self.entries[at].algorithm == *algorithm {
                proof {
                    lemma_position(self@, algorithm@);
                    assert(self@[at as int].0 == algorithm@);
                }
                return at;
            }
            at += 1;
        }
        proof {
            lemma_position(self@, algorithm@);
        }
        at
    }

    /// The digest held for an algorithm, if there is one.
    pub fn get(&self, algorithm: &String) -> (digest: Option<&String>)
        ensures
            crate::text::text_of_ref(digest) == lookup(self@, algorithm@),
    {
        let at = self.find(algorithm);
        if at < self.entries.len() {
            Some(&self.entries[at].digest)
        } else {
            None
        }
    }

    /// Records a digest for an algorithm. A digest that was held for the same
    /// algorithm is replaced where it stands: the last one recorded wins.
    pub fn insert(self, algorithm: String, digest: String) -> (hashes: Self)
        ensures
            hashes@ == record(self@, algorithm@, digest@),
    {
        proof {
            use_type_invariant(&self);
            lemma_record_distinct(self@, algorithm@, digest@);
        }
        let at = self.find(&algorithm);
        let ghost before = self@;
        let mut entries = self.entries;
        if at < entries.len() {
            entries.set(at, HashDigest { algorithm, digest });
        } else {
            entries.push(HashDigest { algorithm, digest });
        }
        assert(digest_pairs(entries@) =~= record(before, algorithm@, digest@));
        ArchiveHashes { entries }
    }

    /// Records the digests one after another, in the order given.
    pub fn aggregate(digests: &Vec<HashDigest>) -> (hashes: Self)
        ensures
            hashes@ == aggregate(digest_pairs(digests@)),
    {
        let mut hashes = ArchiveHashes::new();
        let mut done: usize = 0;
        while done < digests.len()
            invariant
                done <= digests.len(),
                hashes@ == aggregate(digest_pairs(digests@).take(done as int)),
            decreases digests.len() - done,
        {
            let ghost pairs = digest_pairs(digests@);
            let algorithm = digests[done].algorithm.clone();
            let digest = digests[done].digest.clone();
            hashes = hashes.insert(algorithm, digest);
            proof {
                assert(pairs.take(done + 1).drop_last() =~= pairs.take(done as int));
                assert(pairs.take(done + 1).last() == pairs[done as int]);
            }
            done += 1;
        }
        assert(digest_pairs(digests@).take(done as int) =~= digest_pairs(digests@));
        hashes
    }
}

} // verus!

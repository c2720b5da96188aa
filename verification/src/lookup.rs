//! The index of duplicates: for each content digest, the positions of the
//! records that carry it, in the order in which the records were scanned.

use vstd::hash_map::StringHashMap;
use vstd::prelude::*;

verus! {

/// The records that share one digest.
#[derive(Debug)]
pub struct Bucket {
    /// The digest that the members share.
    pub hash: String,
    /// The positions of the members in the sequence of records, in the
    /// order in which they came in.
    pub members: Vec<usize>,
}

/// The mathematical content of a bucket.
pub struct BucketView {
    pub hash: Seq<char>,
    pub members: Seq<int>,
}

impl View for Bucket {
    type V = BucketView;

    open spec fn view(&self) -> BucketView {
        BucketView { hash: self.hash@, members: self.members@.map_values(|p: usize| p as int) }
    }
}

/// The position of the bucket for digest `hash`, or -1 where no bucket has it.
pub open spec fn bucket_index(buckets: Seq<BucketView>, hash: Seq<char>) -> int
    decreases buckets.len(),
{
    if buckets.len() == 0 {
        -1
    } else if buckets.last().hash == hash {
        buckets.len() - 1
    } else {
        bucket_index(buckets.drop_last(), hash)
    }
}

/// The buckets after the record at `position` with digest `hash` came in:
/// a record without a digest changes nothing, a digest seen before gets the
/// position at the end of its bucket, a new digest gets a new last bucket.
pub open spec fn inserted(buckets: Seq<BucketView>, hash: Seq<char>, position: int) -> Seq<
    BucketView,
> {
    if hash.len() == 0 {
        buckets
    } else if bucket_index(buckets, hash) >= 0 {
        let k = bucket_index(buckets, hash);
        buckets.update(k, BucketView { hash: hash, members: buckets[k].members.push(position) })
    } else {
        buckets.push(BucketView { hash: hash, members: seq![position] })
    }
}

/// The index of a sequence of digests, one for each record and empty where
/// the record has none: the records are taken in order, each with its
/// position.
pub open spec fn indexed(hashes: Seq<Seq<char>>) -> Seq<BucketView>
    decreases hashes.len(),
{
    if hashes.len() == 0 {
        Seq::empty()
    } else {
        inserted(indexed(hashes.drop_last()), hashes.last(), hashes.len() - 1)
    }
}

/// A bucket with two members or more is a group of duplicates; a bucket
/// with one member stands for a file like no other.
pub open spec fn is_duplicate_group(bucket: BucketView) -> bool {
    bucket.members.len() >= 2
}

/// The groups of duplicates among the buckets, in the order of the buckets.
pub open spec fn duplicate_groups(buckets: Seq<BucketView>) -> Seq<BucketView>
    decreases buckets.len(),
{
    if buckets.len() == 0 {
        Seq::empty()
    } else if is_duplicate_group(buckets.last()) {
        duplicate_groups(buckets.drop_last()).push(buckets.last())
    } else {
        duplicate_groups(buckets.drop_last())
    }
}

/// The groups of duplicates are the buckets with two members or more, and
/// no others.
pub proof fn lemma_duplicate_groups(buckets: Seq<BucketView>)
    ensures
        duplicate_groups(buckets).len() <= buckets.len(),
        forall|group: BucketView| #[trigger]
            duplicate_groups(buckets).contains(group) <==> buckets.contains(group)
                && is_duplicate_group(group),
    decreases buckets.len(),
{
    if buckets.len() > 0 {
        let rest = buckets.drop_last();
        let groups = duplicate_groups(buckets);
        lemma_duplicate_groups(rest);
        assert forall|group: BucketView| #[trigger]
            groups.contains(group) <==> buckets.contains(group) && is_duplicate_group(
                group,
            ) by {
            let earlier = duplicate_groups(rest);
            if groups.contains(group) {
                let found = choose|found: int| 0 <= found < groups.len() && groups[found] == group;
                if found < earlier.len() {
                    assert(earlier[found] == group);
                    assert(earlier.contains(group));
                    let at = choose|at: int| 0 <= at < rest.len() && rest[at] == group;
                    assert(buckets[at] == group);
                } else {
                    assert(buckets[buckets.len() - 1] == group);
                }
            }
            if buckets.contains(group) && is_duplicate_group(group) {
                let at = choose|at: int| 0 <= at < buckets.len() && buckets[at] == group;
                if at < rest.len() {
                    assert(rest[at] == group);
                    assert(rest.contains(group));
                    assert(earlier.contains(group));
                    let found = choose|found: int|
                        0 <= found < earlier.len() && earlier[found] == group;
                    assert(groups[found] == group);
                } else {
                    assert(groups[groups.len() - 1] == group);
                }
            }
        }
    }
}

/// What it is for `buckets` to index `hashes`.
pub open spec fn indexes(buckets: Seq<BucketView>, hashes: Seq<Seq<char>>) -> bool {
    // No bucket is empty or stands for the empty digest.
    &&& forall|k: int|
        0 <= k < buckets.len() ==> (#[trigger] buckets[k]).hash.len() > 0
            && buckets[k].members.len() > 0
    // No two buckets stand for the same digest.
    &&& forall|k: int, l: int|
        0 <= k < l < buckets.len() ==> (#[trigger] buckets[k]).hash != (#[trigger] buckets[l]).hash
    // The members of a bucket are the positions that carry its digest,
    &&& forall|k: int, i: int|
        0 <= k < buckets.len() ==> (#[trigger] buckets[k].members.contains(i) <==> 0 <= i
            < hashes.len() && hashes[i] == buckets[k].hash)
    // in ascending order.
    &&& forall|k: int, a: int, b: int|
        0 <= k < buckets.len() && 0 <= a < b < buckets[k].members.len()
            ==> #[trigger] buckets[k].members[a] < #[trigger] buckets[k].members[b]
    // Every digest has its bucket.
    &&& forall|i: int|
        0 <= i < hashes.len() && (#[trigger] hashes[i]).len() > 0 ==> bucket_index(
            buckets,
            hashes[i],
        ) >= 0
    // The buckets stand in the order in which their digests first occurred.
    &&& forall|k: int, l: int|
        0 <= k < l < buckets.len() ==> (#[trigger] buckets[k]).members[0]
            < (#[trigger] buckets[l]).members[0]
}

/// The index of duplicates. Its buckets stand in the order in which their
/// digests first came in; a table from digest to bucket finds the bucket of
/// a digest in one step.
pub struct DuplicateIndex {
    slots: StringHashMap<usize>,
    buckets: Vec<Bucket>,
}

impl DuplicateIndex {
    /// The table holds exactly the digests of the buckets, each with the
    /// position of its bucket.
    #[verifier::type_invariant]
    spec fn slots_match_buckets(self) -> bool {
        &&& forall|i: int|
            0 <= i < self.buckets@.len() ==> self.slots@.contains_key(
                (#[trigger] self.buckets@[i]).hash@,
            ) && self.slots@[self.buckets@[i].hash@] == i
        &&& forall|h: Seq<char>| #[trigger]
            self.slots@.contains_key(h) ==> self.slots@[h] < self.buckets@.len()
                && self.buckets@[self.slots@[h] as int].hash@ == h
    }

    /// The buckets, in the order in which their digests first came in.
    pub closed spec fn view(&self) -> Seq<BucketView> {
        self.buckets@.map_values(|b: Bucket| b@)
    }

    proof fn lemma_slot(self, hash: Seq<char>)
        requires
            self.slots_match_buckets(),
        ensures
            self.slots@.contains_key(hash) ==> bucket_index(self@, hash) == self.slots@[hash],
            !self.slots@.contains_key(hash) ==> bucket_index(self@, hash) == -1,
    {
        lemma_bucket_index(self@, hash);
        if self.slots@.contains_key(hash) {
            // No two buckets share a digest: the table has one slot for each.
            assert forall|a: int, b: int| 0 <= a < b < self@.len() implies (
            #[trigger] self@[a]).hash != (#[trigger] self@[b]).hash by {}
            lemma_bucket_index_unique(self@, self.slots@[hash] as int);
        }
    }

    /// An index without buckets.
    pub fn new() -> (r: Self)
        ensures
            r@ == Seq::<BucketView>::empty(),
    {
        DuplicateIndex { slots: StringHashMap::new(), buckets: Vec::new() }
    }

    /// Takes in the record at `position`, which carries the digest `hash`.
    /// A record without a digest is not taken in.
    pub fn insert(&mut self, hash: &str, position: usize)
        ensures
            final(self)@ == inserted(old(self)@, hash@, position as int),
    {
        proof {
            use_type_invariant(&*self);
            self.lemma_slot(hash@);
        }
        if hash.is_empty() {
            return ;
        }
        let mut taken = DuplicateIndex::new();
        std::mem::swap(self, &mut taken);
        let DuplicateIndex { mut slots, mut buckets } = taken;
        match slots.get(hash) {
            Some(slot) => {
                let slot: usize = *slot;
                buckets[slot].members.push(position);
            },
            None => {
                let slot: usize = buckets.len();
                let mut members: Vec<usize> = Vec::new();
                members.push(position);
                buckets.push(Bucket { hash: hash.to_owned(), members });
                slots.insert(hash.to_owned(), slot);
            },
        }
        *self = DuplicateIndex { slots, buckets };
        assert(final(self)@ =~= inserted(old(self)@, hash@, position as int)) by {
            let after = inserted(old(self)@, hash@, position as int);
            assert forall|k: int| 0 <= k < after.len() implies final(self)@[k] == after[k] by {
                assert(final(self)@[k].members =~= after[k].members);
            }
        }
    }

    /// The members of the bucket for digest `hash`, where there is one.
    pub fn get(&self, hash: &str) -> (r: Option<&Vec<usize>>)
        ensures
            match r {
                Some(members) => bucket_index(self@, hash@) >= 0 && members@.map_values(
                    |p: usize| p as int,
                ) == self@[bucket_index(self@, hash@)].members,
                None => bucket_index(self@, hash@) == -1,
            },
    {
        proof {
            use_type_invariant(self);
            self.lemma_slot(hash@);
        }
        match self.slots.get(hash) {
            Some(slot) => Some(&self.buckets[*slot].members),
            None => None,
        }
    }

    /// The buckets, in the order in which their digests first came in.
    pub fn buckets(&self) -> (r: &Vec<Bucket>)
        ensures
            r@.map_values(|b: Bucket| b@) == self@,
    {
        &self.buckets
    }

    /// The groups of duplicates: the buckets with two members or more, in
    /// the order of the buckets.
    pub fn duplicate_groups(&self) -> (r: Vec<&Bucket>)
        ensures
            r@.map_values(|b: &Bucket| b@) == duplicate_groups(self@),
            r@.len() <= self@.len(),
            forall|k: int| 0 <= k < r@.len() ==> (#[trigger] r@[k]).members@.len() >= 2,
    {
        proof {
            lemma_duplicate_groups(self@);
            assert forall|k: int| 0 <= k < duplicate_groups(self@).len() implies (
            #[trigger] duplicate_groups(self@)[k]).members.len() >= 2 by {
                assert(duplicate_groups(self@).contains(duplicate_groups(self@)[k]));
            }
        }
        let mut groups: Vec<&Bucket> = Vec::new();
        let mut i: usize = 0;
        while i < self.buckets.len()
            invariant
                i <= self.buckets@.len(),
                groups@.map_values(|b: &Bucket| b@) == duplicate_groups(self@.take(i as int)),
            decreases self.buckets@.len() - i,
        {
            assert(self@.take(i + 1).drop_last() == self@.take(i as int));
            if self.buckets[i].members.len() >= 2 {
                groups.push(&self.buckets[i]);
            }
            i += 1;
        }
        proof {
            assert(self@.take(i as int) == self@);
            assert forall|k: int| 0 <= k < groups@.len() implies (
            #[trigger] groups@[k]).members@.len() >= 2 by {
                assert(groups@.map_values(|b: &Bucket| b@)[k] == groups@[k]@);
            }
        }
        groups
    }

    /// The number of buckets.
    pub fn len(&self) -> (r: usize)
        ensures
            r == self@.len(),
    {
        self.buckets.len()
    }

    /// Whether the index holds no bucket.
    pub fn is_empty(&self) -> (r: bool)
        ensures
            r == (self@.len() == 0),
    {
        self.buckets.len() == 0
    }
}

/// `bucket_index` finds the bucket of a digest exactly where there is one.
pub proof fn lemma_bucket_index(buckets: Seq<BucketView>, hash: Seq<char>)
    ensures
        -1 <= bucket_index(buckets, hash) < buckets.len(),
        bucket_index(buckets, hash) >= 0 ==> buckets[bucket_index(buckets, hash)].hash == hash,
        bucket_index(buckets, hash) == -1 ==> forall|k: int|
            0 <= k < buckets.len() ==> (#[trigger] buckets[k]).hash != hash,
    decreases buckets.len(),
{
    if buckets.len() > 0 && buckets.last().hash != hash {
        lemma_bucket_index(buckets.drop_last(), hash);
        if bucket_index(buckets, hash) == -1 {
            assert forall|k: int| 0 <= k < buckets.len() implies (#[trigger] buckets[k]).hash
                != hash by {
                if k < buckets.len() - 1 {
                    assert(buckets.drop_last()[k].hash != hash);
                }
            }
        }
    }
}

/// Where no two buckets share a digest, `bucket_index` is the position of
/// the one bucket that has it.
pub proof fn lemma_bucket_index_unique(buckets: Seq<BucketView>, k: int)
    requires
        0 <= k < buckets.len(),
        forall|a: int, b: int|
            0 <= a < b < buckets.len() ==> (#[trigger] buckets[a]).hash
                != (#[trigger] buckets[b]).hash,
    ensures
        bucket_index(buckets, buckets[k].hash) == k,
{
    lemma_bucket_index(buckets, buckets[k].hash);
}

/// Taking in one more record keeps the index an index.
pub proof fn lemma_inserted_indexes(
    buckets: Seq<BucketView>,
    hashes: Seq<Seq<char>>,
    hash: Seq<char>,
)
    requires
        indexes(buckets, hashes),
    ensures
        indexes(inserted(buckets, hash, hashes.len() as int), hashes.push(hash)),
{
    let position = hashes.len() as int;
    let after = inserted(buckets, hash, position);
    let longer = hashes.push(hash);
    let home = bucket_index(buckets, hash);
    lemma_bucket_index(buckets, hash);
    // The buckets that were there keep their digests and their places.
    assert forall|k: int| 0 <= k < buckets.len() implies (#[trigger] after[k]).hash
        == buckets[k].hash by {}
    // Every digest has its bucket: the one it had, or the new one.
    assert forall|i: int|
        0 <= i < longer.len() && (#[trigger] longer[i]).len() > 0 implies bucket_index(
        after,
        longer[i],
    ) >= 0 by {
        lemma_bucket_index(after, longer[i]);
        if i < hashes.len() {
            lemma_bucket_index(buckets, hashes[i]);
            assert(after[bucket_index(buckets, hashes[i])].hash == hashes[i]);
        } else if home >= 0 {
            assert(after[home].hash == hash);
        } else {
            assert(after[buckets.len() as int].hash == hash);
        }
    }
    // The members of a bucket are still the positions that carry its digest.
    assert forall|k: int, i: int| 0 <= k < after.len() implies (
    #[trigger] after[k].members.contains(i) <==> 0 <= i < longer.len() && longer[i]
        == after[k].hash) by {
        if hash.len() > 0 && k == home {
            let grown = buckets[home].members.push(position);
            if grown.contains(i) {
                let at = choose|at: int| 0 <= at < grown.len() && grown[at] == i;
                if at < buckets[home].members.len() {
                    assert(buckets[home].members.contains(i));
                }
            }
            if 0 <= i < longer.len() && longer[i] == hash {
                if i < hashes.len() {
                    assert(buckets[home].members.contains(i));
                    let at = choose|at: int|
                        0 <= at < buckets[home].members.len() && buckets[home].members[at] == i;
                    assert(grown[at] == i);
                } else {
                    assert(grown[grown.len() - 1] == i);
                }
            }
        } else if hash.len() > 0 && home < 0 && k == buckets.len() {
            if 0 <= i < longer.len() && longer[i] == hash {
                assert(seq![position][0] == i);
            }
        }
    }
    // The new position is greater than every position that was there.
    assert forall|k: int, a: int, b: int|
        0 <= k < after.len() && 0 <= a < b < after[k].members.len() implies
        #[trigger] after[k].members[a] < #[trigger] after[k].members[b] by {
        if hash.len() > 0 && k == home && b == buckets[home].members.len() {
            assert(buckets[home].members.contains(buckets[home].members[a]));
        }
    }
    assert forall|k: int, l: int| 0 <= k < l < after.len() implies (#[trigger] after[k]).members[0]
        < (#[trigger] after[l]).members[0] by {
        if l == buckets.len() {
            assert(buckets[k].members.contains(buckets[k].members[0]));
        }
    }
}

/// The index of a sequence of digests holds one bucket for each digest
/// that occurs, in the order of first occurrence, and each bucket holds the
/// positions that carry its digest, in ascending order.
pub proof fn lemma_indexed(hashes: Seq<Seq<char>>)
    ensures
        indexes(indexed(hashes), hashes),
    decreases hashes.len(),
{
    if hashes.len() > 0 {
        lemma_indexed(hashes.drop_last());
        lemma_inserted_indexes(indexed(hashes.drop_last()), hashes.drop_last(), hashes.last());
        assert(hashes.drop_last().push(hashes.last()) == hashes);
    }
}

} // verus!

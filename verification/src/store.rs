//! The storage engine as the library sees it: byte values under text keys, in
//! partitions that are named by text and come into being when first written to.

use crate::text::{listed_once, name_set};
use vstd::prelude::*;

verus! {

/// What a store holds: the stored bytes by partition and key.
pub type StoreMap = Map<(Seq<char>, Seq<char>), Seq<u8>>;

/// What one partition holds: the stored bytes by key.
pub type Entries = Map<Seq<char>, Seq<u8>>;

/// The entries of one partition of a store. A partition that was never
/// written to has none.
pub open spec fn entries_of(store: StoreMap, partition: Seq<char>) -> Entries {
    Map::new(
        |key: Seq<char>| store.contains_key((partition, key)),
        |key: Seq<char>| store[(partition, key)],
    )
}

/// No partition but `partition` holds other entries in `after` than in `before`.
pub open spec fn untouched_elsewhere(before: StoreMap, after: StoreMap, partition: Seq<char>) -> bool {
    forall|other: Seq<char>|
        other != partition ==> #[trigger] entries_of(after, other) == entries_of(before, other)
}

/// Writing under a key of one partition adds to that partition's entries and
/// to no other's.
pub proof fn lemma_insert_entries(
    store: StoreMap,
    partition: Seq<char>,
    key: Seq<char>,
    bytes: Seq<u8>,
)
    ensures
        entries_of(store.insert((partition, key), bytes), partition) == entries_of(
            store,
            partition,
        ).insert(key, bytes),
        untouched_elsewhere(store, store.insert((partition, key), bytes), partition),
{
    let after = store.insert((partition, key), bytes);
    assert(entries_of(after, partition) =~= entries_of(store, partition).insert(key, bytes));
    assert forall|other: Seq<char>| other != partition implies #[trigger] entries_of(after, other)
        == entries_of(store, other) by {
        assert(entries_of(after, other) =~= entries_of(store, other));
    }
}

/// Dropping a key of one partition takes from that partition's entries and
/// from no other's.
pub proof fn lemma_remove_entries(store: StoreMap, partition: Seq<char>, key: Seq<char>)
    ensures
        entries_of(store.remove((partition, key)), partition) == entries_of(
            store,
            partition,
        ).remove(key),
        untouched_elsewhere(store, store.remove((partition, key)), partition),
{
    let after = store.remove((partition, key));
    assert(entries_of(after, partition) =~= entries_of(store, partition).remove(key));
    assert forall|other: Seq<char>| other != partition implies #[trigger] entries_of(after, other)
        == entries_of(store, other) by {
        assert(entries_of(after, other) =~= entries_of(store, other));
    }
}

/// One stored entry: its partition, its key, and its value as the bytes that
/// are persisted.
struct Record {
    partition: String,
    key: String,
    value: Vec<u8>,
}

/// The partition and key under which the record at `i` is stored.
spec fn key_at(records: Seq<Record>, i: int) -> (Seq<char>, Seq<char>) {
    (records[i].partition@, records[i].key@)
}

/// Some record is stored under `key`.
spec fn holds(records: Seq<Record>, key: (Seq<char>, Seq<char>)) -> bool {
    exists|i: int| 0 <= i < records.len() && key_at(records, i) == key
}

/// A position at which `key` is stored.
spec fn place_of(records: Seq<Record>, key: (Seq<char>, Seq<char>)) -> int {
    choose|i: int| 0 <= i < records.len() && key_at(records, i) == key
}

/// No two records share partition and key.
spec fn distinct_keys(records: Seq<Record>) -> bool {
    forall|i: int, j: int|
        0 <= i < j < records.len() ==> key_at(records, i) != key_at(records, j)
}

/// The store that a list of records stands for.
spec fn records_map(records: Seq<Record>) -> StoreMap {
    Map::new(
        |key: (Seq<char>, Seq<char>)| holds(records, key),
        |key: (Seq<char>, Seq<char>)| records[place_of(records, key)].value@,
    )
}

proof fn lemma_record_at(records: Seq<Record>, i: int)
    requires
        distinct_keys(records),
        0 <= i < records.len(),
    ensures
        records_map(records).contains_key(key_at(records, i)),
        records_map(records)[key_at(records, i)] == records[i].value@,
{
    let key = key_at(records, i);
    assert(holds(records, key));
    let j = place_of(records, key);
    assert(j == i) by {
        if j < i {
            assert(key_at(records, j) != key_at(records, i));
        } else if i < j {
            assert(key_at(records, i) != key_at(records, j));
        }
    }
}

proof fn lemma_push(records: Seq<Record>, record: Record)
    requires
        distinct_keys(records),
        !holds(records, (record.partition@, record.key@)),
    ensures
        distinct_keys(records.push(record)),
        records_map(records.push(record)) == records_map(records).insert(
            (record.partition@, record.key@),
            record.value@,
        ),
{
    let key = (record.partition@, record.key@);
    let longer = records.push(record);
    assert forall|i: int, j: int| 0 <= i < j < longer.len() implies key_at(longer, i) != key_at(
        longer,
        j,
    ) by {
        if j == records.len() {
            assert(key_at(longer, i) == key_at(records, i));
            assert(!holds(records, key));
        } else {
            assert(key_at(longer, i) == key_at(records, i));
            assert(key_at(longer, j) == key_at(records, j));
        }
    }
    let expected = records_map(records).insert(key, record.value@);
    let grown = records_map(longer);
    assert forall|k: (Seq<char>, Seq<char>)| #[trigger] grown.contains_key(k) implies expected.contains_key(k) by {
        let i = place_of(longer, k);
        if i < records.len() {
            assert(key_at(records, i) == k);
        }
    }
    assert forall|k: (Seq<char>, Seq<char>)| #[trigger] expected.contains_key(k) implies grown.contains_key(k) && grown[k] == expected[k] by {
        if k == key {
            assert(key_at(longer, records.len() as int) == k);
            lemma_record_at(longer, records.len() as int);
        } else {
            assert(records_map(records).contains_key(k));
            let i = place_of(records, k);
            assert(key_at(longer, i) == k);
            lemma_record_at(longer, i);
            lemma_record_at(records, i);
        }
    }
    assert(grown =~= expected);
}

proof fn lemma_remove(records: Seq<Record>, at: int)
    requires
        distinct_keys(records),
        0 <= at < records.len(),
    ensures
        distinct_keys(records.remove(at)),
        records_map(records.remove(at)) == records_map(records).remove(key_at(records, at)),
{
    let key = key_at(records, at);
    let shorter = records.remove(at);
    assert forall|i: int| 0 <= i < shorter.len() implies key_at(shorter, i) == key_at(
        records,
        if i < at {
            i
        } else {
            i + 1
        },
    ) by {}
    assert forall|i: int, j: int| 0 <= i < j < shorter.len() implies key_at(shorter, i) != key_at(
        shorter,
        j,
    ) by {
        let oi = if i < at { i } else { i + 1 };
        let oj = if j < at { j } else { j + 1 };
        assert(key_at(shorter, i) == key_at(records, oi));
        assert(key_at(shorter, j) == key_at(records, oj));
    }
    let expected = records_map(records).remove(key);
    let shrunk = records_map(shorter);
    assert forall|k: (Seq<char>, Seq<char>)| #[trigger] shrunk.contains_key(k) implies expected.contains_key(k) && shrunk[k] == expected[k] by {
        let i = place_of(shorter, k);
        let oi = if i < at { i } else { i + 1 };
        assert(key_at(shorter, i) == key_at(records, oi));
        assert(key_at(records, oi) == k);
        if oi < at {
            assert(key_at(records, oi) != key_at(records, at));
        } else {
            assert(key_at(records, at) != key_at(records, oi));
        }
        lemma_record_at(shorter, i);
        lemma_record_at(records, oi);
    }
    assert forall|k: (Seq<char>, Seq<char>)| #[trigger] expected.contains_key(k) implies shrunk.contains_key(k) by {
        assert(records_map(records).contains_key(k));
        let oi = place_of(records, k);
        assert(oi != at);
        let i = if oi < at { oi } else { oi - 1 };
        assert(key_at(shorter, i) == key_at(records, oi));
    }
    assert(shrunk =~= expected);
}

/// A store of byte values under text keys, in partitions named by text.
pub struct Store {
    records: Vec<Record>,
}

impl View for Store {
    type V = StoreMap;

    closed spec fn view(&self) -> StoreMap {
        records_map(self.records@)
    }
}

impl Store {
    #[verifier::type_invariant]
    spec fn well_formed(&self) -> bool {
        distinct_keys(self.records@)
    }

    /// The entries of one partition.
    pub open spec fn entries(&self, partition: Seq<char>) -> Entries {
        entries_of(self@, partition)
    }

    /// A store that holds nothing.
    pub fn new() -> (store: Store)
        ensures
            store@ == Map::<(Seq<char>, Seq<char>), Seq<u8>>::empty(),
    {
        let store = Store { records: Vec::new() };
        assert(store@ =~= Map::<(Seq<char>, Seq<char>), Seq<u8>>::empty());
        store
    }

    /// The position of the record of this partition and key, if there is one.
    fn find(&self, partition: &String, key: &String) -> (at: Option<usize>)
        ensures
            match at {
                Some(i) => i < self.records@.len() && key_at(self.records@, i as int) == (
                    partition@,
                    key@,
                ),
                None => !holds(self.records@, (partition@, key@)),
            },
    {
        let mut i: usize = 0;
        while i < self.records.len()
            invariant
                i <= self.records@.len(),
                forall|j: int| 0 <= j < i ==> key_at(self.records@, j) != (partition@, key@),
            decreases self.records@.len() - i,
        {
            if self.records[i].partition == *partition && self.records[i].key == *key {
                return Some(i);
            }
            i += 1;
        }
        None
    }

    /// The bytes stored under a key of a partition, if any are.
    pub fn get(&self, partition: &str, key: &str) -> (value: Option<&Vec<u8>>)
        ensures
            match value {
                Some(bytes) => self@.contains_key((partition@, key@)) && bytes@ == self@[(
                    partition@,
                    key@,
                )],
                None => !self@.contains_key((partition@, key@)),
            },
    {
        proof {
            use_type_invariant(self);
        }
        match self.find(&partition.to_owned(), &key.to_owned()) {
            Some(at) => {
                proof {
                    lemma_record_at(self.records@, at as int);
                }
                Some(&self.records[at].value)
            },
            None => None,
        }
    }

    /// Whether anything is stored under a key of a partition.
    pub fn contains_key(&self, partition: &str, key: &str) -> (found: bool)
        ensures
            found == self@.contains_key((partition@, key@)),
    {
        self.get(partition, key).is_some()
    }

    /// Stores bytes under a key of a partition, in place of what was stored
    /// there.
    pub fn insert(&mut self, partition: &str, key: &str, value: Vec<u8>)
        ensures
            final(self)@ == old(self)@.insert((partition@, key@), value@),
    {
        proof {
            use_type_invariant(&*self);
        }
        let partition = partition.to_owned();
        let key = key.to_owned();
        let ghost place = (partition@, key@);
        let found = self.find(&partition, &key);
        let mut records: Vec<Record> = Vec::new();
        core::mem::swap(&mut self.records, &mut records);
        match found {
            Some(at) => {
                proof {
                    lemma_remove(records@, at as int);
                }
                records.remove(at);
            },
            None => {},
        }
        let ghost before = records@;
        assert(!holds(before, place)) by {
            if holds(before, place) {
                assert(records_map(before).contains_key(place));
            }
        }
        let record = Record { partition, key, value };
        proof {
            lemma_push(before, record);
        }
        records.push(record);
        self.records = records;
        assert(self@ =~= old(self)@.insert(place, value@));
    }

    /// Drops what is stored under a key of a partition, and tells whether
    /// anything was.
    pub fn remove(&mut self, partition: &str, key: &str) -> (found: bool)
        ensures
            found == old(self)@.contains_key((partition@, key@)),
            final(self)@ == old(self)@.remove((partition@, key@)),
    {
        proof {
            use_type_invariant(&*self);
        }
        match self.find(&partition.to_owned(), &key.to_owned()) {
            Some(at) => {
                proof {
                    lemma_record_at(self.records@, at as int);
                    lemma_remove(self.records@, at as int);
                }
                let mut records: Vec<Record> = Vec::new();
                core::mem::swap(&mut self.records, &mut records);
                records.remove(at);
                self.records = records;
                true
            },
            None => {
                assert(self@ =~= old(self)@.remove((partition@, key@)));
                false
            },
        }
    }

    /// The keys of a partition, each once, in no promised order.
    pub fn keys(&self, partition: &str) -> (keys: Vec<String>)
        ensures
            name_set(keys@) == self.entries(partition@).dom(),
            listed_once(keys@),
    {
        proof {
            use_type_invariant(self);
        }
        let partition = partition.to_owned();
        let mut keys: Vec<String> = Vec::new();
        let ghost mut origin: Seq<int> = Seq::empty();
        let mut i: usize = 0;
        while i < self.records.len()
            invariant
                i <= self.records@.len(),
                distinct_keys(self.records@),
                origin.len() == keys@.len(),
                forall|j: int|
                    0 <= j < keys@.len() ==> 0 <= #[trigger] origin[j] < i && key_at(
                        self.records@,
                        origin[j],
                    ) == (partition@, keys@[j]@),
                forall|j: int, k: int| 0 <= j < k < keys@.len() ==> origin[j] < origin[k],
                forall|at: int|
                    0 <= at < i && #[trigger] self.records@[at].partition@ == partition@
                        ==> exists|j: int| 0 <= j < keys@.len() && origin[j] == at,
            decreases self.records@.len() - i,
        {
            let ghost seen = origin;
            if self.records[i].partition == partition {
                keys.push(self.records[i].key.clone());
                proof {
                    origin = origin.push(i as int);
                }
            }
            proof {
                assert forall|at: int|
                    0 <= at < i + 1 && #[trigger] self.records@[at].partition@
                        == partition@ implies exists|j: int|
                    0 <= j < keys@.len() && origin[j] == at by {
                    if at < i {
                        let j = choose|j: int| 0 <= j < seen.len() && seen[j] == at;
                        assert(origin[j] == at);
                    } else {
                        assert(origin[keys@.len() - 1] == at);
                    }
                }
            }
            i += 1;
        }
        proof {
            let listed = name_set(keys@);
            let stored = self.entries(partition@).dom();
            assert forall|n: Seq<char>| listed.contains(n) implies stored.contains(n) by {
                let j = choose|j: int| 0 <= j < keys@.len() && keys@[j]@ == n;
                assert(key_at(self.records@, origin[j]) == (partition@, n));
                lemma_record_at(self.records@, origin[j]);
            }
            assert forall|n: Seq<char>| stored.contains(n) implies listed.contains(n) by {
                assert(holds(self.records@, (partition@, n)));
                let at = place_of(self.records@, (partition@, n));
                assert(self.records@[at].partition@ == partition@);
                let j = choose|j: int| 0 <= j < keys@.len() && origin[j] == at;
                assert(keys@[j]@ == n);
            }
            assert(listed =~= stored);
            assert forall|j: int, k: int| 0 <= j < k < keys@.len() implies keys@[j]@ != keys@[k]@ by {
                assert(origin[j] < origin[k]);
                assert(key_at(self.records@, origin[j]) != key_at(self.records@, origin[k]));
            }
        }
        keys
    }
}

} // verus!

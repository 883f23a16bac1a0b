//! Records kept by their natural key.
//!
//! A table holds at most one record for each key. Writing a record under a
//! key that is present replaces the record in place; writing under a new key
//! appends it. A record can be marked stale, and a write clears the mark.
use vstd::prelude::*;

verus! {

/// The natural key of a record: the cluster, and up to two further
/// identifiers within it. Parts that a kind of record does not use are empty.
#[derive(Debug, PartialEq, Eq)]
pub struct RecordKey {
    pub cluster_id: String,
    pub owner: String,
    pub item: String,
}

/// What a `RecordKey` holds.
pub struct RecordKeyView {
    pub cluster_id: Seq<char>,
    pub owner: Seq<char>,
    pub item: Seq<char>,
}

impl View for RecordKey {
    type V = RecordKeyView;

    open spec fn view(&self) -> RecordKeyView {
        RecordKeyView { cluster_id: self.cluster_id@, owner: self.owner@, item: self.item@ }
    }
}

impl Clone for RecordKey {
    fn clone(&self) -> (out: Self)
        ensures
            out@ == self@,
    {
        RecordKey {
            cluster_id: self.cluster_id.clone(),
            owner: self.owner.clone(),
            item: self.item.clone(),
        }
    }
}

/// The key of a record kept once for each cluster.
pub open spec fn cluster_key(cluster_id: Seq<char>) -> RecordKeyView {
    RecordKeyView { cluster_id, owner: Seq::empty(), item: Seq::empty() }
}

/// The key of a record kept once for each name, such as a header.
pub open spec fn name_key(name: Seq<char>) -> RecordKeyView {
    cluster_key(name)
}

/// The key of a record kept once for each `owner` within a cluster.
pub open spec fn pair_key(cluster_id: Seq<char>, owner: Seq<char>) -> RecordKeyView {
    RecordKeyView { cluster_id, owner, item: Seq::empty() }
}

/// The key of a record kept once for each `item` of an `owner` within a cluster.
pub open spec fn triple_key(cluster_id: Seq<char>, owner: Seq<char>, item: Seq<char>)
    -> RecordKeyView {
    RecordKeyView { cluster_id, owner, item }
}

impl RecordKey {
    /// The key of a record kept once for each cluster.
    pub fn cluster(cluster_id: &str) -> (key: RecordKey)
        ensures
            key@ == cluster_key(cluster_id@),
    {
        RecordKey { cluster_id: cluster_id.to_owned(), owner: String::new(), item: String::new() }
    }

    /// The key of a record kept once for each name, such as a header.
    pub fn named(name: &str) -> (key: RecordKey)
        ensures
            key@ == name_key(name@),
    {
        RecordKey::cluster(name)
    }

    /// The key of a record kept once for each `owner` within a cluster.
    pub fn pair(cluster_id: &str, owner: &str) -> (key: RecordKey)
        ensures
            key@ == pair_key(cluster_id@, owner@),
    {
        RecordKey { cluster_id: cluster_id.to_owned(), owner: owner.to_owned(), item: String::new() }
    }

    /// The key of a record kept once for each `item` of an `owner` within a cluster.
    pub fn triple(cluster_id: &str, owner: &str, item: &str) -> (key: RecordKey)
        ensures
            key@ == triple_key(cluster_id@, owner@, item@),
    {
        RecordKey {
            cluster_id: cluster_id.to_owned(),
            owner: owner.to_owned(),
            item: item.to_owned(),
        }
    }

    /// Whether both keys hold the same parts.
    pub fn same(&self, other: &RecordKey) -> (same: bool)
        ensures
            same == (self@ == other@),
    {
        self.cluster_id == other.cluster_id && self.owner == other.owner && self.item == other.item
    }
}

/// One record of a table: its key, what it holds, and whether it is stale.
pub struct EntryView<T> {
    pub key: RecordKeyView,
    pub value: T,
    pub stale: bool,
}

/// Whether some record of `entries` is kept under `key`.
pub open spec fn has_key<T>(entries: Seq<EntryView<T>>, key: RecordKeyView) -> bool {
    exists|i: int| 0 <= i < entries.len() && (#[trigger] entries[i]).key == key
}

/// The position of a record kept under `key`, where there is one.
pub open spec fn index_of<T>(entries: Seq<EntryView<T>>, key: RecordKeyView) -> int {
    choose|i: int| 0 <= i < entries.len() && (#[trigger] entries[i]).key == key
}

/// No two records are kept under the same key.
pub open spec fn distinct_keys<T>(entries: Seq<EntryView<T>>) -> bool {
    forall|i: int, j: int|
        0 <= i < j < entries.len() ==> (#[trigger] entries[i]).key != (#[trigger] entries[j]).key
}

/// The record kept under `key`, if any.
pub open spec fn lookup<T>(entries: Seq<EntryView<T>>, key: RecordKeyView) -> Option<
    EntryView<T>,
> {
    if has_key(entries, key) {
        Some(entries[index_of(entries, key)])
    } else {
        None
    }
}

/// The table after `value` is written under `key`: the record under `key` is
/// replaced where it stands, or else the new record goes to the end. Either
/// way the record is not stale.
pub open spec fn upserted<T>(entries: Seq<EntryView<T>>, key: RecordKeyView, value: T) -> Seq<
    EntryView<T>,
> {
    let entry = EntryView { key, value, stale: false };
    if has_key(entries, key) {
        entries.update(index_of(entries, key), entry)
    } else {
        entries.push(entry)
    }
}

/// The table after every record of `cluster_id` is marked stale.
pub open spec fn staled<T>(entries: Seq<EntryView<T>>, cluster_id: Seq<char>) -> Seq<
    EntryView<T>,
> {
    Seq::new(
        entries.len(),
        |i: int|
            if entries[i].key.cluster_id == cluster_id {
                EntryView { stale: true, ..entries[i] }
            } else {
                entries[i]
            },
    )
}

/// What the records of `cluster_id` that are not stale hold, in the order kept.
pub open spec fn fresh_values<T>(entries: Seq<EntryView<T>>, cluster_id: Seq<char>) -> Seq<T>
    decreases entries.len(),
{
    if entries.len() == 0 {
        Seq::empty()
    } else {
        let rest = fresh_values(entries.drop_last(), cluster_id);
        if entries.last().key.cluster_id == cluster_id && !entries.last().stale {
            rest.push(entries.last().value)
        } else {
            rest
        }
    }
}

/// In a table with distinct keys the record under `key` stands at one position only.
pub proof fn lemma_index_unique<T>(entries: Seq<EntryView<T>>, key: RecordKeyView, i: int)
    requires
        distinct_keys(entries),
        0 <= i < entries.len(),
        entries[i].key == key,
    ensures
        has_key(entries, key),
        index_of(entries, key) == i,
        lookup(entries, key) == Some(entries[i]),
{
    let j = index_of(entries, key);
    assert(0 <= j < entries.len() && entries[j].key == key);
    if j < i {
        assert(entries[j].key != entries[i].key);
    }
    if i < j {
        assert(entries[i].key != entries[j].key);
    }
}

/// A table with distinct keys holds at most one record for each key: any two
/// records under the same key are one and the same.
pub proof fn lemma_at_most_one_record<T>(entries: Seq<EntryView<T>>, i: int, j: int)
    requires
        distinct_keys(entries),
        0 <= i < entries.len(),
        0 <= j < entries.len(),
        entries[i].key == entries[j].key,
    ensures
        i == j,
{
    if i < j {
        assert(entries[i].key != entries[j].key);
    }
    if j < i {
        assert(entries[j].key != entries[i].key);
    }
}

/// A write keeps the keys distinct: a table never holds two records for one key.
pub proof fn lemma_upsert_keeps_distinct<T>(
    entries: Seq<EntryView<T>>,
    key: RecordKeyView,
    value: T,
)
    requires
        distinct_keys(entries),
    ensures
        distinct_keys(upserted(entries, key, value)),
{
    let after = upserted(entries, key, value);
    if has_key(entries, key) {
        let at = index_of(entries, key);
        assert forall|i: int, j: int| 0 <= i < j < after.len() implies (#[trigger] after[i]).key
            != (#[trigger] after[j]).key by {
            assert(after[i].key == entries[i].key);
            assert(after[j].key == entries[j].key);
        }
    } else {
        assert forall|i: int, j: int| 0 <= i < j < after.len() implies (#[trigger] after[i]).key
            != (#[trigger] after[j]).key by {
            if j == entries.len() {
                assert(entries[i].key != key);
            } else {
                assert(after[i].key == entries[i].key);
                assert(after[j].key == entries[j].key);
            }
        }
    }
}

/// What was written under a key is what is read back under it, not stale;
/// records under other keys read as before.
pub proof fn lemma_lookup_after_upsert<T>(
    entries: Seq<EntryView<T>>,
    key: RecordKeyView,
    value: T,
    other: RecordKeyView,
)
    requires
        distinct_keys(entries),
    ensures
        lookup(upserted(entries, key, value), key) == Some(EntryView { key, value, stale: false }),
        other != key ==> lookup(upserted(entries, key, value), other) == lookup(entries, other),
{
    let after = upserted(entries, key, value);
    lemma_upsert_keeps_distinct(entries, key, value);
    let at = if has_key(entries, key) {
        index_of(entries, key)
    } else {
        entries.len() as int
    };
    assert(after[at].key == key);
    lemma_index_unique(after, key, at);
    if other != key {
        if has_key(entries, other) {
            let o = index_of(entries, other);
            assert(after[o] == entries[o]);
            lemma_index_unique(after, other, o);
        } else {
            if has_key(after, other) {
                let o = index_of(after, other);
                assert(after[o].key == other);
                assert(o < entries.len());
                assert(entries[o].key == other);
                assert(false);
            }
        }
    }
}

/// Writing the same record twice is the same as writing it once.
pub proof fn lemma_upsert_idempotent<T>(entries: Seq<EntryView<T>>, key: RecordKeyView, value: T)
    requires
        distinct_keys(entries),
    ensures
        upserted(upserted(entries, key, value), key, value) == upserted(entries, key, value),
{
    let once = upserted(entries, key, value);
    lemma_upsert_keeps_distinct(entries, key, value);
    let at = if has_key(entries, key) {
        index_of(entries, key)
    } else {
        entries.len() as int
    };
    assert(once[at].key == key);
    lemma_index_unique(once, key, at);
    assert(upserted(once, key, value) =~= once);
}

/// Marking a cluster stale changes no key, so the keys stay distinct.
pub proof fn lemma_staled_keeps_distinct<T>(entries: Seq<EntryView<T>>, cluster_id: Seq<char>)
    requires
        distinct_keys(entries),
    ensures
        distinct_keys(staled(entries, cluster_id)),
{
    let after = staled(entries, cluster_id);
    assert forall|i: int, j: int| 0 <= i < j < after.len() implies (#[trigger] after[i]).key != (
    #[trigger] after[j]).key by {
        assert(after[i].key == entries[i].key);
        assert(after[j].key == entries[j].key);
    }
}

/// Records kept by their natural key, in the order in which their keys were
/// first written.
pub struct Table<V> {
    keys: Vec<RecordKey>,
    values: Vec<V>,
    marks: Vec<bool>,
}

impl<V: DeepView> View for Table<V> {
    type V = Seq<EntryView<V::V>>;

    closed spec fn view(&self) -> Seq<EntryView<V::V>> {
        Seq::new(
            self.keys@.len(),
            |i: int|
                EntryView {
                    key: self.keys@[i]@,
                    value: self.values@[i].deep_view(),
                    stale: self.marks@[i],
                },
        )
    }
}

impl<V: DeepView> Table<V> {
    /// The table is in a state that its operations produce: in particular no
    /// two of its records share a key.
    pub closed spec fn well_formed(&self) -> bool {
        &&& self.keys@.len() == self.values@.len()
        &&& self.keys@.len() == self.marks@.len()
        &&& distinct_keys(self@)
    }

    /// A well-formed table never holds two records for one key.
    pub proof fn lemma_distinct(&self)
        requires
            self.well_formed(),
        ensures
            distinct_keys(self@),
    {
    }

    /// An empty table.
    pub fn new() -> (table: Table<V>)
        ensures
            table.well_formed(),
            table@ == Seq::<EntryView<V::V>>::empty(),
    {
        let table = Table { keys: Vec::new(), values: Vec::new(), marks: Vec::new() };
        assert(table@ =~= Seq::<EntryView<V::V>>::empty());
        table
    }

    /// The number of records.
    pub fn len(&self) -> (len: usize)
        requires
            self.well_formed(),
        ensures
            len == self@.len(),
    {
        self.keys.len()
    }

    /// The position of the record kept under `key`, if there is one.
    pub fn position(&self, key: &RecordKey) -> (at: Option<usize>)
        requires
            self.well_formed(),
        ensures
            at matches Some(i) ==> i < self@.len() && index_of(self@, key@) == i,
            at is Some == has_key(self@, key@),
    {
        let mut i: usize = 0;
        while i < self.keys.len()
            invariant
                i <= self.keys@.len(),
                self.well_formed(),
                forall|j: int| 0 <= j < i ==> (#[trigger] self@[j]).key != key@,
            decreases self.keys.len() - i,
        {
            if self.keys[i].same(key) {
                proof {
                    assert(self@[i as int].key == key@);
                    lemma_index_unique(self@, key@, i as int);
                }
                return Some(i);
            }
            i += 1;
        }
        None
    }

    /// The record kept under `key`, if there is one.
    pub fn get(&self, key: &RecordKey) -> (found: Option<&V>)
        requires
            self.well_formed(),
        ensures
            match found {
                Some(value) => lookup(self@, key@) matches Some(entry) && entry.value
                    == value.deep_view(),
                None => lookup(self@, key@) is None,
            },
    {
        match self.position(key) {
            Some(i) => Some(&self.values[i]),
            None => None,
        }
    }

    /// Whether the record kept under `key` is stale, if there is one.
    pub fn is_stale(&self, key: &RecordKey) -> (found: Option<bool>)
        requires
            self.well_formed(),
        ensures
            match found {
                Some(stale) => lookup(self@, key@) matches Some(entry) && entry.stale == stale,
                None => lookup(self@, key@) is None,
            },
    {
        match self.position(key) {
            Some(i) => Some(self.marks[i]),
            None => None,
        }
    }

    /// The key of the record at position `i`.
    pub fn key_at(&self, i: usize) -> (key: &RecordKey)
        requires
            self.well_formed(),
            i < self@.len(),
        ensures
            key@ == self@[i as int].key,
    {
        &self.keys[i]
    }

    /// What the record at position `i` holds.
    pub fn value_at(&self, i: usize) -> (value: &V)
        requires
            self.well_formed(),
            i < self@.len(),
        ensures
            value.deep_view() == self@[i as int].value,
    {
        &self.values[i]
    }

    /// Whether the record at position `i` is stale.
    pub fn stale_at(&self, i: usize) -> (stale: bool)
        requires
            self.well_formed(),
            i < self@.len(),
        ensures
            stale == self@[i as int].stale,
    {
        self.marks[i]
    }

    /// The records of `cluster_id` that are not stale, in the order kept.
    pub fn fresh(&self, cluster_id: &str) -> (found: Vec<&V>)
        requires
            self.well_formed(),
        ensures
            found.deep_view() == fresh_values(self@, cluster_id@),
    {
        let mut found: Vec<&V> = Vec::new();
        let mut i: usize = 0;
        let wanted = cluster_id.to_owned();
        let ghost entries = self@;
        assert(entries.take(0) =~= Seq::<EntryView<V::V>>::empty());
        assert(found.deep_view() =~= Seq::<V::V>::empty());
        while i < self.keys.len()
            invariant
                self.well_formed(),
                entries == self@,
                wanted@ == cluster_id@,
                i <= entries.len(),
                found.deep_view() == fresh_values(entries.take(i as int), cluster_id@),
            decreases self.keys.len() - i,
        {
            proof {
                assert(entries.take(i + 1).drop_last() =~= entries.take(i as int));
                assert(entries.take(i + 1).last() == entries[i as int]);
            }
            if self.keys[i].cluster_id == wanted && !self.marks[i] {
                let ghost before = found.deep_view();
                found.push(&self.values[i]);
                assert(found.deep_view() =~= before.push(entries[i as int].value));
            }
            i += 1;
        }
        assert(entries.take(entries.len() as int) =~= entries);
        found
    }

    /// Write `value` under `key`: replace the record under that key, or add
    /// one. The record is not stale afterwards.
    pub fn upsert(&mut self, key: RecordKey, value: V)
        requires
            old(self).well_formed(),
        ensures
            final(self).well_formed(),
            final(self)@ == upserted(old(self)@, key@, value.deep_view()),
    {
        let ghost before = self@;
        proof {
            lemma_upsert_keeps_distinct(before, key@, value.deep_view());
        }
        match self.position(&key) {
            Some(i) => {
                self.keys.set(i, key);
                self.values.set(i, value);
                self.marks.set(i, false);
            },
            None => {
                self.keys.push(key);
                self.values.push(value);
                self.marks.push(false);
            },
        }
        assert(self@ =~= upserted(before, key@, value.deep_view()));
    }

    /// Mark every record of `cluster_id` stale.
    pub fn mark_stale(&mut self, cluster_id: &String)
        requires
            old(self).well_formed(),
        ensures
            final(self).well_formed(),
            final(self)@ == staled(old(self)@, cluster_id@),
    {
        let ghost before = self@;
        proof {
            lemma_staled_keeps_distinct(before, cluster_id@);
        }
        let mut i: usize = 0;
        while i < self.keys.len()
            invariant
                i <= self.keys@.len(),
                self.keys@.len() == self.values@.len(),
                self.keys@.len() == self.marks@.len(),
                self@.len() == before.len(),
                forall|j: int| 0 <= j < i ==> self@[j] == staled(before, cluster_id@)[j],
                forall|j: int| i <= j < before.len() ==> self@[j] == before[j],
            decreases self.keys.len() - i,
        {
            let ghost shown = self@;
            if self.keys[i].cluster_id == *cluster_id {
                self.marks.set(i, true);
            }
            proof {
                assert(shown[i as int] == before[i as int]);
                assert forall|j: int| 0 <= j < i + 1 implies self@[j] == staled(
                    before,
                    cluster_id@,
                )[j] by {
                    if j < i {
                        assert(self@[j] == shown[j]);
                    }
                }
                assert forall|j: int| i + 1 <= j < before.len() implies self@[j] == before[j] by {
                    assert(self@[j] == shown[j]);
                }
            }
            i += 1;
        }
        assert(self@ =~= staled(before, cluster_id@));
    }
}

} // verus!

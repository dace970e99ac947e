//! The document as contracts speak of it: an ordered list of entries with
//! the operations of an insertion-ordered map.

use vstd::prelude::*;

verus! {

/// One key of a table with the value stored under it.
pub struct Entry {
    pub key: Seq<char>,
    pub value: Doc,
}

/// A value of the document.
pub enum Doc {
    Text(Seq<char>),
    Integer(int),
    /// A 64-bit float, by its bit pattern.
    Float(u64),
    Boolean(bool),
    /// A date or time, in its written form.
    Datetime(Seq<char>),
    Array(Seq<Doc>),
    /// A nested table, its entries in the order they were first inserted.
    Table(Seq<Entry>),
}

/// Some entry of `entries` is stored under `key`.
pub open spec fn has_key(entries: Seq<Entry>, key: Seq<char>) -> bool {
    exists|i: int| 0 <= i < entries.len() && (#[trigger] entries[i]).key == key
}

/// `i` is the first position of `entries` that holds `key`.
pub open spec fn is_first(entries: Seq<Entry>, key: Seq<char>, i: int) -> bool {
    &&& 0 <= i < entries.len()
    &&& entries[i].key == key
    &&& forall|j: int| 0 <= j < i ==> (#[trigger] entries[j]).key != key
}

/// The first position that holds `key`; meaningful where `has_key`.
pub open spec fn position(entries: Seq<Entry>, key: Seq<char>) -> int {
    choose|i: int| is_first(entries, key, i)
}

/// The value stored under `key`, if any.
pub open spec fn lookup(entries: Seq<Entry>, key: Seq<char>) -> Option<Doc> {
    if has_key(entries, key) {
        Some(entries[position(entries, key)].value)
    } else {
        None
    }
}

/// `entries` after `value` was stored under `key`: an entry that is already
/// there keeps its place and takes the new value, a new one goes to the end.
pub open spec fn upsert(entries: Seq<Entry>, key: Seq<char>, value: Doc) -> Seq<Entry> {
    if has_key(entries, key) {
        entries.update(position(entries, key), Entry { key, value })
    } else {
        entries.push(Entry { key, value })
    }
}

/// The value is one that the library writes: a string, an integer of 64
/// bits, a float, or a table of such values.
pub open spec fn plain(doc: Doc) -> bool
    decreases doc,
{
    match doc {
        Doc::Text(_) => true,
        Doc::Integer(number) => i64::MIN <= number <= i64::MAX,
        Doc::Float(_) => true,
        Doc::Table(entries) => forall|i: int|
            0 <= i < entries.len() ==> plain((#[trigger] entries[i]).value),
        _ => false,
    }
}

/// Every value of the table is plain.
pub open spec fn plain_entries(entries: Seq<Entry>) -> bool {
    forall|i: int| 0 <= i < entries.len() ==> plain((#[trigger] entries[i]).value)
}

/// No key occurs twice.
pub open spec fn unique_keys(entries: Seq<Entry>) -> bool {
    forall|i: int, j: int|
        0 <= i < j < entries.len() ==> (#[trigger] entries[i]).key != (#[trigger] entries[j]).key
}

proof fn lemma_first_exists(entries: Seq<Entry>, key: Seq<char>, i: int)
    requires
        0 <= i < entries.len(),
        entries[i].key == key,
    ensures
        exists|f: int| is_first(entries, key, f) && f <= i,
    decreases i,
{
    if exists|j: int| 0 <= j < i && (#[trigger] entries[j]).key == key {
        let j = choose|j: int| 0 <= j < i && (#[trigger] entries[j]).key == key;
        lemma_first_exists(entries, key, j);
    } else {
        assert(is_first(entries, key, i));
    }
}

/// Where `key` is present, `position` is its first occurrence.
pub proof fn lemma_position(entries: Seq<Entry>, key: Seq<char>)
    requires
        has_key(entries, key),
    ensures
        is_first(entries, key, position(entries, key)),
{
    let i = choose|i: int| 0 <= i < entries.len() && (#[trigger] entries[i]).key == key;
    lemma_first_exists(entries, key, i);
}

/// A first occurrence is the position.
pub proof fn lemma_position_is(entries: Seq<Entry>, key: Seq<char>, i: int)
    requires
        is_first(entries, key, i),
    ensures
        has_key(entries, key),
        position(entries, key) == i,
{
    lemma_position(entries, key);
    let p = position(entries, key);
    if p < i {
        assert(entries[p].key != key);
    } else if i < p {
        assert(entries[i].key != key);
    }
}

/// What was stored under a key is found under it.
pub proof fn lemma_lookup_upsert_same(entries: Seq<Entry>, key: Seq<char>, value: Doc)
    ensures
        lookup(upsert(entries, key, value), key) == Some(value),
{
    let after = upsert(entries, key, value);
    if has_key(entries, key) {
        lemma_position(entries, key);
        let p = position(entries, key);
        assert forall|j: int| 0 <= j < p implies (#[trigger] after[j]).key != key by {
            assert(after[j] == entries[j]);
        }
        lemma_position_is(after, key, p);
    } else {
        let p = entries.len() as int;
        assert forall|j: int| 0 <= j < p implies (#[trigger] after[j]).key != key by {
            assert(after[j] == entries[j]);
        }
        lemma_position_is(after, key, p);
    }
}

/// Storing under one key leaves every other key as it was.
pub proof fn lemma_lookup_upsert_other(
    entries: Seq<Entry>,
    key: Seq<char>,
    value: Doc,
    other: Seq<char>,
)
    requires
        other != key,
    ensures
        has_key(upsert(entries, key, value), other) == has_key(entries, other),
        lookup(upsert(entries, key, value), other) == lookup(entries, other),
{
    let after = upsert(entries, key, value);
    if has_key(entries, key) {
        lemma_position(entries, key);
    }
    assert(after.len() >= entries.len());
    assert forall|j: int| 0 <= j < entries.len() implies (#[trigger] after[j]).key
        == entries[j].key && (after[j].key == other ==> after[j].value == entries[j].value) by {}
    if has_key(entries, other) {
        lemma_position(entries, other);
        let p = position(entries, other);
        assert(after[p].key == other);
        assert forall|j: int| 0 <= j < p implies (#[trigger] after[j]).key != other by {
            assert(after[j].key == entries[j].key);
        }
        lemma_position_is(after, other, p);
    } else {
        if has_key(after, other) {
            let i = choose|i: int| 0 <= i < after.len() && (#[trigger] after[i]).key == other;
            if i < entries.len() {
                assert(entries[i].key == other);
            }
            assert(false);
        }
    }
}

/// Storing never makes a key occur twice.
pub proof fn lemma_upsert_unique(entries: Seq<Entry>, key: Seq<char>, value: Doc)
    requires
        unique_keys(entries),
    ensures
        unique_keys(upsert(entries, key, value)),
{
    let after = upsert(entries, key, value);
    if has_key(entries, key) {
        lemma_position(entries, key);
    }
    assert forall|i: int, j: int| 0 <= i < j < after.len() implies (#[trigger] after[i]).key != (
    #[trigger] after[j]).key by {
        if j < entries.len() {
            assert(after[i].key == entries[i].key);
            assert(after[j].key == entries[j].key);
        } else {
            assert(after[i].key == entries[i].key);
        }
    }
}

/// Storing again the value that a key already holds changes nothing.
pub proof fn lemma_upsert_present(entries: Seq<Entry>, key: Seq<char>)
    requires
        has_key(entries, key),
    ensures
        upsert(entries, key, lookup(entries, key)->Some_0) == entries,
{
    lemma_position(entries, key);
    assert(upsert(entries, key, lookup(entries, key)->Some_0) =~= entries);
}

/// The keys after storing are the keys before, and the key stored.
pub proof fn lemma_upsert_keys(entries: Seq<Entry>, key: Seq<char>, value: Doc, other: Seq<char>)
    ensures
        has_key(upsert(entries, key, value), other) <==> (other == key || has_key(entries, other)),
{
    if other == key {
        lemma_lookup_upsert_same(entries, key, value);
    } else {
        lemma_lookup_upsert_other(entries, key, value, other);
    }
}

/// A table of plain values stays one when a plain value is stored in it.
pub proof fn lemma_upsert_plain(entries: Seq<Entry>, key: Seq<char>, value: Doc)
    requires
        plain_entries(entries),
        plain(value),
    ensures
        plain_entries(upsert(entries, key, value)),
{
    let after = upsert(entries, key, value);
    if has_key(entries, key) {
        lemma_position(entries, key);
    }
    assert forall|i: int| 0 <= i < after.len() implies plain((#[trigger] after[i]).value) by {
        if i < entries.len() && after[i] != (Entry { key, value }) {
            assert(after[i] == entries[i]);
        }
    }
}

/// What is found in a table of plain values is plain.
pub proof fn lemma_lookup_plain(entries: Seq<Entry>, key: Seq<char>)
    requires
        plain_entries(entries),
    ensures
        lookup(entries, key) matches Some(found) ==> plain(found),
{
    if has_key(entries, key) {
        lemma_position(entries, key);
    }
}

} // verus!

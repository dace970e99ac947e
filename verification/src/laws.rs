//! What holds of the encoder for every value, proved from the definitions
//! that its contracts use.

use crate::diagnostic::{single, DiagnosticKind};
use crate::classify::{group_entries, placed, put, struct_placed, variant_doc, wrapped_doc};
use crate::document::{
    has_key, lemma_lookup_plain, lemma_lookup_upsert_other, lemma_lookup_upsert_same,
    lemma_upsert_keys, lemma_upsert_plain, lemma_upsert_unique, lookup, plain, plain_entries,
    unique_keys, upsert, Doc, Entry,
};
use crate::gate::{assembled, object_placed, state_placed};
use crate::encode::{
    complaints, encoded, field_doc, fields_into, is_optional, is_present, scalar_doc, stored,
    INTEGER_MAX,
};
use crate::reflect::{EnumView, FieldView, ReflectedView, ScalarView, StructView};
use vstd::prelude::*;

verus! {

/// No two fields have the same name.
pub open spec fn distinct_names(fields: Seq<FieldView>) -> bool {
    forall|i: int, j: int|
        0 <= i < j < fields.len() ==> (#[trigger] fields[i]).name != (#[trigger] fields[j]).name
}

/// A scalar that has a document value is found under its key once it was
/// stored, whatever the table held before; nothing is reported.
pub proof fn law_scalar_entry(scalar: ScalarView, key: Seq<char>, entries: Seq<Entry>)
    requires
        scalar_doc(scalar) is Ok,
    ensures
        lookup(stored(ReflectedView::Scalar(scalar), key, entries), key) == Some(
            scalar_doc(scalar)->Ok_0,
        ),
        complaints(ReflectedView::Scalar(scalar), key).len() == 0,
{
    lemma_lookup_upsert_same(entries, key, scalar_doc(scalar)->Ok_0);
}

/// A 64-bit or word-sized unsigned number is stored as an integer up to
/// the largest signed 64-bit number. Above it the table stays as it was
/// and one overflow is reported under the key.
pub proof fn law_unsigned_range(number: u64, key: Seq<char>, entries: Seq<Entry>)
    ensures
        number <= INTEGER_MAX ==> stored(
            ReflectedView::Scalar(ScalarView::U64(number)),
            key,
            entries,
        ) == upsert(entries, key, Doc::Integer(number as int)),
        number > INTEGER_MAX ==> stored(
            ReflectedView::Scalar(ScalarView::U64(number)),
            key,
            entries,
        ) == entries,
        number > INTEGER_MAX ==> complaints(ReflectedView::Scalar(ScalarView::U64(number)), key)
            == single(DiagnosticKind::NumericOverflow, key),
        INTEGER_MAX == 0x7fff_ffff_ffff_ffff,
{
}

/// An optional value that holds `inner` is encoded exactly as `inner` is:
/// the same table comes out and the same diagnostics.
pub proof fn law_present_optional(
    optional: EnumView,
    inner: ReflectedView,
    key: Seq<char>,
    entries: Seq<Entry>,
)
    requires
        is_optional(optional),
        is_present(optional),
        optional.fields.len() == 1,
        optional.fields[0] == inner,
    ensures
        encoded(ReflectedView::Enum(optional)) == encoded(inner),
        stored(ReflectedView::Enum(optional), key, entries) == stored(inner, key, entries),
        complaints(ReflectedView::Enum(optional), key) == complaints(inner, key),
{
}

/// An optional value that holds nothing leaves the table as it was, so a
/// key that was absent stays absent, and nothing is reported.
pub proof fn law_absent_optional(optional: EnumView, key: Seq<char>, entries: Seq<Entry>)
    requires
        is_optional(optional),
        !is_present(optional),
    ensures
        stored(ReflectedView::Enum(optional), key, entries) == entries,
        !has_key(entries, key) ==> lookup(
            stored(ReflectedView::Enum(optional), key, entries),
            key,
        ) is None,
        complaints(ReflectedView::Enum(optional), key).len() == 0,
{
}

/// The table built from the first `n` fields of a struct holds, under
/// each of those names, the document value of that field, and no other
/// key.
proof fn lemma_fields_table(fields: Seq<FieldView>, n: nat)
    requires
        distinct_names(fields),
        n <= fields.len(),
    ensures
        forall|i: int|
            0 <= i < n ==> lookup(
                fields_into(fields, n, Seq::empty()),
                (#[trigger] fields[i]).name,
            ) == field_doc(fields[i].value),
        forall|key: Seq<char>| #[trigger]
            has_key(fields_into(fields, n, Seq::empty()), key) ==> exists|i: int|
                0 <= i < n && (#[trigger] fields[i]).name == key && field_doc(fields[i].value)
                    is Some,
        unique_keys(fields_into(fields, n, Seq::empty())),
    decreases n,
{
    let table = fields_into(fields, n, Seq::empty());
    if n == 0 {
        assert(table == Seq::<Entry>::empty());
    } else {
        let m = (n - 1) as nat;
        let before = fields_into(fields, m, Seq::empty());
        let last = fields[n - 1];
        lemma_fields_table(fields, m);
        assert(table == match field_doc(last.value) {
            Some(doc) => upsert(before, last.name, doc),
            None => before,
        });
        if has_key(before, last.name) {
            let i = choose|i: int|
                0 <= i < m && (#[trigger] fields[i]).name == last.name && field_doc(
                    fields[i].value,
                ) is Some;
            assert(fields[i].name != fields[n - 1].name);
        }
        match field_doc(last.value) {
            Some(doc) => {
                lemma_lookup_upsert_same(before, last.name, doc);
                lemma_upsert_unique(before, last.name, doc);
                assert forall|i: int| 0 <= i < n implies lookup(table, (#[trigger] fields[i]).name)
                    == field_doc(fields[i].value) by {
                    if i < m {
                        assert(fields[i].name != fields[n - 1].name);
                        lemma_lookup_upsert_other(before, last.name, doc, fields[i].name);
                    }
                }
                assert forall|key: Seq<char>| #[trigger] has_key(table, key) implies exists|i: int|
                    0 <= i < n && (#[trigger] fields[i]).name == key && field_doc(fields[i].value)
                        is Some by {
                    lemma_upsert_keys(before, last.name, doc, key);
                    if key == last.name {
                        assert(fields[n - 1].name == key);
                    } else {
                        let i = choose|i: int|
                            0 <= i < m && (#[trigger] fields[i]).name == key && field_doc(
                                fields[i].value,
                            ) is Some;
                        assert(0 <= i < n && fields[i].name == key);
                    }
                }
            },
            None => {
                assert forall|key: Seq<char>| #[trigger] has_key(table, key) implies exists|i: int|
                    0 <= i < n && (#[trigger] fields[i]).name == key && field_doc(fields[i].value)
                        is Some by {
                    let i = choose|i: int|
                        0 <= i < m && (#[trigger] fields[i]).name == key && field_doc(
                            fields[i].value,
                        ) is Some;
                    assert(0 <= i < n && fields[i].name == key);
                }
            },
        }
    }
}

/// A struct whose fields have distinct names is encoded as a table that
/// holds exactly its fields: under each field's name the document value of
/// that field, nothing under a name whose field has none, no other key,
/// and no key twice. Stored under `key`, that table is what is found
/// there.
pub proof fn law_struct_table(strct: StructView, key: Seq<char>, entries: Seq<Entry>)
    requires
        distinct_names(strct.fields),
    ensures
        encoded(ReflectedView::Struct(strct)) matches Some(Doc::Table(inner)) && {
            &&& lookup(stored(ReflectedView::Struct(strct), key, entries), key) == Some(
                Doc::Table(inner),
            )
            &&& forall|i: int|
                0 <= i < strct.fields.len() ==> lookup(inner, (#[trigger] strct.fields[i]).name)
                    == field_doc(strct.fields[i].value)
            &&& forall|name: Seq<char>| #[trigger]
                has_key(inner, name) ==> exists|i: int|
                    0 <= i < strct.fields.len() && (#[trigger] strct.fields[i]).name == name
            &&& unique_keys(inner)
        },
{
    let inner = fields_into(strct.fields, strct.fields.len(), Seq::empty());
    lemma_fields_table(strct.fields, strct.fields.len());
    lemma_lookup_upsert_same(entries, key, Doc::Table(inner));
    assert forall|name: Seq<char>| #[trigger] has_key(inner, name) implies exists|i: int|
        0 <= i < strct.fields.len() && (#[trigger] strct.fields[i]).name == name by {
        let i = choose|i: int|
            0 <= i < strct.fields.len() && (#[trigger] strct.fields[i]).name == name && field_doc(
                strct.fields[i].value,
            ) is Some;
        assert(strct.fields[i].name == name);
    }
}

/// Encoding a value under a key changes nothing under any other key, and
/// keeps the keys of the table distinct.
pub proof fn law_store_is_local(
    value: ReflectedView,
    key: Seq<char>,
    entries: Seq<Entry>,
    other: Seq<char>,
)
    requires
        other != key,
    ensures
        lookup(stored(value, key, entries), other) == lookup(entries, other),
        unique_keys(entries) ==> unique_keys(stored(value, key, entries)),
{
    match encoded(value) {
        Some(doc) => {
            lemma_lookup_upsert_other(entries, key, doc, other);
            if unique_keys(entries) {
                lemma_upsert_unique(entries, key, doc);
            }
        },
        None => {},
    }
}

/// Whatever the encoder makes of a value is plain, and so is the table
/// after the first `n` fields of a struct were stored in a plain one.
proof fn lemma_encoded_is_plain(value: ReflectedView)
    ensures
        encoded(value) matches Some(doc) ==> plain(doc),
        field_doc(value) matches Some(doc) ==> plain(doc),
    decreases value, 0nat,
{
    match value {
        ReflectedView::Struct(s) => {
            lemma_fields_are_plain(s.fields, s.fields.len(), Seq::empty());
        },
        ReflectedView::Enum(e) => {
            if is_optional(e) && is_present(e) && e.fields.len() > 0 {
                lemma_encoded_is_plain(e.fields[0]);
            }
        },
        _ => {},
    }
}

proof fn lemma_fields_are_plain(fields: Seq<FieldView>, n: nat, base: Seq<Entry>)
    requires
        plain_entries(base),
    ensures
        plain_entries(fields_into(fields, n, base)),
    decreases fields, n,
{
    if n == 0 || n > fields.len() {
    } else {
        let before = fields_into(fields, (n - 1) as nat, base);
        lemma_fields_are_plain(fields, (n - 1) as nat, base);
        lemma_encoded_is_plain(fields[n - 1].value);
        assert(fields_into(fields, n, base) == match field_doc(fields[n - 1].value) {
            Some(doc) => upsert(before, fields[n - 1].name, doc),
            None => before,
        });
        match field_doc(fields[n - 1].value) {
            Some(doc) => {
                lemma_upsert_plain(before, fields[n - 1].name, doc);
            },
            None => {},
        }
    }
}

/// The table of a group of a plain document is plain.
proof fn lemma_group_is_plain(entries: Seq<Entry>, group: Seq<char>)
    requires
        plain_entries(entries),
    ensures
        group_entries(entries, group) matches Some(inner) ==> plain_entries(inner),
{
    lemma_lookup_plain(entries, group);
}

/// A plain document stays plain when a single value is placed in it.
proof fn lemma_placed_is_plain(
    entries: Seq<Entry>,
    group: Option<Seq<char>>,
    key: Option<Seq<char>>,
    doc: Option<Doc>,
)
    requires
        plain_entries(entries),
        doc matches Some(value) ==> plain(value),
    ensures
        plain_entries(placed(entries, group, key, doc)),
{
    match (group, key, doc) {
        (Some(g), Some(k), Some(value)) => {
            lemma_group_is_plain(entries, g);
            if group_entries(entries, g) is Some {
                let inner = group_entries(entries, g)->Some_0;
                lemma_upsert_plain(inner, k, value);
                lemma_upsert_plain(entries, g, Doc::Table(put(inner, k, doc)));
            }
        },
        (Some(g), Some(k), None) => {
            lemma_group_is_plain(entries, g);
            if group_entries(entries, g) is Some {
                let inner = group_entries(entries, g)->Some_0;
                lemma_upsert_plain(entries, g, Doc::Table(inner));
            }
        },
        (None, Some(k), Some(value)) => {
            lemma_upsert_plain(entries, k, value);
        },
        _ => {},
    }
}

/// The encoder writes plain values only: a string, an integer of 64 bits,
/// a float, or a table of such values.
pub proof fn law_encoded_is_plain(value: ReflectedView, key: Seq<char>, entries: Seq<Entry>)
    ensures
        encoded(value) matches Some(doc) ==> plain(doc),
        plain_entries(entries) ==> plain_entries(stored(value, key, entries)),
{
    lemma_encoded_is_plain(value);
    if plain_entries(entries) {
        match encoded(value) {
            Some(doc) => {
                lemma_upsert_plain(entries, key, doc);
            },
            None => {},
        }
    }
}

/// A plain document stays plain when a state object is added to it.
pub proof fn law_object_keeps_plain(entries: Seq<Entry>, object: Option<ReflectedView>)
    requires
        plain_entries(entries),
    ensures
        plain_entries(object_placed(entries, object)),
{
    match object {
        Some(ReflectedView::Struct(s)) => {
            match (s.attributes.group, s.attributes.key) {
                (Some(g), None) => {
                    lemma_group_is_plain(entries, g);
                    if group_entries(entries, g) is Some {
                        let inner = group_entries(entries, g)->Some_0;
                        lemma_fields_are_plain(s.fields, s.fields.len(), inner);
                        lemma_upsert_plain(
                            entries,
                            g,
                            Doc::Table(fields_into(s.fields, s.fields.len(), inner)),
                        );
                    }
                },
                _ => {},
            }
        },
        Some(ReflectedView::TupleStruct(t)) => {
            if t.fields.len() > 0 {
                lemma_encoded_is_plain(t.fields[0]);
                match t.fields[0] {
                    ReflectedView::Enum(e) => {
                        lemma_placed_is_plain(
                            entries,
                            e.attributes.group,
                            e.attributes.key,
                            variant_doc(e),
                        );
                    },
                    _ => {},
                }
            }
            lemma_placed_is_plain(entries, t.attributes.group, t.attributes.key, wrapped_doc(t));
        },
        Some(ReflectedView::Enum(e)) => {
            lemma_placed_is_plain(entries, e.attributes.group, e.attributes.key, variant_doc(e));
        },
        _ => {},
    }
}

/// Every document that a save assembles is plain at every depth: it holds
/// strings, integers of 64 bits, floats and tables of these, and nothing
/// else.
pub proof fn law_assembled_is_plain(objects: Seq<Option<ReflectedView>>, n: nat)
    ensures
        plain_entries(assembled(objects, n)),
    decreases n,
{
    if n == 0 || n > objects.len() {
    } else {
        law_assembled_is_plain(objects, (n - 1) as nat);
        law_object_keeps_plain(assembled(objects, (n - 1) as nat), objects[n - 1]);
    }
}

} // verus!

//! Where a state object goes in the document: under a key at the root,
//! under a key in its group's table, with its fields spread over the
//! group's table, or nowhere.

use crate::diagnostic::{diagnostics_view, report, single, Diagnostic, DiagnosticKind, DiagnosticView};
use crate::document::{lemma_upsert_present, lookup, upsert, Doc, Entry};
use crate::encode::{
    field_complaints, field_doc, fields_complaints, fields_into, save_enum, save_struct,
    store_prop,
};
use crate::reflect::{
    lemma_enum_view, lemma_reflected_view, lemma_struct_view, lemma_tuple_struct_view, text_view,
    EnumValue, EnumView, Reflected, StructValue, StructView, TupleStructValue, TupleStructView,
};
use crate::table::{new_table, slot_for, table_entries, table_in, table_value};
use vstd::prelude::*;

verus! {

/// What the table of a group holds before an object is added to it: the
/// entries of the table under the group's name, none where the name is
/// free. `None` where the name is taken by a value that is no table.
pub open spec fn group_entries(entries: Seq<Entry>, group: Seq<char>) -> Option<Seq<Entry>> {
    match lookup(entries, group) {
        None => Some(Seq::empty()),
        Some(Doc::Table(inner)) => Some(inner),
        Some(_) => None,
    }
}

/// `entries` after the table of `group` was replaced by `inner`.
pub open spec fn with_group(entries: Seq<Entry>, group: Seq<char>, inner: Seq<Entry>) -> Seq<
    Entry,
> {
    upsert(entries, group, Doc::Table(inner))
}

/// `entries` after `doc`, if there is one, was stored under `key`.
pub open spec fn put(entries: Seq<Entry>, key: Seq<char>, doc: Option<Doc>) -> Seq<Entry> {
    match doc {
        Some(value) => upsert(entries, key, value),
        None => entries,
    }
}

/// The table of a group, made empty and put last where the document has
/// none yet. `None`, with the document unchanged, where the group's name
/// is taken by a value that is no table.
pub fn group_table<'a>(table: &'a mut toml::Table, group: &str) -> (inner: Option<
    &'a mut toml::Table,
>)
    ensures
        match inner {
            Some(sub) => group_entries(table_entries(*old(table)), group@) == Some(
                table_entries(*sub),
            ) && table_entries(*final(table)) == with_group(
                table_entries(*old(table)),
                group@,
                table_entries(*final(sub)),
            ),
            None => group_entries(table_entries(*old(table)), group@) is None && table_entries(
                *final(table),
            ) == table_entries(*old(table)),
        },
{
    let ghost before = table_entries(*table);
    let slot = slot_for(table, group, table_value(new_table()));
    let inner = table_in(slot);
    proof {
        if inner is None {
            lemma_upsert_present(before, group@);
        }
    }
    inner
}

/// The document value of a wrapper: that of its one field. A wrapper with
/// no field or with several has none.
pub open spec fn wrapped_doc(wrapper: TupleStructView) -> Option<Doc> {
    if wrapper.fields.len() == 1 {
        field_doc(wrapper.fields[0])
    } else {
        None
    }
}

/// The diagnostics for a wrapper that is stored under `key`.
pub open spec fn wrapped_complaints(wrapper: TupleStructView, key: Seq<char>) -> Seq<
    DiagnosticView,
> {
    if wrapper.fields.len() == 1 {
        field_complaints(wrapper.fields[0], key)
    } else {
        single(DiagnosticKind::UnsupportedShape, key)
    }
}

/// The document value of an enumeration: the name of its variant, where
/// the variant carries no data.
pub open spec fn variant_doc(value: EnumView) -> Option<Doc> {
    if value.kind is Unit {
        Some(Doc::Text(value.variant))
    } else {
        None
    }
}

/// The diagnostics for an enumeration that is stored under `key`.
pub open spec fn variant_complaints(value: EnumView, key: Seq<char>) -> Seq<DiagnosticView> {
    if value.kind is Unit {
        Seq::empty()
    } else {
        single(DiagnosticKind::UnsupportedShape, key)
    }
}

/// `entries` after a single value was stored for an object with these
/// attributes: under its key, in the table of its group where it has one.
/// Without a key nothing is stored.
pub open spec fn placed(
    entries: Seq<Entry>,
    group: Option<Seq<char>>,
    key: Option<Seq<char>>,
    doc: Option<Doc>,
) -> Seq<Entry> {
    match (group, key) {
        (Some(g), Some(k)) => match group_entries(entries, g) {
            Some(inner) => with_group(entries, g, put(inner, k, doc)),
            None => entries,
        },
        (None, Some(k)) => put(entries, k, doc),
        _ => entries,
    }
}

/// The diagnostics for an object of type `type_path` with these
/// attributes, where `inner` are the diagnostics of its value under the
/// key. A group without a key is reported under the type's path, a group
/// whose name is taken under the group's name.
pub open spec fn placed_complaints(
    entries: Seq<Entry>,
    type_path: Seq<char>,
    group: Option<Seq<char>>,
    key: Option<Seq<char>>,
    inner: spec_fn(Seq<char>) -> Seq<DiagnosticView>,
) -> Seq<DiagnosticView> {
    match (group, key) {
        (Some(g), Some(k)) => if group_entries(entries, g) is Some {
            inner(k)
        } else {
            single(DiagnosticKind::UnsupportedShape, g)
        },
        (Some(_), None) => single(DiagnosticKind::UnsupportedShape, type_path),
        (None, Some(k)) => inner(k),
        (None, None) => Seq::empty(),
    }
}

/// `entries` after a struct with these attributes was stored: its fields
/// go into the table of its group. A struct with a key has no place.
pub open spec fn struct_placed(
    entries: Seq<Entry>,
    strct: StructView,
    group: Option<Seq<char>>,
    key: Option<Seq<char>>,
) -> Seq<Entry> {
    match (group, key) {
        (Some(g), None) => match group_entries(entries, g) {
            Some(inner) => with_group(
                entries,
                g,
                fields_into(strct.fields, strct.fields.len(), inner),
            ),
            None => entries,
        },
        _ => entries,
    }
}

/// The diagnostics for a struct with these attributes.
pub open spec fn struct_complaints(
    entries: Seq<Entry>,
    strct: StructView,
    group: Option<Seq<char>>,
    key: Option<Seq<char>>,
) -> Seq<DiagnosticView> {
    match (group, key) {
        (Some(g), None) => if group_entries(entries, g) is Some {
            fields_complaints(strct.fields, strct.fields.len())
        } else {
            single(DiagnosticKind::UnsupportedShape, g)
        },
        (_, Some(_)) => single(DiagnosticKind::UnsupportedShape, strct.type_path),
        (None, None) => Seq::empty(),
    }
}

/// Stores a struct that is tagged as a preference: with a group alone its
/// fields go into the group's table. With a key, alone or beside a group,
/// the struct has no single value to store and is reported.
pub fn maybe_save_struct(
    strct: &StructValue,
    group_attr: &Option<String>,
    key_attr: &Option<String>,
    table: &mut toml::Table,
    diagnostics: &mut Vec<Diagnostic>,
)
    ensures
        table_entries(*final(table)) == struct_placed(
            table_entries(*old(table)),
            strct@,
            text_view(*group_attr),
            text_view(*key_attr),
        ),
        diagnostics_view(final(diagnostics)@) == diagnostics_view(old(diagnostics)@)
            + struct_complaints(
            table_entries(*old(table)),
            strct@,
            text_view(*group_attr),
            text_view(*key_attr),
        ),
{
    proof {
        lemma_struct_view(strct);
    }
    let ghost reported = diagnostics_view(diagnostics@);
    match key_attr {
        Some(_) => {
            report(diagnostics, DiagnosticKind::UnsupportedShape, strct.type_path.as_str());
        },
        None => {
            match group_attr {
                Some(group) => {
                    match group_table(table, group.as_str()) {
                        Some(inner) => {
                            save_struct(strct, inner, diagnostics);
                        },
                        None => {
                            report(diagnostics, DiagnosticKind::UnsupportedShape, group.as_str());
                        },
                    }
                },
                None => {
                    assert(diagnostics_view(diagnostics@) =~= reported + Seq::empty());
                },
            }
        },
    }
}

/// Stores the one field of a wrapper under `key`. A field that is itself
/// a struct, a wrapper or a container is reported and left out, and so is
/// a wrapper that has not exactly one field.
pub fn save_tuple_struct(
    tuple_struct: &TupleStructValue,
    key: &str,
    table: &mut toml::Table,
    diagnostics: &mut Vec<Diagnostic>,
)
    ensures
        table_entries(*final(table)) == put(
            table_entries(*old(table)),
            key@,
            wrapped_doc(tuple_struct@),
        ),
        diagnostics_view(final(diagnostics)@) == diagnostics_view(old(diagnostics)@)
            + wrapped_complaints(tuple_struct@, key@),
{
    proof {
        lemma_tuple_struct_view(tuple_struct);
    }
    if tuple_struct.fields.len() == 1 {
        let field = &tuple_struct.fields[0];
        proof {
            lemma_reflected_view(field);
        }
        match field {
            Reflected::Enum(_) => {
                store_prop(field, key, table, diagnostics);
            },
            Reflected::Scalar(_) => {
                store_prop(field, key, table, diagnostics);
            },
            _ => {
                report(diagnostics, DiagnosticKind::UnsupportedShape, key);
            },
        }
    } else {
        report(diagnostics, DiagnosticKind::UnsupportedShape, key);
    }
}

/// Stores a wrapper that is tagged as a preference: under its key, in the
/// table of its group where it has one. A group without a key gives the
/// value no name, and the wrapper is reported.
pub fn maybe_save_tuple_struct(
    tuple_struct: &TupleStructValue,
    group_attr: &Option<String>,
    key_attr: &Option<String>,
    table: &mut toml::Table,
    diagnostics: &mut Vec<Diagnostic>,
)
    ensures
        table_entries(*final(table)) == placed(
            table_entries(*old(table)),
            text_view(*group_attr),
            text_view(*key_attr),
            wrapped_doc(tuple_struct@),
        ),
        diagnostics_view(final(diagnostics)@) == diagnostics_view(old(diagnostics)@)
            + placed_complaints(
            table_entries(*old(table)),
            tuple_struct@.type_path,
            text_view(*group_attr),
            text_view(*key_attr),
            |key: Seq<char>| wrapped_complaints(tuple_struct@, key),
        ),
{
    proof {
        lemma_tuple_struct_view(tuple_struct);
    }
    let ghost reported = diagnostics_view(diagnostics@);
    match group_attr {
        Some(group) => {
            match key_attr {
                Some(key) => {
                    match group_table(table, group.as_str()) {
                        Some(inner) => {
                            save_tuple_struct(tuple_struct, key.as_str(), inner, diagnostics);
                        },
                        None => {
                            report(diagnostics, DiagnosticKind::UnsupportedShape, group.as_str());
                        },
                    }
                },
                None => {
                    report(
                        diagnostics,
                        DiagnosticKind::UnsupportedShape,
                        tuple_struct.type_path.as_str(),
                    );
                },
            }
        },
        None => {
            match key_attr {
                Some(key) => {
                    save_tuple_struct(tuple_struct, key.as_str(), table, diagnostics);
                },
                None => {
                    assert(diagnostics_view(diagnostics@) =~= reported + Seq::empty());
                },
            }
        },
    }
}

/// Stores an enumeration by the attributes of its own type: the name of
/// its variant under the key, in the table of the group where it has one.
/// A group without a key is reported.
pub fn maybe_save_enum(
    enum_ref: &EnumValue,
    table: &mut toml::Table,
    diagnostics: &mut Vec<Diagnostic>,
)
    ensures
        table_entries(*final(table)) == placed(
            table_entries(*old(table)),
            enum_ref@.attributes.group,
            enum_ref@.attributes.key,
            variant_doc(enum_ref@),
        ),
        diagnostics_view(final(diagnostics)@) == diagnostics_view(old(diagnostics)@)
            + placed_complaints(
            table_entries(*old(table)),
            enum_ref@.type_path,
            enum_ref@.attributes.group,
            enum_ref@.attributes.key,
            |key: Seq<char>| variant_complaints(enum_ref@, key),
        ),
{
    proof {
        lemma_enum_view(enum_ref);
    }
    let ghost reported = diagnostics_view(diagnostics@);
    match &enum_ref.attributes.group {
        Some(group) => {
            match &enum_ref.attributes.key {
                Some(key) => {
                    match group_table(table, group.as_str()) {
                        Some(inner) => {
                            save_enum(enum_ref, key.as_str(), inner, diagnostics);
                        },
                        None => {
                            report(diagnostics, DiagnosticKind::UnsupportedShape, group.as_str());
                        },
                    }
                },
                None => {
                    report(
                        diagnostics,
                        DiagnosticKind::UnsupportedShape,
                        enum_ref.type_path.as_str(),
                    );
                },
            }
        },
        None => {
            match &enum_ref.attributes.key {
                Some(key) => {
                    save_enum(enum_ref, key.as_str(), table, diagnostics);
                },
                None => {
                    assert(diagnostics_view(diagnostics@) =~= reported + Seq::empty());
                },
            }
        },
    }
}

} // verus!

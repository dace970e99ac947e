//! The walker that encodes a reflected value into a table: scalars by
//! type, optional values by what they hold, unit enumerations by the name
//! of their variant, structs as nested tables.

use crate::diagnostic::{diagnostics_view, report, single, Diagnostic, DiagnosticKind, DiagnosticView};
use crate::document::{upsert, Doc, Entry};
use crate::reflect::{
    lemma_enum_view, lemma_reflected_view, lemma_struct_view, EnumValue, EnumView, FieldView,
    Reflected, ReflectedView, Scalar, ScalarView, StructValue, VariantKind,
};
use crate::table::{
    copy_value, holds_float, insert_value, integer_value, new_table, table_entries, table_value,
    text_value, value_doc,
};
use crate::text::{same_text, starts_with};
use vstd::prelude::*;

verus! {

/// The largest number that the document's integers hold.
pub const INTEGER_MAX: u64 = 0x7fff_ffff_ffff_ffff;

/// The document value of a scalar, or the reason why it has none.
pub open spec fn scalar_doc(scalar: ScalarView) -> Result<Doc, DiagnosticKind> {
    match scalar {
        ScalarView::Float(held) => if held is Float {
            Ok(held)
        } else {
            Err(DiagnosticKind::UnsupportedShape)
        },
        ScalarView::I8(i) => Ok(Doc::Integer(i as int)),
        ScalarView::I16(i) => Ok(Doc::Integer(i as int)),
        ScalarView::I32(i) => Ok(Doc::Integer(i as int)),
        ScalarView::I64(i) => Ok(Doc::Integer(i as int)),
        ScalarView::U8(u) => Ok(Doc::Integer(u as int)),
        ScalarView::U16(u) => Ok(Doc::Integer(u as int)),
        ScalarView::U32(u) => Ok(Doc::Integer(u as int)),
        ScalarView::U64(u) => if u <= INTEGER_MAX {
            Ok(Doc::Integer(u as int))
        } else {
            Err(DiagnosticKind::NumericOverflow)
        },
        ScalarView::Usize(u) => if u <= INTEGER_MAX {
            Ok(Doc::Integer(u as int))
        } else {
            Err(DiagnosticKind::NumericOverflow)
        },
        ScalarView::Text(text) => Ok(Doc::Text(text)),
        ScalarView::Other(_) => Err(DiagnosticKind::UnsupportedShape),
    }
}

/// The enumeration is the standard optional type.
pub open spec fn is_optional(value: EnumView) -> bool {
    "core::option::Option"@.is_prefix_of(value.type_path)
}

/// The optional value holds something.
pub open spec fn is_present(value: EnumView) -> bool {
    value.variant == "Some"@
}

/// The document value that stands for `value`, or `None` where nothing is
/// stored for it: an absent optional value, and every shape that the
/// document cannot hold.
pub open spec fn encoded(value: ReflectedView) -> Option<Doc>
    decreases value, 0nat,
{
    match value {
        ReflectedView::Struct(s) => Some(
            Doc::Table(fields_into(s.fields, s.fields.len(), Seq::empty())),
        ),
        ReflectedView::Enum(e) => if is_optional(e) {
            if is_present(e) && e.fields.len() > 0 {
                encoded(e.fields[0])
            } else {
                None
            }
        } else if e.kind is Unit {
            Some(Doc::Text(e.variant))
        } else {
            None
        },
        ReflectedView::Scalar(s) => match scalar_doc(s) {
            Ok(doc) => Some(doc),
            Err(_) => None,
        },
        ReflectedView::TupleStruct(_) => None,
        ReflectedView::Unsupported(_) => None,
    }
}

/// The document value of a struct's field. Only enumerations, among them
/// optional values, and scalars are taken from a struct.
pub open spec fn field_doc(value: ReflectedView) -> Option<Doc>
    decreases value, 1nat,
{
    match value {
        ReflectedView::Enum(_) => encoded(value),
        ReflectedView::Scalar(_) => encoded(value),
        _ => None,
    }
}

/// `base` after the first `n` fields were stored in it, each under its
/// own name.
pub open spec fn fields_into(fields: Seq<FieldView>, n: nat, base: Seq<Entry>) -> Seq<Entry>
    decreases fields, n,
{
    if n == 0 || n > fields.len() {
        base
    } else {
        let before = fields_into(fields, (n - 1) as nat, base);
        match field_doc(fields[n - 1].value) {
            Some(doc) => upsert(before, fields[n - 1].name, doc),
            None => before,
        }
    }
}

/// `entries` after `value` was encoded under `key`.
pub open spec fn stored(value: ReflectedView, key: Seq<char>, entries: Seq<Entry>) -> Seq<Entry> {
    match encoded(value) {
        Some(doc) => upsert(entries, key, doc),
        None => entries,
    }
}

/// The diagnostics that encoding `value` under `key` gives, in the order
/// of the walk.
pub open spec fn complaints(value: ReflectedView, key: Seq<char>) -> Seq<DiagnosticView>
    decreases value, 0nat,
{
    match value {
        ReflectedView::Struct(s) => fields_complaints(s.fields, s.fields.len()),
        ReflectedView::Enum(e) => if is_optional(e) {
            if is_present(e) {
                if e.fields.len() > 0 {
                    complaints(e.fields[0], key)
                } else {
                    single(DiagnosticKind::UnsupportedShape, key)
                }
            } else {
                Seq::empty()
            }
        } else if e.kind is Unit {
            Seq::empty()
        } else {
            single(DiagnosticKind::UnsupportedShape, key)
        },
        ReflectedView::Scalar(s) => match scalar_doc(s) {
            Ok(_) => Seq::empty(),
            Err(kind) => single(kind, key),
        },
        ReflectedView::TupleStruct(_) => single(DiagnosticKind::UnsupportedShape, key),
        ReflectedView::Unsupported(_) => single(DiagnosticKind::UnsupportedShape, key),
    }
}

/// The diagnostics for one field of a struct.
pub open spec fn field_complaints(value: ReflectedView, name: Seq<char>) -> Seq<DiagnosticView>
    decreases value, 1nat,
{
    match value {
        ReflectedView::Enum(_) => complaints(value, name),
        ReflectedView::Scalar(_) => complaints(value, name),
        _ => single(DiagnosticKind::UnsupportedShape, name),
    }
}

/// The diagnostics for the first `n` fields of a struct.
pub open spec fn fields_complaints(fields: Seq<FieldView>, n: nat) -> Seq<DiagnosticView>
    decreases fields, n,
{
    if n == 0 || n > fields.len() {
        Seq::empty()
    } else {
        fields_complaints(fields, (n - 1) as nat) + field_complaints(
            fields[n - 1].value,
            fields[n - 1].name,
        )
    }
}

/// Converts a scalar by its type. Signed integers and unsigned ones of up
/// to 32 bits are widened; a 64-bit or word-sized unsigned number is taken
/// only up to `INTEGER_MAX`; strings are copied.
pub fn encode_scalar(scalar: &Scalar) -> (converted: Result<toml::Value, DiagnosticKind>)
    ensures
        match converted {
            Ok(value) => scalar_doc(scalar@) == Ok::<Doc, DiagnosticKind>(value_doc(value)),
            Err(kind) => scalar_doc(scalar@) == Err::<Doc, DiagnosticKind>(kind),
        },
{
    match scalar {
        Scalar::Float(held) => {
            if holds_float(held) {
                Ok(copy_value(held))
            } else {
                Err(DiagnosticKind::UnsupportedShape)
            }
        },
        Scalar::I8(i) => Ok(integer_value(*i as i64)),
        Scalar::I16(i) => Ok(integer_value(*i as i64)),
        Scalar::I32(i) => Ok(integer_value(*i as i64)),
        Scalar::I64(i) => Ok(integer_value(*i)),
        Scalar::U8(u) => Ok(integer_value(*u as i64)),
        Scalar::U16(u) => Ok(integer_value(*u as i64)),
        Scalar::U32(u) => Ok(integer_value(*u as i64)),
        Scalar::U64(u) => {
            if *u <= INTEGER_MAX {
                Ok(integer_value(*u as i64))
            } else {
                Err(DiagnosticKind::NumericOverflow)
            }
        },
        Scalar::Usize(u) => {
            let wide: u64 = *u as u64;
            if wide <= INTEGER_MAX {
                Ok(integer_value(wide as i64))
            } else {
                Err(DiagnosticKind::NumericOverflow)
            }
        },
        Scalar::Text(text) => Ok(text_value(text.as_str())),
        Scalar::Other(_) => Err(DiagnosticKind::UnsupportedShape),
    }
}

/// Stores the name of the current variant of a unit enumeration under
/// `key`. A variant that carries data is reported and left out.
pub fn save_enum(
    enum_ref: &EnumValue,
    key: &str,
    table: &mut toml::Table,
    diagnostics: &mut Vec<Diagnostic>,
)
    ensures
        table_entries(*final(table)) == (if enum_ref@.kind is Unit {
            upsert(table_entries(*old(table)), key@, Doc::Text(enum_ref@.variant))
        } else {
            table_entries(*old(table))
        }),
        diagnostics_view(final(diagnostics)@) == diagnostics_view(old(diagnostics)@) + (
        if enum_ref@.kind is Unit {
            Seq::empty()
        } else {
            single(DiagnosticKind::UnsupportedShape, key@)
        }),
{
    proof {
        lemma_enum_view(enum_ref);
    }
    match enum_ref.kind {
        VariantKind::Unit => {
            insert_value(table, key, text_value(enum_ref.variant.as_str()));
        },
        _ => {
            report(diagnostics, DiagnosticKind::UnsupportedShape, key);
        },
    }
}

/// Encodes a reflected property and stores it in the table under `key`.
pub fn store_prop(
    value: &Reflected,
    key: &str,
    table: &mut toml::Table,
    diagnostics: &mut Vec<Diagnostic>,
)
    ensures
        table_entries(*final(table)) == stored(value@, key@, table_entries(*old(table))),
        diagnostics_view(final(diagnostics)@) == diagnostics_view(old(diagnostics)@) + complaints(
            value@,
            key@,
        ),
    decreases value,
{
    proof {
        lemma_reflected_view(value);
    }
    match value {
        Reflected::Struct(strct) => {
            let mut field_table = new_table();
            save_struct(strct, &mut field_table, diagnostics);
            insert_value(table, key, table_value(field_table));
        },
        Reflected::Enum(enum_ref) => {
            proof {
                lemma_enum_view(enum_ref);
            }
            if starts_with(enum_ref.type_path.as_str(), "core::option::Option") {
                if same_text(enum_ref.variant.as_str(), "Some") {
                    if enum_ref.fields.len() > 0 {
                        store_prop(&enum_ref.fields[0], key, table, diagnostics);
                    } else {
                        report(diagnostics, DiagnosticKind::UnsupportedShape, key);
                    }
                }
            } else {
                save_enum(enum_ref, key, table, diagnostics);
            }
        },
        Reflected::Scalar(scalar) => {
            match encode_scalar(scalar) {
                Ok(converted) => {
                    insert_value(table, key, converted);
                },
                Err(kind) => {
                    report(diagnostics, kind, key);
                },
            }
        },
        Reflected::TupleStruct(_) => {
            report(diagnostics, DiagnosticKind::UnsupportedShape, key);
        },
        Reflected::Unsupported(_) => {
            report(diagnostics, DiagnosticKind::UnsupportedShape, key);
        },
    }
}

/// Stores every field of a struct in the table, under the field's name.
/// A field that is itself a struct, a tuple struct or a container is
/// reported and left out.
pub fn save_struct(strct: &StructValue, table: &mut toml::Table, diagnostics: &mut Vec<Diagnostic>)
    ensures
        table_entries(*final(table)) == fields_into(
            strct@.fields,
            strct@.fields.len(),
            table_entries(*old(table)),
        ),
        diagnostics_view(final(diagnostics)@) == diagnostics_view(old(diagnostics)@)
            + fields_complaints(strct@.fields, strct@.fields.len()),
    decreases strct,
{
    proof {
        lemma_struct_view(strct);
    }
    let ghost fields = strct@.fields;
    let ghost base = table_entries(*table);
    let ghost reported = diagnostics_view(diagnostics@);
    let mut i: usize = 0;
    while i < strct.fields.len()
        invariant
            i <= strct.fields.len(),
            fields == strct@.fields,
            fields.len() == strct.fields.len(),
            table_entries(*table) == fields_into(fields, i as nat, base),
            diagnostics_view(diagnostics@) == reported + fields_complaints(fields, i as nat),
        decreases strct.fields.len() - i,
    {
        proof {
            lemma_struct_view(strct);
            lemma_reflected_view(&strct.fields[i as int].value);
        }
        let ghost before = fields_complaints(fields, i as nat);
        let field = &strct.fields[i];
        match &field.value {
            Reflected::Enum(_) => {
                store_prop(&field.value, field.name.as_str(), table, diagnostics);
            },
            Reflected::Scalar(_) => {
                store_prop(&field.value, field.name.as_str(), table, diagnostics);
            },
            _ => {
                report(diagnostics, DiagnosticKind::UnsupportedShape, field.name.as_str());
            },
        }
        proof {
            let next = (i + 1) as nat;
            let added = field_complaints(fields[i as int].value, fields[i as int].name);
            assert(fields_into(fields, next, base) == match field_doc(fields[i as int].value) {
                Some(doc) => upsert(fields_into(fields, i as nat, base), fields[i as int].name, doc),
                None => fields_into(fields, i as nat, base),
            });
            assert(fields_complaints(fields, next) == before + added);
            assert((reported + before) + added =~= reported + (before + added));
        }
        i += 1;
    }
}

} // verus!

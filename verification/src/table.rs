//! The TOML table that holds the document, and what this library takes on
//! trust about the `toml` crate. Nothing in this file is proved: each
//! contract restates what the crate's source shows.

use crate::document::{lookup, upsert, Doc, Entry};
use vstd::prelude::*;

verus! {

/// `toml::Value`, of which the verifier sees nothing but `value_doc`.
#[verifier::external_type_specification]
#[verifier::external_body]
pub struct ExValue(toml::Value);

/// `toml::map::Map`, of which the verifier sees nothing but
/// `table_entries`.
#[verifier::external_type_specification]
#[verifier::external_body]
#[verifier::reject_recursive_types(K)]
#[verifier::reject_recursive_types(V)]
pub struct ExTable<K, V>(toml::map::Map<K, V>);

/// `toml::ser::Error`, which is only passed on.
#[verifier::external_type_specification]
#[verifier::external_body]
pub struct ExSerializeError(toml::ser::Error);

/// The entries that a table holds, in its iteration order. With the
/// `preserve_order` feature of `toml` that is the order of first insertion.
pub uninterp spec fn table_entries(table: toml::map::Map<String, toml::Value>) -> Seq<Entry>;

/// What a `toml::Value` holds: a float by `f64::to_bits`, a date by its
/// `Display` form, a table by `table_entries`.
pub uninterp spec fn value_doc(value: toml::Value) -> Doc;

/// The text that `toml::to_string` writes for a table with these entries,
/// or `None` where it reports an error.
pub uninterp spec fn toml_text(entries: Seq<Entry>) -> Option<Seq<char>>;

/// `toml::map::Map::new`: a table without entries.
#[verifier::external_body]
pub(crate) fn new_table() -> (table: toml::Table)
    ensures
        table_entries(table) == Seq::<Entry>::empty(),
{
    toml::Table::new()
}

/// `toml::map::Map::insert`, which is `IndexMap::insert`: a key that is
/// present keeps its place and takes the new value, a new key goes last.
/// The value that was replaced is dropped.
#[verifier::external_body]
pub(crate) fn insert_value(table: &mut toml::Table, key: &str, value: toml::Value)
    ensures
        table_entries(*final(table)) == upsert(table_entries(*old(table)), key@, value_doc(value)),
{
    table.insert(key.to_string(), value);
}

/// `toml::map::Map::entry` followed by `Entry::or_insert`: a reference to
/// the value under `key`, after `default` was put last where the key was
/// missing. What the caller writes through the reference is what the table
/// then holds under `key`.
#[verifier::external_body]
pub(crate) fn slot_for<'a>(table: &'a mut toml::Table, key: &str, default: toml::Value) -> (slot:
    &'a mut toml::Value)
    ensures
        value_doc(*slot) == (match lookup(table_entries(*old(table)), key@) {
            Some(present) => present,
            None => value_doc(default),
        }),
        table_entries(*final(table)) == upsert(
            table_entries(*old(table)),
            key@,
            value_doc(*final(slot)),
        ),
{
    table.entry(key).or_insert(default)
}

/// `toml::Value::as_table_mut`: the table inside a `Value::Table`, `None`
/// for every other variant, which is left as it is.
#[verifier::external_body]
pub(crate) fn table_in<'a>(value: &'a mut toml::Value) -> (inner: Option<&'a mut toml::Table>)
    ensures
        match inner {
            Some(table) => value_doc(*old(value)) == Doc::Table(table_entries(*table))
                && value_doc(*final(value)) == Doc::Table(table_entries(*final(table))),
            None => !(value_doc(*old(value)) is Table) && value_doc(*final(value)) == value_doc(
                *old(value),
            ),
        },
{
    value.as_table_mut()
}

/// The variant `toml::Value::String`, holding a copy of `text`.
#[verifier::external_body]
pub(crate) fn text_value(text: &str) -> (value: toml::Value)
    ensures
        value_doc(value) == Doc::Text(text@),
{
    toml::Value::String(text.to_string())
}

/// The variant `toml::Value::Integer`.
#[verifier::external_body]
pub(crate) fn integer_value(number: i64) -> (value: toml::Value)
    ensures
        value_doc(value) == Doc::Integer(number as int),
{
    toml::Value::Integer(number)
}

/// The variant `toml::Value::Table`, holding `table`.
#[verifier::external_body]
pub(crate) fn table_value(table: toml::Table) -> (value: toml::Value)
    ensures
        value_doc(value) == Doc::Table(table_entries(table)),
{
    toml::Value::Table(table)
}

/// `toml::Value::is_float`: whether the value is the variant `Float`.
#[verifier::external_body]
pub(crate) fn holds_float(value: &toml::Value) -> (yes: bool)
    ensures
        yes == (value_doc(*value) is Float),
{
    value.is_float()
}

/// `Clone::clone` of `toml::Value`, which the crate derives: a value that
/// holds the same.
#[verifier::external_body]
pub(crate) fn copy_value(value: &toml::Value) -> (copy: toml::Value)
    ensures
        value_doc(copy) == value_doc(*value),
{
    value.clone()
}

/// `toml::to_string` on a table: its TOML text, which depends on the
/// entries alone, or the crate's error.
#[verifier::external_body]
pub(crate) fn to_text(table: &toml::Table) -> (written: Result<String, toml::ser::Error>)
    ensures
        match written {
            Ok(text) => toml_text(table_entries(*table)) == Some(text@),
            Err(_) => toml_text(table_entries(*table)) is None,
        },
{
    toml::to_string(table)
}

} // verus!

use prefs_core::diagnostic::{Diagnostic, DiagnosticKind};
use prefs_core::encode::{encode_scalar, store_prop, INTEGER_MAX};
use prefs_core::reflect::{Reflected, Scalar};
use toml::Table;

fn stored(scalar: Scalar) -> (Table, Vec<Diagnostic>) {
    let mut table = Table::new();
    let mut diagnostics: Vec<Diagnostic> = Vec::new();
    store_prop(&Reflected::Scalar(scalar), "k", &mut table, &mut diagnostics);
    (table, diagnostics)
}

fn integer(scalar: Scalar) -> i64 {
    let (table, diagnostics) = stored(scalar);
    assert!(diagnostics.is_empty());
    assert_eq!(table.len(), 1);
    table.get("k").unwrap().as_integer().unwrap()
}

#[test]
fn signed_integers_are_widened() {
    assert_eq!(integer(Scalar::I8(-128)), -128);
    assert_eq!(integer(Scalar::I8(127)), 127);
    assert_eq!(integer(Scalar::I16(-32768)), -32768);
    assert_eq!(integer(Scalar::I32(i32::MIN)), -2147483648);
    assert_eq!(integer(Scalar::I32(42)), 42);
    assert_eq!(integer(Scalar::I64(i64::MIN)), i64::MIN);
    assert_eq!(integer(Scalar::I64(i64::MAX)), 9223372036854775807);
}

#[test]
fn small_unsigned_integers_always_fit() {
    assert_eq!(integer(Scalar::U8(255)), 255);
    assert_eq!(integer(Scalar::U16(65535)), 65535);
    assert_eq!(integer(Scalar::U32(u32::MAX)), 4294967295);
    assert_eq!(integer(Scalar::U32(0)), 0);
}

#[test]
fn u64_at_the_limit_is_stored() {
    assert_eq!(INTEGER_MAX, (1u64 << 63) - 1);
    assert_eq!(integer(Scalar::U64((1u64 << 63) - 1)), i64::MAX);
    assert_eq!(integer(Scalar::U64(0)), 0);
}

#[test]
fn u64_above_the_limit_is_omitted_and_reported() {
    let (table, diagnostics) = stored(Scalar::U64(1u64 << 63));
    assert!(table.get("k").is_none());
    assert!(table.is_empty());
    assert_eq!(diagnostics.len(), 1);
    assert_eq!(diagnostics[0].kind, DiagnosticKind::NumericOverflow);
    assert_eq!(diagnostics[0].subject, "k");
}

#[test]
fn usize_follows_the_same_limit() {
    assert_eq!(integer(Scalar::Usize(12345)), 12345);
    assert_eq!(integer(Scalar::Usize(i64::MAX as usize)), i64::MAX);
    let (table, diagnostics) = stored(Scalar::Usize(usize::MAX));
    assert!(table.is_empty());
    assert_eq!(diagnostics.len(), 1);
    assert_eq!(diagnostics[0].kind, DiagnosticKind::NumericOverflow);
}

#[test]
fn floats_are_stored_as_floats() {
    let (table, diagnostics) = stored(Scalar::Float(toml::Value::Float(0.8f32 as f64)));
    assert!(diagnostics.is_empty());
    assert_eq!(table.get("k").unwrap().as_float().unwrap(), 0.8f32 as f64);
    let (table, _) = stored(Scalar::Float(toml::Value::Float(-1.5e300)));
    assert_eq!(table.get("k").unwrap().as_float().unwrap(), -1.5e300);
    let (table, _) = stored(Scalar::Float(toml::Value::Float(f64::INFINITY)));
    assert_eq!(table.get("k").unwrap().as_float().unwrap(), f64::INFINITY);
}

#[test]
fn a_float_keeps_its_bits() {
    let bits = 0x7ff8_0000_0000_0001u64;
    let (table, _) = stored(Scalar::Float(toml::Value::Float(f64::from_bits(bits))));
    assert_eq!(table.get("k").unwrap().as_float().unwrap().to_bits(), bits);
}

#[test]
fn a_float_that_holds_no_float_is_reported() {
    let (table, diagnostics) = stored(Scalar::Float(toml::Value::Boolean(true)));
    assert!(table.is_empty());
    assert_eq!(diagnostics.len(), 1);
    assert_eq!(diagnostics[0].kind, DiagnosticKind::UnsupportedShape);
    let (table, diagnostics) = stored(Scalar::Float(toml::Value::Integer(3)));
    assert!(table.is_empty());
    assert_eq!(diagnostics.len(), 1);
}

#[test]
fn strings_are_copied() {
    let original = String::from("héllo \"world\"");
    let (table, diagnostics) = stored(Scalar::Text(original.clone()));
    assert!(diagnostics.is_empty());
    assert_eq!(table.get("k").unwrap().as_str().unwrap(), original);
    let (table, _) = stored(Scalar::Text(String::new()));
    assert_eq!(table.get("k").unwrap().as_str().unwrap(), "");
}

#[test]
fn other_opaque_types_are_reported() {
    let (table, diagnostics) = stored(Scalar::Other("core::time::Duration".to_string()));
    assert!(table.is_empty());
    assert_eq!(diagnostics.len(), 1);
    assert_eq!(diagnostics[0].kind, DiagnosticKind::UnsupportedShape);
    assert_eq!(diagnostics[0].subject, "k");
}

#[test]
fn encode_scalar_gives_the_value_or_the_reason() {
    assert_eq!(encode_scalar(&Scalar::I16(-5)), Ok(toml::Value::Integer(-5)));
    assert_eq!(encode_scalar(&Scalar::U32(5)), Ok(toml::Value::Integer(5)));
    assert_eq!(
        encode_scalar(&Scalar::Text("t".to_string())),
        Ok(toml::Value::String("t".to_string()))
    );
    assert_eq!(
        encode_scalar(&Scalar::Float(toml::Value::Float(2.5))),
        Ok(toml::Value::Float(2.5))
    );
    assert_eq!(encode_scalar(&Scalar::U64(u64::MAX)), Err(DiagnosticKind::NumericOverflow));
    assert_eq!(
        encode_scalar(&Scalar::U64(9223372036854775808)),
        Err(DiagnosticKind::NumericOverflow)
    );
    assert_eq!(
        encode_scalar(&Scalar::U64(9223372036854775807)),
        Ok(toml::Value::Integer(9223372036854775807))
    );
    assert_eq!(
        encode_scalar(&Scalar::Other("x".to_string())),
        Err(DiagnosticKind::UnsupportedShape)
    );
    assert_eq!(
        encode_scalar(&Scalar::Float(toml::Value::String("1.0".to_string()))),
        Err(DiagnosticKind::UnsupportedShape)
    );
}

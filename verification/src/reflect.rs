//! The typed view that a host gives of its state: what the encoder reads of
//! a value, held as plain data.

use crate::document::Doc;
use crate::table::value_doc;
use vstd::prelude::*;

verus! {

/// What a variant of an enumeration carries.
#[derive(Clone, Copy, PartialEq, Eq, Debug)]
pub enum VariantKind {
    /// No data.
    Unit,
    /// Positional fields.
    Tuple,
    /// Named fields.
    Struct,
}

/// The preference attributes attached to a type.
pub struct Attributes {
    /// The table under the document root that collects the type's entries.
    pub group: Option<String>,
    /// The key of the single entry that stands for a value of the type.
    pub key: Option<String>,
}

/// A primitive value.
pub enum Scalar {
    /// A 32-bit or 64-bit float, already in document form: this library
    /// holds no floating-point number, so the host makes the value.
    Float(toml::Value),
    I8(i8),
    I16(i16),
    I32(i32),
    I64(i64),
    U8(u8),
    U16(u16),
    U32(u32),
    U64(u64),
    Usize(usize),
    Text(String),
    /// A primitive of any other type, by its type path.
    Other(String),
}

/// A named field of a struct.
pub struct Field {
    pub name: String,
    pub value: Reflected,
}

/// A value with named fields.
pub struct StructValue {
    pub type_path: String,
    pub attributes: Attributes,
    pub fields: Vec<Field>,
}

/// A value with positional fields, most often one.
pub struct TupleStructValue {
    pub type_path: String,
    pub attributes: Attributes,
    pub fields: Vec<Reflected>,
}

/// A value of an enumeration: its current variant and the data in it.
pub struct EnumValue {
    pub type_path: String,
    pub attributes: Attributes,
    pub variant: String,
    pub kind: VariantKind,
    pub fields: Vec<Reflected>,
}

/// A value as the host's introspection shows it.
pub enum Reflected {
    Struct(StructValue),
    TupleStruct(TupleStructValue),
    Enum(EnumValue),
    Scalar(Scalar),
    /// A tuple, list, array, map or set, by its type path.
    Unsupported(String),
}

pub struct AttributesView {
    pub group: Option<Seq<char>>,
    pub key: Option<Seq<char>>,
}

pub enum ScalarView {
    /// What the carried value holds.
    Float(Doc),
    I8(i8),
    I16(i16),
    I32(i32),
    I64(i64),
    U8(u8),
    U16(u16),
    U32(u32),
    U64(u64),
    Usize(usize),
    Text(Seq<char>),
    Other(Seq<char>),
}

pub struct FieldView {
    pub name: Seq<char>,
    pub value: ReflectedView,
}

pub struct StructView {
    pub type_path: Seq<char>,
    pub attributes: AttributesView,
    pub fields: Seq<FieldView>,
}

pub struct TupleStructView {
    pub type_path: Seq<char>,
    pub attributes: AttributesView,
    pub fields: Seq<ReflectedView>,
}

pub struct EnumView {
    pub type_path: Seq<char>,
    pub attributes: AttributesView,
    pub variant: Seq<char>,
    pub kind: VariantKind,
    pub fields: Seq<ReflectedView>,
}

pub enum ReflectedView {
    Struct(StructView),
    TupleStruct(TupleStructView),
    Enum(EnumView),
    Scalar(ScalarView),
    Unsupported(Seq<char>),
}

/// The view of an optional string.
pub open spec fn text_view(text: Option<String>) -> Option<Seq<char>> {
    match text {
        Some(s) => Some(s@),
        None => None,
    }
}

impl View for Attributes {
    type V = AttributesView;

    open spec fn view(&self) -> AttributesView {
        AttributesView { group: text_view(self.group), key: text_view(self.key) }
    }
}

impl View for Scalar {
    type V = ScalarView;

    open spec fn view(&self) -> ScalarView {
        match self {
            Scalar::Float(value) => ScalarView::Float(value_doc(*value)),
            Scalar::I8(i) => ScalarView::I8(*i),
            Scalar::I16(i) => ScalarView::I16(*i),
            Scalar::I32(i) => ScalarView::I32(*i),
            Scalar::I64(i) => ScalarView::I64(*i),
            Scalar::U8(u) => ScalarView::U8(*u),
            Scalar::U16(u) => ScalarView::U16(*u),
            Scalar::U32(u) => ScalarView::U32(*u),
            Scalar::U64(u) => ScalarView::U64(*u),
            Scalar::Usize(u) => ScalarView::Usize(*u),
            Scalar::Text(s) => ScalarView::Text(s@),
            Scalar::Other(path) => ScalarView::Other(path@),
        }
    }
}

/// The views of a struct's fields, in order.
pub open spec fn fields_view(fields: Seq<Field>) -> Seq<FieldView>
    decreases fields,
{
    if fields.len() == 0 {
        Seq::empty()
    } else {
        fields_view(fields.drop_last()).push(fields.last()@)
    }
}

/// The views of a list of values, in order.
pub open spec fn values_view(values: Seq<Reflected>) -> Seq<ReflectedView>
    decreases values,
{
    if values.len() == 0 {
        Seq::empty()
    } else {
        values_view(values.drop_last()).push(values.last()@)
    }
}

impl View for Field {
    type V = FieldView;

    open spec fn view(&self) -> FieldView
        decreases self,
    {
        FieldView { name: self.name@, value: self.value@ }
    }
}

impl View for StructValue {
    type V = StructView;

    open spec fn view(&self) -> StructView
        decreases self,
    {
        StructView {
            type_path: self.type_path@,
            attributes: self.attributes@,
            fields: fields_view(self.fields@),
        }
    }
}

impl View for TupleStructValue {
    type V = TupleStructView;

    open spec fn view(&self) -> TupleStructView
        decreases self,
    {
        TupleStructView {
            type_path: self.type_path@,
            attributes: self.attributes@,
            fields: values_view(self.fields@),
        }
    }
}

impl View for EnumValue {
    type V = EnumView;

    open spec fn view(&self) -> EnumView
        decreases self,
    {
        EnumView {
            type_path: self.type_path@,
            attributes: self.attributes@,
            variant: self.variant@,
            kind: self.kind,
            fields: values_view(self.fields@),
        }
    }
}

impl View for Reflected {
    type V = ReflectedView;

    open spec fn view(&self) -> ReflectedView
        decreases self,
    {
        match self {
            Reflected::Struct(s) => ReflectedView::Struct(s@),
            Reflected::TupleStruct(t) => ReflectedView::TupleStruct(t@),
            Reflected::Enum(e) => ReflectedView::Enum(e@),
            Reflected::Scalar(s) => ReflectedView::Scalar(s@),
            Reflected::Unsupported(path) => ReflectedView::Unsupported(path@),
        }
    }
}

/// The view of a list of fields holds the view of each field, in place.
pub proof fn lemma_fields_view(fields: Seq<Field>)
    ensures
        fields_view(fields).len() == fields.len(),
        forall|i: int| 0 <= i < fields.len() ==> (#[trigger] fields_view(fields)[i]) == fields[i]@,
    decreases fields.len(),
{
    if fields.len() > 0 {
        lemma_fields_view(fields.drop_last());
        assert(fields_view(fields) == fields_view(fields.drop_last()).push(fields.last()@));
        assert(fields_view(fields.drop_last()).len() == fields.len() - 1);
    } else {
        assert(fields_view(fields) == Seq::<FieldView>::empty());
    }
}

/// The view of a list of values holds the view of each value, in place.
pub proof fn lemma_values_view(values: Seq<Reflected>)
    ensures
        values_view(values).len() == values.len(),
        forall|i: int| 0 <= i < values.len() ==> (#[trigger] values_view(values)[i]) == values[i]@,
    decreases values.len(),
{
    if values.len() > 0 {
        lemma_values_view(values.drop_last());
        assert(values_view(values) == values_view(values.drop_last()).push(values.last()@));
        assert(values_view(values.drop_last()).len() == values.len() - 1);
    } else {
        assert(values_view(values) == Seq::<ReflectedView>::empty());
    }
}

/// The view of a struct holds the view of each field, in place.
pub proof fn lemma_struct_view(strct: &StructValue)
    ensures
        strct@.type_path == strct.type_path@,
        strct@.attributes == strct.attributes@,
        strct@.fields.len() == strct.fields.len(),
        forall|i: int|
            0 <= i < strct.fields.len() ==> (#[trigger] strct@.fields[i]) == (FieldView {
                name: strct.fields[i].name@,
                value: strct.fields[i].value@,
            }),
{
    lemma_fields_view(strct.fields@);
    assert(strct@.fields == fields_view(strct.fields@));
    assert forall|i: int| 0 <= i < strct.fields.len() implies (#[trigger] strct@.fields[i]) == (
    FieldView { name: strct.fields[i].name@, value: strct.fields[i].value@ }) by {
        assert(fields_view(strct.fields@)[i] == strct.fields@[i]@);
    }
}

/// The view of a tuple struct holds the view of each field, in place.
pub proof fn lemma_tuple_struct_view(tuple_struct: &TupleStructValue)
    ensures
        tuple_struct@.type_path == tuple_struct.type_path@,
        tuple_struct@.attributes == tuple_struct.attributes@,
        tuple_struct@.fields.len() == tuple_struct.fields.len(),
        forall|i: int|
            0 <= i < tuple_struct.fields.len() ==> (#[trigger] tuple_struct@.fields[i])
                == tuple_struct.fields[i]@,
{
    lemma_values_view(tuple_struct.fields@);
    assert(tuple_struct@.fields == values_view(tuple_struct.fields@));
}

/// The view of an enumeration holds the view of each field, in place.
pub proof fn lemma_enum_view(enum_ref: &EnumValue)
    ensures
        enum_ref@.type_path == enum_ref.type_path@,
        enum_ref@.attributes == enum_ref.attributes@,
        enum_ref@.variant == enum_ref.variant@,
        enum_ref@.kind == enum_ref.kind,
        enum_ref@.fields.len() == enum_ref.fields.len(),
        forall|i: int|
            0 <= i < enum_ref.fields.len() ==> (#[trigger] enum_ref@.fields[i])
                == enum_ref.fields[i]@,
{
    lemma_values_view(enum_ref.fields@);
    assert(enum_ref@.fields == values_view(enum_ref.fields@));
}

/// The view of a value is the view of what it holds.
pub proof fn lemma_reflected_view(value: &Reflected)
    ensures
        match *value {
            Reflected::Struct(s) => value@ == ReflectedView::Struct(s@),
            Reflected::TupleStruct(t) => value@ == ReflectedView::TupleStruct(t@),
            Reflected::Enum(e) => value@ == ReflectedView::Enum(e@),
            Reflected::Scalar(s) => value@ == ReflectedView::Scalar(s@),
            Reflected::Unsupported(path) => value@ == ReflectedView::Unsupported(path@),
        },
{
}

} // verus!

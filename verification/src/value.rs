//! The values that can be encoded, as a closed set of shapes.

use vstd::prelude::*;

verus! {

/// A structured value. The shapes are those of records, optional fields,
/// sequences, enumerations and scalars; a floating-point number is held as
/// its decimal text.
#[derive(Debug)]
pub enum Value {
    Bool(bool),
    I8(i8),
    I16(i16),
    I32(i32),
    I64(i64),
    U8(u8),
    U16(u16),
    U32(u32),
    U64(u64),
    /// A single-precision number, as its decimal text.
    F32(String),
    /// A double-precision number, as its decimal text.
    F64(String),
    Char(char),
    Str(String),
    /// Raw bytes, which are encoded as a sequence of small integers.
    Bytes(Vec<u8>),
    /// An optional value that is not there.
    Absent,
    /// An optional value that is there.
    Present(Box<Value>),
    /// The empty tuple.
    Unit,
    /// A struct without fields.
    UnitStruct,
    /// An enum variant without fields, by its name.
    UnitVariant(String),
    /// A struct that wraps one value.
    NewtypeStruct(Box<Value>),
    /// An enum variant that wraps one value.
    NewtypeVariant(Box<Value>),
    Sequence(Vec<Value>),
    Tuple(Vec<Value>),
    TupleStruct(Vec<Value>),
    TupleVariant(Vec<Value>),
    /// A dictionary: keys with their values, in insertion order.
    Mapping(Vec<(Value, Value)>),
    /// A record: named fields, in declaration order.
    Struct(Vec<Field>),
    /// An enum variant with named fields, in declaration order.
    StructVariant(Vec<Field>),
}

/// A named field of a record or of an enum variant.
#[derive(Debug)]
pub struct Field {
    pub name: String,
    pub value: Value,
    /// Whether the fields of the value are to be merged into the record
    /// that holds this field, in place of the field itself.
    pub flatten: bool,
}

/// The mathematical content of a [`Value`]: the same shapes, with texts as
/// sequences of characters and lists as sequences.
pub enum Data {
    Bool(bool),
    I8(i8),
    I16(i16),
    I32(i32),
    I64(i64),
    U8(u8),
    U16(u16),
    U32(u32),
    U64(u64),
    F32(Seq<char>),
    F64(Seq<char>),
    Char(char),
    Str(Seq<char>),
    Bytes(Seq<u8>),
    Absent,
    Present(Box<Data>),
    Unit,
    UnitStruct,
    UnitVariant(Seq<char>),
    NewtypeStruct(Box<Data>),
    NewtypeVariant(Box<Data>),
    Sequence(Seq<Data>),
    Tuple(Seq<Data>),
    TupleStruct(Seq<Data>),
    TupleVariant(Seq<Data>),
    Mapping(Seq<Member>),
    Struct(Seq<Member>),
    StructVariant(Seq<Member>),
}

/// One member of a key-value aggregate: the mathematical content of a
/// [`Field`] or of an entry of a dictionary.
pub enum Member {
    /// A named field of a record or of an enum variant.
    Named { name: Seq<char>, value: Data, flatten: bool },
    /// An entry of a dictionary.
    Keyed { key: Data, value: Data },
}

/// The content of a value.
pub open spec fn data_of(value: Value) -> Data
    decreases value,
{
    match value {
        Value::Bool(v) => Data::Bool(v),
        Value::I8(v) => Data::I8(v),
        Value::I16(v) => Data::I16(v),
        Value::I32(v) => Data::I32(v),
        Value::I64(v) => Data::I64(v),
        Value::U8(v) => Data::U8(v),
        Value::U16(v) => Data::U16(v),
        Value::U32(v) => Data::U32(v),
        Value::U64(v) => Data::U64(v),
        Value::F32(text) => Data::F32(text@),
        Value::F64(text) => Data::F64(text@),
        Value::Char(c) => Data::Char(c),
        Value::Str(s) => Data::Str(s@),
        Value::Bytes(bytes) => Data::Bytes(bytes@),
        Value::Absent => Data::Absent,
        Value::Present(inner) => Data::Present(Box::new(data_of(*inner))),
        Value::Unit => Data::Unit,
        Value::UnitStruct => Data::UnitStruct,
        Value::UnitVariant(name) => Data::UnitVariant(name@),
        Value::NewtypeStruct(inner) => Data::NewtypeStruct(Box::new(data_of(*inner))),
        Value::NewtypeVariant(inner) => Data::NewtypeVariant(Box::new(data_of(*inner))),
        Value::Sequence(items) => Data::Sequence(data_items(items@)),
        Value::Tuple(items) => Data::Tuple(data_items(items@)),
        Value::TupleStruct(items) => Data::TupleStruct(data_items(items@)),
        Value::TupleVariant(items) => Data::TupleVariant(data_items(items@)),
        Value::Mapping(entries) => Data::Mapping(entry_members(entries@)),
        Value::Struct(fields) => Data::Struct(field_members(fields@)),
        Value::StructVariant(fields) => Data::StructVariant(field_members(fields@)),
    }
}

/// The contents of the elements of a list, in order. (The closure asks
/// for the index to be in range so that the recursion is well founded.)
pub open spec fn data_items(items: Seq<Value>) -> Seq<Data>
    decreases items,
{
    Seq::new(
        items.len(),
        |i: int|
            if 0 <= i < items.len() {
                data_of(items[i])
            } else {
                Data::Unit
            },
    )
}

/// The fields of a record as members, in order.
pub open spec fn field_members(fields: Seq<Field>) -> Seq<Member>
    decreases fields,
{
    Seq::new(
        fields.len(),
        |i: int|
            if 0 <= i < fields.len() {
                Member::Named {
                    name: fields[i].name@,
                    value: data_of(fields[i].value),
                    flatten: fields[i].flatten,
                }
            } else {
                Member::Keyed { key: Data::Unit, value: Data::Unit }
            },
    )
}

/// The entries of a dictionary as members, in order.
pub open spec fn entry_members(entries: Seq<(Value, Value)>) -> Seq<Member>
    decreases entries,
{
    Seq::new(
        entries.len(),
        |i: int|
            if 0 <= i < entries.len() {
                Member::Keyed { key: data_of(entries[i].0), value: data_of(entries[i].1) }
            } else {
                Member::Keyed { key: Data::Unit, value: Data::Unit }
            },
    )
}

/// The bytes of raw bytes as list elements: each one a `U8`.
pub open spec fn byte_items(bytes: Seq<u8>) -> Seq<Data> {
    Seq::new(bytes.len(), |i: int| Data::U8(bytes[i]))
}

impl View for Value {
    type V = Data;

    open spec fn view(&self) -> Data {
        data_of(*self)
    }
}

impl View for Field {
    type V = Member;

    open spec fn view(&self) -> Member {
        Member::Named { name: self.name@, value: self.value@, flatten: self.flatten }
    }
}

impl Member {
    /// True for a named field that is marked for merging.
    pub open spec fn is_merged(self) -> bool {
        match self {
            Member::Named { name, value, flatten } => flatten,
            Member::Keyed { key, value } => false,
        }
    }

    /// The value of the member.
    pub open spec fn value(self) -> Data {
        match self {
            Member::Named { name, value, flatten } => value,
            Member::Keyed { key, value } => value,
        }
    }
}

impl Data {
    /// The content inside any optional and single-value wrappers: what is
    /// left when `Present`, `NewtypeStruct` and `NewtypeVariant` are taken
    /// off, outermost first.
    pub open spec fn peeled(self) -> Data
        decreases self,
    {
        match self {
            Data::Present(inner) => inner.peeled(),
            Data::NewtypeStruct(inner) => inner.peeled(),
            Data::NewtypeVariant(inner) => inner.peeled(),
            _ => self,
        }
    }

    /// True for the shapes that carry keys: dictionaries, records and enum
    /// variants with named fields.
    pub open spec fn is_aggregate(self) -> bool {
        self is Mapping || self is Struct || self is StructVariant
    }

    /// True for the shapes that hold an ordered run of elements under one
    /// key: sequences, tuples and raw bytes.
    pub open spec fn is_list(self) -> bool {
        self is Sequence || self is Tuple || self is Bytes
    }

    /// The members of an aggregate, in order; empty for any other shape.
    pub open spec fn members(self) -> Seq<Member> {
        match self {
            Data::Mapping(members) => members,
            Data::Struct(members) => members,
            Data::StructVariant(members) => members,
            _ => Seq::empty(),
        }
    }

    /// The elements of a list, in order, each byte of raw bytes standing
    /// as a `U8`; empty for any other shape.
    pub open spec fn items(self) -> Seq<Data> {
        match self {
            Data::Sequence(items) => items,
            Data::Tuple(items) => items,
            Data::Bytes(bytes) => byte_items(bytes),
            _ => Seq::empty(),
        }
    }
}

impl Field {
    /// A field that is encoded under its own name.
    pub fn new(name: String, value: Value) -> (field: Field)
        ensures
            field.name == name,
            field.value == value,
            !field.flatten,
    {
        Field { name, value, flatten: false }
    }

    /// A field whose own fields are merged into the record that holds it.
    pub fn flattened(name: String, value: Value) -> (field: Field)
        ensures
            field.name == name,
            field.value == value,
            field.flatten,
    {
        Field { name, value, flatten: true }
    }
}

impl Value {
    /// The value inside any optional and single-value wrappers.
    pub fn peel(&self) -> (inner: &Value)
        ensures
            inner@ == self@.peeled(),
            !(inner is Present),
            !(inner is NewtypeStruct),
            !(inner is NewtypeVariant),
        decreases self,
    {
        match self {
            Value::Present(inner) => inner.peel(),
            Value::NewtypeStruct(inner) => inner.peel(),
            Value::NewtypeVariant(inner) => inner.peel(),
            _ => self,
        }
    }
}

} // verus!

//! The serializers: one for the top level, one for the members of an
//! aggregate, one for the elements of a list and one for a single value.

pub mod map;
pub mod seq;
pub mod simple;

use crate::encoding::top_output;
use crate::error::{Error, Fault};
use crate::value::Value;
use vstd::prelude::*;
use vstd::utf8::{encode_utf8, valid_utf8};

verus! {

/// The error of `String::from_utf8`.
#[verifier::external_type_specification]
#[verifier::external_body]
pub struct ExFromUtf8Error(std::string::FromUtf8Error);

/// The text that `bytes` hold, made by `String::from_utf8`. That function
/// succeeds exactly when the bytes are valid UTF-8, and the string it
/// gives then holds those very bytes.
#[verifier::external_body]
fn string_from_utf8(bytes: Vec<u8>) -> (res: Result<String, std::string::FromUtf8Error>)
    ensures
        res is Ok <==> valid_utf8(bytes@),
        res matches Ok(text) ==> encode_utf8(text@) == bytes@,
{
    String::from_utf8(bytes)
}

/// Encodes a value at the top level of the sink it borrows. Only an
/// aggregate, an absent optional and the empty tuple are accepted there.
pub struct Serializer<'w> {
    /// The sink.
    pub writer: &'w mut Vec<u8>,
}

impl<'w> Serializer<'w> {
    /// A serializer that appends to `writer`.
    pub fn new(writer: &'w mut Vec<u8>) -> (s: Self)
        ensures
            *s.writer == *old(writer),
            *final(s.writer) == *final(writer),
    {
        Serializer { writer }
    }

    /// Refuses a shape at the top level, by its name.
    fn refuse(&mut self, kind: &'static str) -> (res: Result<(), Error>)
        ensures
            res matches Err(e) && e@ == Fault::UnsupportedAtTopLevel(kind@),
            *final(self) == *old(self),
    {
        Err(Error::UnsupportedAtTopLevel(kind))
    }

    pub fn serialize_bool(&mut self, _v: bool) -> (res: Result<(), Error>)
        ensures
            res matches Err(e) && e@ == Fault::UnsupportedAtTopLevel("bool"@),
            *final(self) == *old(self),
    {
        self.refuse("bool")
    }

    pub fn serialize_i8(&mut self, _v: i8) -> (res: Result<(), Error>)
        ensures
            res matches Err(e) && e@ == Fault::UnsupportedAtTopLevel("i8"@),
            *final(self) == *old(self),
    {
        self.refuse("i8")
    }

    pub fn serialize_i16(&mut self, _v: i16) -> (res: Result<(), Error>)
        ensures
            res matches Err(e) && e@ == Fault::UnsupportedAtTopLevel("i16"@),
            *final(self) == *old(self),
    {
        self.refuse("i16")
    }

    pub fn serialize_i32(&mut self, _v: i32) -> (res: Result<(), Error>)
        ensures
            res matches Err(e) && e@ == Fault::UnsupportedAtTopLevel("i32"@),
            *final(self) == *old(self),
    {
        self.refuse("i32")
    }

    pub fn serialize_i64(&mut self, _v: i64) -> (res: Result<(), Error>)
        ensures
            res matches Err(e) && e@ == Fault::UnsupportedAtTopLevel("i64"@),
            *final(self) == *old(self),
    {
        self.refuse("i64")
    }

    pub fn serialize_u8(&mut self, _v: u8) -> (res: Result<(), Error>)
        ensures
            res matches Err(e) && e@ == Fault::UnsupportedAtTopLevel("u8"@),
            *final(self) == *old(self),
    {
        self.refuse("u8")
    }

    pub fn serialize_u16(&mut self, _v: u16) -> (res: Result<(), Error>)
        ensures
            res matches Err(e) && e@ == Fault::UnsupportedAtTopLevel("u16"@),
            *final(self) == *old(self),
    {
        self.refuse("u16")
    }

    pub fn serialize_u32(&mut self, _v: u32) -> (res: Result<(), Error>)
        ensures
            res matches Err(e) && e@ == Fault::UnsupportedAtTopLevel("u32"@),
            *final(self) == *old(self),
    {
        self.refuse("u32")
    }

    pub fn serialize_u64(&mut self, _v: u64) -> (res: Result<(), Error>)
        ensures
            res matches Err(e) && e@ == Fault::UnsupportedAtTopLevel("u64"@),
            *final(self) == *old(self),
    {
        self.refuse("u64")
    }

    /// Refuses a single-precision number, given as its decimal text.
    pub fn serialize_f32(&mut self, _v: &str) -> (res: Result<(), Error>)
        ensures
            res matches Err(e) && e@ == Fault::UnsupportedAtTopLevel("f32"@),
            *final(self) == *old(self),
    {
        self.refuse("f32")
    }

    /// Refuses a double-precision number, given as its decimal text.
    pub fn serialize_f64(&mut self, _v: &str) -> (res: Result<(), Error>)
        ensures
            res matches Err(e) && e@ == Fault::UnsupportedAtTopLevel("f64"@),
            *final(self) == *old(self),
    {
        self.refuse("f64")
    }

    pub fn serialize_char(&mut self, _v: char) -> (res: Result<(), Error>)
        ensures
            res matches Err(e) && e@ == Fault::UnsupportedAtTopLevel("char"@),
            *final(self) == *old(self),
    {
        self.refuse("char")
    }

    pub fn serialize_str(&mut self, _v: &str) -> (res: Result<(), Error>)
        ensures
            res matches Err(e) && e@ == Fault::UnsupportedAtTopLevel("str"@),
            *final(self) == *old(self),
    {
        self.refuse("str")
    }

    pub fn serialize_bytes(&mut self, _v: &[u8]) -> (res: Result<(), Error>)
        ensures
            res matches Err(e) && e@ == Fault::UnsupportedAtTopLevel("bytes"@),
            *final(self) == *old(self),
    {
        self.refuse("bytes")
    }

    /// Accepts an absent optional. Nothing is written.
    pub fn serialize_none(&mut self) -> (res: Result<(), Error>)
        ensures
            res is Ok,
            *final(self) == *old(self),
    {
        Ok(())
    }

    /// Encodes a present optional as the value inside it.
    pub fn serialize_some(&mut self, value: &Value) -> (res: Result<(), Error>)
        ensures
            final(self).writer@ == old(self).writer@ + top_output(value@).bytes,
            *final(final(self).writer) == *final(old(self).writer),
            res is Ok <==> top_output(value@).fault is None,
            res matches Err(e) ==> top_output(value@).fault == Some(e@),
        decreases value, 1nat,
    {
        self.serialize(value)
    }

    /// Accepts the empty tuple. Nothing is written.
    pub fn serialize_unit(&mut self) -> (res: Result<(), Error>)
        ensures
            res is Ok,
            *final(self) == *old(self),
    {
        Ok(())
    }

    pub fn serialize_unit_struct(&mut self) -> (res: Result<(), Error>)
        ensures
            res matches Err(e) && e@ == Fault::UnsupportedAtTopLevel("unit struct"@),
            *final(self) == *old(self),
    {
        self.refuse("unit struct")
    }

    pub fn serialize_unit_variant(&mut self, _variant: &str) -> (res: Result<(), Error>)
        ensures
            res matches Err(e) && e@ == Fault::UnsupportedAtTopLevel("unit variant"@),
            *final(self) == *old(self),
    {
        self.refuse("unit variant")
    }

    /// Encodes a struct that wraps one value as that value.
    pub fn serialize_newtype_struct(&mut self, value: &Value) -> (res: Result<(), Error>)
        ensures
            final(self).writer@ == old(self).writer@ + top_output(value@).bytes,
            *final(final(self).writer) == *final(old(self).writer),
            res is Ok <==> top_output(value@).fault is None,
            res matches Err(e) ==> top_output(value@).fault == Some(e@),
        decreases value, 1nat,
    {
        self.serialize(value)
    }

    /// Encodes an enum variant that wraps one value as that value.
    pub fn serialize_newtype_variant(&mut self, value: &Value) -> (res: Result<(), Error>)
        ensures
            final(self).writer@ == old(self).writer@ + top_output(value@).bytes,
            *final(final(self).writer) == *final(old(self).writer),
            res is Ok <==> top_output(value@).fault is None,
            res matches Err(e) ==> top_output(value@).fault == Some(e@),
        decreases value, 1nat,
    {
        self.serialize(value)
    }

    pub fn serialize_seq(&mut self) -> (res: Result<(), Error>)
        ensures
            res matches Err(e) && e@ == Fault::UnsupportedAtTopLevel("sequence"@),
            *final(self) == *old(self),
    {
        self.refuse("sequence")
    }

    pub fn serialize_tuple(&mut self) -> (res: Result<(), Error>)
        ensures
            res matches Err(e) && e@ == Fault::UnsupportedAtTopLevel("tuple"@),
            *final(self) == *old(self),
    {
        self.refuse("tuple")
    }

    pub fn serialize_tuple_struct(&mut self) -> (res: Result<(), Error>)
        ensures
            res matches Err(e) && e@ == Fault::UnsupportedAtTopLevel("tuple struct"@),
            *final(self) == *old(self),
    {
        self.refuse("tuple struct")
    }

    pub fn serialize_tuple_variant(&mut self) -> (res: Result<(), Error>)
        ensures
            res matches Err(e) && e@ == Fault::UnsupportedAtTopLevel("tuple variant"@),
            *final(self) == *old(self),
    {
        self.refuse("tuple variant")
    }

    /// Begins a dictionary of `len` entries: writes `?` unless it has
    /// none, and hands the sink to an encoder of members.
    pub fn serialize_map<'s>(&'s mut self, len: usize) -> (res: Result<
        crate::ser::map::Serializer<'s>,
        Error,
    >)
        ensures
            res matches Ok(m) && !m.nested && m.first_param && m.writer@ == old(self).writer@ + (
            if len > 0 {
                seq![63u8]
            } else {
                Seq::empty()
            }) && *final(self).writer == *final(m.writer),
            *final(final(self).writer) == *final(old(self).writer),
    {
        if len > 0 {
            self.writer.push(63);
        }
        assert(self.writer@ =~= old(self).writer@ + (if len > 0 {
            seq![63u8]
        } else {
            Seq::empty()
        }));
        Ok(crate::ser::map::Serializer::new(&mut *self.writer, false))
    }

    /// Begins a record of `len` fields: writes `?` unless it has none,
    /// and hands the sink to an encoder of members.
    pub fn serialize_struct<'s>(&'s mut self, len: usize) -> (res: Result<
        crate::ser::map::Serializer<'s>,
        Error,
    >)
        ensures
            res matches Ok(m) && !m.nested && m.first_param && m.writer@ == old(self).writer@ + (
            if len > 0 {
                seq![63u8]
            } else {
                Seq::empty()
            }) && *final(self).writer == *final(m.writer),
            *final(final(self).writer) == *final(old(self).writer),
    {
        self.serialize_map(len)
    }

    /// Begins an enum variant of `len` named fields: writes `?` unless it
    /// has none, and hands the sink to an encoder of members. The name of
    /// the variant is not written.
    pub fn serialize_struct_variant<'s>(&'s mut self, len: usize) -> (res: Result<
        crate::ser::map::Serializer<'s>,
        Error,
    >)
        ensures
            res matches Ok(m) && !m.nested && m.first_param && m.writer@ == old(self).writer@ + (
            if len > 0 {
                seq![63u8]
            } else {
                Seq::empty()
            }) && *final(self).writer == *final(m.writer),
            *final(final(self).writer) == *final(old(self).writer),
    {
        self.serialize_map(len)
    }

    /// Encodes `value` at the top level, whatever its shape: each shape
    /// goes to the method that is named after it.
    pub fn serialize(&mut self, value: &Value) -> (res: Result<(), Error>)
        ensures
            final(self).writer@ == old(self).writer@ + top_output(value@).bytes,
            *final(final(self).writer) == *final(old(self).writer),
            res is Ok <==> top_output(value@).fault is None,
            res matches Err(e) ==> top_output(value@).fault == Some(e@),
        decreases value, 0nat,
    {
        match value {
            Value::Bool(v) => self.serialize_bool(*v),
            Value::I8(v) => self.serialize_i8(*v),
            Value::I16(v) => self.serialize_i16(*v),
            Value::I32(v) => self.serialize_i32(*v),
            Value::I64(v) => self.serialize_i64(*v),
            Value::U8(v) => self.serialize_u8(*v),
            Value::U16(v) => self.serialize_u16(*v),
            Value::U32(v) => self.serialize_u32(*v),
            Value::U64(v) => self.serialize_u64(*v),
            Value::F32(v) => self.serialize_f32(v.as_str()),
            Value::F64(v) => self.serialize_f64(v.as_str()),
            Value::Char(v) => self.serialize_char(*v),
            Value::Str(v) => self.serialize_str(v.as_str()),
            Value::Bytes(v) => self.serialize_bytes(v.as_slice()),
            Value::Absent => self.serialize_none(),
            Value::Present(inner) => self.serialize_some(inner),
            Value::Unit => self.serialize_unit(),
            Value::UnitStruct => self.serialize_unit_struct(),
            Value::UnitVariant(name) => self.serialize_unit_variant(name.as_str()),
            Value::NewtypeStruct(inner) => self.serialize_newtype_struct(inner),
            Value::NewtypeVariant(inner) => self.serialize_newtype_variant(inner),
            Value::Sequence(_) => self.serialize_seq(),
            Value::Tuple(_) => self.serialize_tuple(),
            Value::TupleStruct(_) => self.serialize_tuple_struct(),
            Value::TupleVariant(_) => self.serialize_tuple_variant(),
            Value::Mapping(entries) => match self.serialize_map(entries.len()) {
                Ok(members) => {
                    let mut members = members;
                    match members.serialize_entries(entries) {
                        Ok(()) => members.end(),
                        Err(e) => Err(e),
                    }
                },
                Err(e) => Err(e),
            },
            Value::Struct(fields) => match self.serialize_struct(fields.len()) {
                Ok(members) => {
                    let mut members = members;
                    match members.serialize_fields(fields) {
                        Ok(()) => members.end(),
                        Err(e) => Err(e),
                    }
                },
                Err(e) => Err(e),
            },
            Value::StructVariant(fields) => match self.serialize_struct_variant(fields.len()) {
                Ok(members) => {
                    let mut members = members;
                    match members.serialize_fields(fields) {
                        Ok(()) => members.end(),
                        Err(e) => Err(e),
                    }
                },
                Err(e) => Err(e),
            },
        }
    }
}

/// Encodes `value` as URL parameters and appends them to `writer`.
///
/// It fails, with the bytes written until then left in `writer`, when
/// the value at the top level has no keys, and when a value that is
/// neither a scalar nor a list of scalars stands on the right of a key.
pub fn to_writer(writer: &mut Vec<u8>, value: &Value) -> (res: Result<(), Error>)
    ensures
        final(writer)@ == old(writer)@ + top_output(value@).bytes,
        res is Ok <==> top_output(value@).fault is None,
        res matches Err(e) ==> top_output(value@).fault == Some(e@),
{
    let mut ser = Serializer::new(writer);
    ser.serialize(value)
}

/// Encodes `value` as URL parameters, as bytes.
pub fn to_vec(value: &Value) -> (res: Result<Vec<u8>, Error>)
    ensures
        res is Ok <==> top_output(value@).fault is None,
        res matches Ok(bytes) ==> bytes@ == top_output(value@).bytes,
        res matches Err(e) ==> top_output(value@).fault == Some(e@),
{
    let mut writer: Vec<u8> = Vec::with_capacity(128);
    match to_writer(&mut writer, value) {
        Ok(()) => {
            assert(writer@ =~= top_output(value@).bytes);
            Ok(writer)
        },
        Err(e) => Err(e),
    }
}

/// Encodes `value` as URL parameters, as text. What the encoder writes
/// is always valid UTF-8, so the only failures are those of the encoding
/// itself.
pub fn to_string(value: &Value) -> (res: Result<String, Error>)
    ensures
        res is Ok <==> top_output(value@).fault is None,
        res matches Ok(text) ==> encode_utf8(text@) == top_output(value@).bytes,
        res matches Err(e) ==> top_output(value@).fault == Some(e@),
{
    match to_vec(value) {
        Ok(bytes) => {
            proof {
                crate::wellformed::lemma_top_output_is_utf8(value@);
            }
            match string_from_utf8(bytes) {
                Ok(text) => Ok(text),
                Err(e) => Err(Error::Extern(e.to_string())),
            }
        },
        Err(e) => Err(e),
    }
}

} // verus!

//! The encoder of one value in one place: as the value of a field, or as
//! an element of a list.

use crate::encoding::{bare_output, field_lead, keyed_output, list_output, Output};
use crate::error::{Error, Fault};
use crate::text::{
    bool_text, char_text, decimal, form_encoded, push_bool, push_char, push_decimal,
    push_form_encoded, push_signed_decimal, signed_decimal,
};
use crate::value::{byte_items, Data, Value};
use vstd::prelude::*;
use vstd::utf8::encode_utf8;

verus! {

/// Writes one value to the sink it borrows. Made by `new_from_toplevel`
/// it writes a field, `key=value`, after a `&` unless the field is the
/// first; made by `new_from_seq` it writes the bare text of an element.
pub struct Serializer<'a> {
    /// True if nothing was written before this value in its aggregate
    /// or list.
    pub first_param: bool,
    /// The key under which the value stands.
    pub key: &'a str,
    /// The sink.
    pub writer: &'a mut Vec<u8>,
    /// True for a field, whose value may be a list; false for an element
    /// of a list, which may not.
    pub sequence_allowed: bool,
}

impl<'a> Serializer<'a> {
    /// What a field's encoder writes before the value. An element's
    /// encoder takes no account of it.
    pub open spec fn lead(self) -> Seq<u8> {
        field_lead(self.first_param, self.key@)
    }

    /// The text of a scalar as this encoder writes it: after the lead
    /// for a field, bare for an element.
    pub open spec fn framed(self, text: Seq<u8>) -> Seq<u8> {
        if self.sequence_allowed {
            self.lead() + text
        } else {
            text
        }
    }

    /// What this encoder does with `value`.
    pub open spec fn output(self, value: Data) -> Output {
        if self.sequence_allowed {
            keyed_output(value, self.lead())
        } else {
            bare_output(value)
        }
    }

    /// An encoder for the value of the field `key`; `first_param` says
    /// whether no field was written before it.
    pub fn new_from_toplevel(first_param: bool, key: &'a str, writer: &'a mut Vec<u8>) -> (s: Self)
        ensures
            s.first_param == first_param,
            s.key == key,
            s.sequence_allowed,
            *s.writer == *old(writer),
            *final(s.writer) == *final(writer),
    {
        Serializer { first_param, key, writer, sequence_allowed: true }
    }

    /// An encoder for one element of the list that stands under `key`.
    pub fn new_from_seq(first_param: bool, key: &'a str, writer: &'a mut Vec<u8>) -> (s: Self)
        ensures
            s.first_param == first_param,
            s.key == key,
            !s.sequence_allowed,
            *s.writer == *old(writer),
            *final(s.writer) == *final(writer),
    {
        Serializer { first_param, key, writer, sequence_allowed: false }
    }

    /// Writes what comes before the value: for a field the separator,
    /// the form-encoded key and `=`, for an element nothing.
    fn write_lead(&mut self)
        ensures
            final(self).writer@ == old(self).writer@ + old(self).framed(Seq::empty()),
            final(self).first_param == old(self).first_param,
            final(self).key == old(self).key,
            final(self).sequence_allowed == old(self).sequence_allowed,
            *final(final(self).writer) == *final(old(self).writer),
    {
        if self.sequence_allowed {
            if !self.first_param {
                self.writer.push(38);
            }
            push_form_encoded(self.writer, self.key.as_bytes());
            self.writer.push(61);
        }
        assert(self.writer@ =~= old(self).writer@ + old(self).framed(Seq::empty()));
    }

    pub fn serialize_bool(self, v: bool) -> (res: Result<(), Error>)
        ensures
            res is Ok,
            final(self.writer)@ == old(self.writer)@ + self.framed(bool_text(v)),
    {
        let mut this = self;
        this.write_lead();
        push_bool(this.writer, v);
        assert(this.writer@ =~= old(self.writer)@ + self.framed(bool_text(v)));
        Ok(())
    }

    pub fn serialize_i8(self, v: i8) -> (res: Result<(), Error>)
        ensures
            res is Ok,
            final(self.writer)@ == old(self.writer)@ + self.framed(signed_decimal(v as int)),
    {
        self.serialize_i64(v as i64)
    }

    pub fn serialize_i16(self, v: i16) -> (res: Result<(), Error>)
        ensures
            res is Ok,
            final(self.writer)@ == old(self.writer)@ + self.framed(signed_decimal(v as int)),
    {
        self.serialize_i64(v as i64)
    }

    pub fn serialize_i32(self, v: i32) -> (res: Result<(), Error>)
        ensures
            res is Ok,
            final(self.writer)@ == old(self.writer)@ + self.framed(signed_decimal(v as int)),
    {
        self.serialize_i64(v as i64)
    }

    pub fn serialize_i64(self, v: i64) -> (res: Result<(), Error>)
        ensures
            res is Ok,
            final(self.writer)@ == old(self.writer)@ + self.framed(signed_decimal(v as int)),
    {
        let mut this = self;
        this.write_lead();
        push_signed_decimal(this.writer, v);
        assert(this.writer@ =~= old(self.writer)@ + self.framed(signed_decimal(v as int)));
        Ok(())
    }

    pub fn serialize_u8(self, v: u8) -> (res: Result<(), Error>)
        ensures
            res is Ok,
            final(self.writer)@ == old(self.writer)@ + self.framed(decimal(v as nat)),
    {
        self.serialize_u64(v as u64)
    }

    pub fn serialize_u16(self, v: u16) -> (res: Result<(), Error>)
        ensures
            res is Ok,
            final(self.writer)@ == old(self.writer)@ + self.framed(decimal(v as nat)),
    {
        self.serialize_u64(v as u64)
    }

    pub fn serialize_u32(self, v: u32) -> (res: Result<(), Error>)
        ensures
            res is Ok,
            final(self.writer)@ == old(self.writer)@ + self.framed(decimal(v as nat)),
    {
        self.serialize_u64(v as u64)
    }

    pub fn serialize_u64(self, v: u64) -> (res: Result<(), Error>)
        ensures
            res is Ok,
            final(self.writer)@ == old(self.writer)@ + self.framed(decimal(v as nat)),
    {
        let mut this = self;
        this.write_lead();
        push_decimal(this.writer, v);
        assert(this.writer@ =~= old(self.writer)@ + self.framed(decimal(v as nat)));
        Ok(())
    }

    /// Writes a single-precision number, given as its decimal text. The
    /// text is form-encoded, which leaves the text of a number as it is.
    pub fn serialize_f32(self, v: &str) -> (res: Result<(), Error>)
        ensures
            res is Ok,
            final(self.writer)@ == old(self.writer)@ + self.framed(
                form_encoded(encode_utf8(v@)),
            ),
    {
        self.serialize_f64(v)
    }

    /// Writes a double-precision number, given as its decimal text. The
    /// text is form-encoded, which leaves the text of a number as it is.
    pub fn serialize_f64(self, v: &str) -> (res: Result<(), Error>)
        ensures
            res is Ok,
            final(self.writer)@ == old(self.writer)@ + self.framed(
                form_encoded(encode_utf8(v@)),
            ),
    {
        let mut this = self;
        this.write_lead();
        push_form_encoded(this.writer, v.as_bytes());
        assert(this.writer@ =~= old(self.writer)@ + self.framed(form_encoded(encode_utf8(v@))));
        Ok(())
    }

    pub fn serialize_char(self, v: char) -> (res: Result<(), Error>)
        ensures
            res is Ok,
            final(self.writer)@ == old(self.writer)@ + self.framed(char_text(v)),
    {
        let mut this = self;
        this.write_lead();
        push_char(this.writer, v);
        assert(this.writer@ =~= old(self.writer)@ + self.framed(char_text(v)));
        Ok(())
    }

    /// Writes a string, form-encoded.
    pub fn serialize_str(self, v: &str) -> (res: Result<(), Error>)
        ensures
            res is Ok,
            final(self.writer)@ == old(self.writer)@ + self.framed(
                form_encoded(encode_utf8(v@)),
            ),
    {
        let mut this = self;
        this.write_lead();
        push_form_encoded(this.writer, v.as_bytes());
        assert(this.writer@ =~= old(self.writer)@ + self.framed(form_encoded(encode_utf8(v@))));
        Ok(())
    }

    /// Writes raw bytes as a list of their decimal numerals. Among the
    /// elements of a list they are refused.
    pub fn serialize_bytes(self, v: &[u8]) -> (res: Result<(), Error>)
        ensures
            self.sequence_allowed ==> res is Ok && final(self.writer)@ == old(self.writer)@
                + self.lead() + list_output(byte_items(v@)).bytes,
            list_output(byte_items(v@)).fault is None,
            !self.sequence_allowed ==> final(self.writer)@ == old(self.writer)@
                && (res matches Err(e) && e@ == Fault::UnsupportedNestedStruct("bytes"@)),
    {
        proof {
            crate::encoding::lemma_bytes_never_fault(v@, v@.len(), true);
        }
        if !self.sequence_allowed {
            return Err(Error::UnsupportedNestedStruct("bytes"));
        }
        let mut this = self;
        this.write_lead();
        let serializer = crate::ser::seq::Serializer::new(this.key, this.writer);
        serializer.serialize_bytes(v)
    }

    /// Writes an absent optional: nothing after the lead.
    pub fn serialize_none(self) -> (res: Result<(), Error>)
        ensures
            res is Ok,
            final(self.writer)@ == old(self.writer)@ + self.framed(Seq::empty()),
    {
        let mut this = self;
        this.write_lead();
        Ok(())
    }

    /// Writes a present optional as the value inside it.
    pub fn serialize_some(self, value: &Value) -> (res: Result<(), Error>)
        ensures
            final(self.writer)@ == old(self.writer)@ + self.output(value@).bytes,
            res is Ok <==> self.output(value@).fault is None,
            res matches Err(e) ==> self.output(value@).fault == Some(e@),
        decreases value, 1nat,
    {
        self.serialize(value)
    }

    /// Writes the empty tuple: nothing after the lead.
    pub fn serialize_unit(self) -> (res: Result<(), Error>)
        ensures
            res is Ok,
            final(self.writer)@ == old(self.writer)@ + self.framed(Seq::empty()),
    {
        let mut this = self;
        this.write_lead();
        Ok(())
    }

    /// Refuses a struct without fields.
    pub fn serialize_unit_struct(self) -> (res: Result<(), Error>)
        ensures
            res matches Err(e) && e@ == Fault::UnsupportedNestedStruct("unit struct"@),
            final(self.writer)@ == old(self.writer)@,
    {
        Err(Error::UnsupportedNestedStruct("unit struct"))
    }

    /// Writes an enum variant without fields as its name, form-encoded.
    pub fn serialize_unit_variant(self, variant: &str) -> (res: Result<(), Error>)
        ensures
            res is Ok,
            final(self.writer)@ == old(self.writer)@ + self.framed(
                form_encoded(encode_utf8(variant@)),
            ),
    {
        self.serialize_str(variant)
    }

    /// Writes a struct that wraps one value as that value.
    pub fn serialize_newtype_struct(self, value: &Value) -> (res: Result<(), Error>)
        ensures
            final(self.writer)@ == old(self.writer)@ + self.output(value@).bytes,
            res is Ok <==> self.output(value@).fault is None,
            res matches Err(e) ==> self.output(value@).fault == Some(e@),
        decreases value, 1nat,
    {
        self.serialize(value)
    }

    /// Writes an enum variant that wraps one value as that value.
    pub fn serialize_newtype_variant(self, value: &Value) -> (res: Result<(), Error>)
        ensures
            final(self.writer)@ == old(self.writer)@ + self.output(value@).bytes,
            res is Ok <==> self.output(value@).fault is None,
            res matches Err(e) ==> self.output(value@).fault == Some(e@),
        decreases value, 1nat,
    {
        self.serialize(value)
    }

    /// Begins a sequence: for a field, writes the lead and hands the sink
    /// to an encoder of elements; among the elements of a list a sequence
    /// is refused.
    pub fn serialize_seq(self) -> (res: Result<crate::ser::seq::Serializer<'a>, Error>)
        ensures
            self.sequence_allowed ==> (res matches Ok(s) && s.first_param && s.key == self.key
                && s.writer@ == old(self.writer)@ + self.lead()
                && *final(s.writer) == *final(self.writer)),
            !self.sequence_allowed ==> final(self.writer)@ == old(self.writer)@
                && (res matches Err(e) && e@ == Fault::UnsupportedNestedStruct("sequence"@)),
    {
        if self.sequence_allowed {
            let mut this = self;
            this.write_lead();
            Ok(crate::ser::seq::Serializer::new(this.key, this.writer))
        } else {
            Err(Error::UnsupportedNestedStruct("sequence"))
        }
    }

    /// Begins a tuple, which is encoded as a sequence is.
    pub fn serialize_tuple(self) -> (res: Result<crate::ser::seq::Serializer<'a>, Error>)
        ensures
            self.sequence_allowed ==> (res matches Ok(s) && s.first_param && s.key == self.key
                && s.writer@ == old(self.writer)@ + self.lead()
                && *final(s.writer) == *final(self.writer)),
            !self.sequence_allowed ==> final(self.writer)@ == old(self.writer)@
                && (res matches Err(e) && e@ == Fault::UnsupportedNestedStruct("sequence"@)),
    {
        self.serialize_seq()
    }

    /// Refuses a struct of several unnamed fields.
    pub fn serialize_tuple_struct(self) -> (res: Result<crate::ser::seq::Serializer<'a>, Error>)
        ensures
            res matches Err(e) && e@ == Fault::UnsupportedNestedStruct("tuple struct"@),
            final(self.writer)@ == old(self.writer)@,
    {
        Err(Error::UnsupportedNestedStruct("tuple struct"))
    }

    /// Refuses an enum variant of several unnamed fields.
    pub fn serialize_tuple_variant(self) -> (res: Result<crate::ser::seq::Serializer<'a>, Error>)
        ensures
            res matches Err(e) && e@ == Fault::UnsupportedNestedStruct("tuple variant"@),
            final(self.writer)@ == old(self.writer)@,
    {
        Err(Error::UnsupportedNestedStruct("tuple variant"))
    }

    /// Refuses a dictionary.
    pub fn serialize_map(self) -> (res: Result<(), Error>)
        ensures
            res matches Err(e) && e@ == Fault::UnsupportedNestedStruct("map"@),
            final(self.writer)@ == old(self.writer)@,
    {
        Err(Error::UnsupportedNestedStruct("map"))
    }

    /// Refuses a record.
    pub fn serialize_struct(self) -> (res: Result<(), Error>)
        ensures
            res matches Err(e) && e@ == Fault::UnsupportedNestedStruct("struct"@),
            final(self.writer)@ == old(self.writer)@,
    {
        Err(Error::UnsupportedNestedStruct("struct"))
    }

    /// Refuses an enum variant with named fields.
    pub fn serialize_struct_variant(self) -> (res: Result<(), Error>)
        ensures
            res matches Err(e) && e@ == Fault::UnsupportedNestedStruct("struct variant"@),
            final(self.writer)@ == old(self.writer)@,
    {
        Err(Error::UnsupportedNestedStruct("struct variant"))
    }

    /// Writes `value`, whatever its shape: each shape goes to the method
    /// that is named after it.
    pub fn serialize(self, value: &Value) -> (res: Result<(), Error>)
        ensures
            final(self.writer)@ == old(self.writer)@ + self.output(value@).bytes,
            res is Ok <==> self.output(value@).fault is None,
            res matches Err(e) ==> self.output(value@).fault == Some(e@),
        decreases value, 0nat,
    {
        match value {
            Value::Bool(v) => self.serialize_bool(*v),
            Value::I8(v) => self.serialize_i8(*v),
            Value::I16(v) => self.serialize_i16(*v),
            Value::I32(v) => self.serialize_i32(*v),
            Value::I64(v) => self.serialize_i64(*v),
            Value::U8(v) => self.serialize_u8(*v),
            Value::U16(v) => self.serialize_u16(*v),
            Value::U32(v) => self.serialize_u32(*v),
            Value::U64(v) => self.serialize_u64(*v),
            Value::F32(v) => self.serialize_f32(v.as_str()),
            Value::F64(v) => self.serialize_f64(v.as_str()),
            Value::Char(v) => self.serialize_char(*v),
            Value::Str(v) => self.serialize_str(v.as_str()),
            Value::Bytes(v) => self.serialize_bytes(v.as_slice()),
            Value::Absent => self.serialize_none(),
            Value::Present(inner) => self.serialize_some(inner),
            Value::Unit => self.serialize_unit(),
            Value::UnitStruct => self.serialize_unit_struct(),
            Value::UnitVariant(name) => self.serialize_unit_variant(name.as_str()),
            Value::NewtypeStruct(inner) => self.serialize_newtype_struct(inner),
            Value::NewtypeVariant(inner) => self.serialize_newtype_variant(inner),
            Value::Sequence(items) => match self.serialize_seq() {
                Ok(serializer) => serializer.serialize_elements(items),
                Err(e) => Err(e),
            },
            Value::Tuple(items) => match self.serialize_tuple() {
                Ok(serializer) => serializer.serialize_elements(items),
                Err(e) => Err(e),
            },
            Value::TupleStruct(_) => match self.serialize_tuple_struct() {
                Ok(serializer) => serializer.end(),
                Err(e) => Err(e),
            },
            Value::TupleVariant(_) => match self.serialize_tuple_variant() {
                Ok(serializer) => serializer.end(),
                Err(e) => Err(e),
            },
            Value::Mapping(_) => self.serialize_map(),
            Value::Struct(_) => self.serialize_struct(),
            Value::StructVariant(_) => self.serialize_struct_variant(),
        }
    }
}

} // verus!

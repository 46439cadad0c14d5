//! The encoder of the members of a record, of an enum variant with named
//! fields or of a dictionary.

use crate::encoding::{
    entry_output, field_output, key_output, keyed_output, member_output, pair_separator,
    walk_members, Walk,
};
use crate::error::Error;
use crate::ser::simple;
use crate::value::{entry_members, field_members, Field, Member, Value};
use vstd::prelude::*;

verus! {

/// Writes the members of one aggregate, `&`-joined, to the sink it
/// borrows.
pub struct Serializer<'a> {
    /// True for an aggregate whose members are being merged into the
    /// aggregate that holds it. Nothing can be merged into such a one.
    pub nested: bool,
    /// The sink.
    pub writer: &'a mut Vec<u8>,
    /// True until a member has written a pair. Once false it stays false.
    pub first_param: bool,
}

impl<'a> Serializer<'a> {
    /// An encoder for the members of an aggregate, before any member.
    pub fn new(writer: &'a mut Vec<u8>, nested: bool) -> (s: Self)
        ensures
            s.nested == nested,
            s.first_param,
            *s.writer == *old(writer),
            *final(s.writer) == *final(writer),
    {
        Serializer { nested, writer, first_param: true }
    }

    /// Writes the key of a dictionary entry: `&` unless the entry is the
    /// first, then the key's text, or its comma-joined elements if it is
    /// a list. A key of any other shape is refused, after the `&`.
    pub fn serialize_key(&mut self, key: &Value) -> (res: Result<(), Error>)
        ensures
            final(self).writer@ == old(self).writer@ + pair_separator(old(self).first_param)
                + key_output(key@).bytes,
            final(self).nested == old(self).nested,
            *final(final(self).writer) == *final(old(self).writer),
            res is Ok ==> key_output(key@).fault is None && !final(self).first_param,
            res matches Err(e) ==> key_output(key@).fault == Some(e@) && final(self).first_param
                == old(self).first_param,
    {
        if !self.first_param {
            self.writer.push(38);
        }
        assert(self.writer@ =~= old(self).writer@ + pair_separator(old(self).first_param));
        let res = match key.peel() {
            Value::Sequence(items) => {
                let list = crate::ser::seq::Serializer::new("", &mut *self.writer);
                list.serialize_elements(items)
            },
            Value::Tuple(items) => {
                let list = crate::ser::seq::Serializer::new("", &mut *self.writer);
                list.serialize_elements(items)
            },
            Value::Bytes(bytes) => {
                let list = crate::ser::seq::Serializer::new("", &mut *self.writer);
                list.serialize_bytes(bytes.as_slice())
            },
            _ => {
                let simple = simple::Serializer::new_from_seq(true, "", &mut *self.writer);
                simple.serialize(key)
            },
        };
        assert(self.writer@ =~= old(self).writer@ + pair_separator(old(self).first_param)
            + key_output(key@).bytes);
        match res {
            Ok(()) => {
                self.first_param = false;
                Ok(())
            },
            Err(e) => Err(e),
        }
    }

    /// Writes the value of a dictionary entry after its key: `=`, then
    /// the value's text, or its comma-joined elements if it is a list. A
    /// value of any other shape is refused before anything is written.
    pub fn serialize_value(&mut self, value: &Value) -> (res: Result<(), Error>)
        ensures
            final(self).writer@ == old(self).writer@ + keyed_output(value@, seq![61u8]).bytes,
            final(self).nested == old(self).nested,
            final(self).first_param == old(self).first_param,
            *final(final(self).writer) == *final(old(self).writer),
            res is Ok <==> keyed_output(value@, seq![61u8]).fault is None,
            res matches Err(e) ==> keyed_output(value@, seq![61u8]).fault == Some(e@),
    {
        let simple = simple::Serializer::new_from_toplevel(true, "", &mut *self.writer);
        proof {
            reveal_strlit("");
            assert(""@ =~= Seq::<char>::empty());
            assert(simple.lead() =~= seq![61u8]);
        }
        simple.serialize(value)
    }

    /// Writes a named field under its own name: `&` unless the field is
    /// the first, the form-encoded name, `=`, then the value's text, or
    /// its comma-joined elements if it is a list. A value of any other
    /// shape is refused before anything is written.
    pub fn serialize_field(&mut self, key: &str, value: &Value) -> (res: Result<(), Error>)
        ensures
            final(self).writer@ == old(self).writer@ + field_output(
                key@,
                value@,
                old(self).first_param,
            ).bytes,
            final(self).nested == old(self).nested,
            final(self).first_param == field_output(key@, value@, old(self).first_param).first,
            *final(final(self).writer) == *final(old(self).writer),
            res is Ok <==> field_output(key@, value@, old(self).first_param).fault is None,
            res matches Err(e) ==> field_output(key@, value@, old(self).first_param).fault == Some(
                e@,
            ),
    {
        let simple = simple::Serializer::new_from_toplevel(
            self.first_param,
            key,
            &mut *self.writer,
        );
        match simple.serialize(value) {
            Ok(()) => {
                self.first_param = false;
                Ok(())
            },
            Err(e) => Err(e),
        }
    }

    /// Writes a field that is marked for merging. If its value is an
    /// aggregate, the members of that aggregate are written in its place,
    /// unless this aggregate is itself being merged: then the value is
    /// refused. If its value is absent or the empty tuple, nothing is
    /// written. Any other value is written under the field's name.
    pub fn serialize_flattened(&mut self, key: &str, value: &Value) -> (res: Result<(), Error>)
        ensures
            final(self).writer@ == old(self).writer@ + member_output(
                Member::Named { name: key@, value: value@, flatten: true },
                old(self).nested,
                old(self).first_param,
            ).bytes,
            final(self).nested == old(self).nested,
            *final(final(self).writer) == *final(old(self).writer),
            final(self).first_param == member_output(
                Member::Named { name: key@, value: value@, flatten: true },
                old(self).nested,
                old(self).first_param,
            ).first,
            res is Ok <==> member_output(
                Member::Named { name: key@, value: value@, flatten: true },
                old(self).nested,
                old(self).first_param,
            ).fault is None,
            res matches Err(e) ==> member_output(
                Member::Named { name: key@, value: value@, flatten: true },
                old(self).nested,
                old(self).first_param,
            ).fault == Some(e@),
        decreases (if old(self).nested { 0int } else { 1int }), 0int,
    {
        match value.peel() {
            Value::Mapping(entries) => {
                if self.nested {
                    Err(Error::UnsupportedNestedStruct("map"))
                } else {
                    let mut inner = Serializer {
                        nested: true,
                        writer: &mut *self.writer,
                        first_param: self.first_param,
                    };
                    let res = inner.serialize_entries(entries);
                    let first = inner.first_param;
                    self.first_param = first;
                    res
                }
            },
            Value::Struct(fields) => {
                if self.nested {
                    Err(Error::UnsupportedNestedStruct("struct"))
                } else {
                    let mut inner = Serializer {
                        nested: true,
                        writer: &mut *self.writer,
                        first_param: self.first_param,
                    };
                    let res = inner.serialize_fields(fields);
                    let first = inner.first_param;
                    self.first_param = first;
                    res
                }
            },
            Value::StructVariant(fields) => {
                if self.nested {
                    Err(Error::UnsupportedNestedStruct("struct variant"))
                } else {
                    let mut inner = Serializer {
                        nested: true,
                        writer: &mut *self.writer,
                        first_param: self.first_param,
                    };
                    let res = inner.serialize_fields(fields);
                    let first = inner.first_param;
                    self.first_param = first;
                    res
                }
            },
            Value::Absent => Ok(()),
            Value::Unit => Ok(()),
            _ => self.serialize_field(key, value),
        }
    }

    /// Writes the fields of a record, in order. It stops at the first
    /// field that is refused; the flag is then as the fields before it
    /// left it.
    pub fn serialize_fields(&mut self, fields: &Vec<Field>) -> (res: Result<(), Error>)
        ensures
            final(self).writer@ == old(self).writer@ + walk_members(
                field_members(fields@),
                fields@.len(),
                old(self).nested,
                old(self).first_param,
            ).bytes,
            final(self).nested == old(self).nested,
            *final(final(self).writer) == *final(old(self).writer),
            final(self).first_param == walk_members(
                field_members(fields@),
                fields@.len(),
                old(self).nested,
                old(self).first_param,
            ).first,
            res is Ok <==> walk_members(
                field_members(fields@),
                fields@.len(),
                old(self).nested,
                old(self).first_param,
            ).fault is None,
            res matches Err(e) ==> walk_members(
                field_members(fields@),
                fields@.len(),
                old(self).nested,
                old(self).first_param,
            ).fault == Some(e@),
        decreases (if old(self).nested { 0int } else { 1int }), 1int,
    {
        let ghost members = field_members(fields@);
        let ghost nested = self.nested;
        let ghost first = self.first_param;
        let ghost start = self.writer@;
        let ghost end = *final(self.writer);
        let mut i: usize = 0;
        while i < fields.len()
            invariant
                0 <= i <= fields.len(),
                members == field_members(fields@),
                nested == old(self).nested,
                first == old(self).first_param,
                start == old(self).writer@,
                end == *final(old(self).writer),
                self.nested == nested,
                self.writer@ == start + walk_members(members, i as nat, nested, first).bytes,
                self.first_param == walk_members(members, i as nat, nested, first).first,
                walk_members(members, i as nat, nested, first).fault is None,
                *final(self.writer) == end,
            decreases fields.len() - i,
        {
            let field = &fields[i];
            let ghost before = walk_members(members, i as nat, nested, first);
            let ghost step = member_output(members[i as int], nested, before.first);
            assert(members[i as int] == fields@[i as int]@);
            let res = if field.flatten {
                self.serialize_flattened(field.name.as_str(), &field.value)
            } else {
                self.serialize_field(field.name.as_str(), &field.value)
            };
            assert(self.writer@ == start + before.bytes + step.bytes);
            assert(walk_members(members, (i + 1) as nat, nested, first) == Walk {
                bytes: before.bytes + step.bytes,
                first: step.first,
                fault: step.fault,
            });
            assert(self.writer@ =~= start + walk_members(
                members,
                (i + 1) as nat,
                nested,
                first,
            ).bytes);
            match res {
                Ok(()) => {},
                Err(e) => {
                    proof {
                        crate::encoding::lemma_walk_members_stops(
                            members,
                            (i + 1) as nat,
                            fields@.len(),
                            nested,
                            first,
                        );
                    }
                    return Err(e);
                },
            }
            i += 1;
        }
        Ok(())
    }

    /// Writes the entries of a dictionary, in order. It stops at the
    /// first entry that is refused; the flag is then as the entries
    /// before it left it, and false if the key of that entry was
    /// written.
    pub fn serialize_entries(&mut self, entries: &Vec<(Value, Value)>) -> (res: Result<(), Error>)
        ensures
            final(self).writer@ == old(self).writer@ + walk_members(
                entry_members(entries@),
                entries@.len(),
                old(self).nested,
                old(self).first_param,
            ).bytes,
            final(self).nested == old(self).nested,
            *final(final(self).writer) == *final(old(self).writer),
            final(self).first_param == walk_members(
                entry_members(entries@),
                entries@.len(),
                old(self).nested,
                old(self).first_param,
            ).first,
            res is Ok <==> walk_members(
                entry_members(entries@),
                entries@.len(),
                old(self).nested,
                old(self).first_param,
            ).fault is None,
            res matches Err(e) ==> walk_members(
                entry_members(entries@),
                entries@.len(),
                old(self).nested,
                old(self).first_param,
            ).fault == Some(e@),
    {
        let ghost members = entry_members(entries@);
        let ghost nested = self.nested;
        let ghost first = self.first_param;
        let ghost start = self.writer@;
        let ghost end = *final(self.writer);
        let mut i: usize = 0;
        while i < entries.len()
            invariant
                0 <= i <= entries.len(),
                members == entry_members(entries@),
                nested == old(self).nested,
                first == old(self).first_param,
                start == old(self).writer@,
                end == *final(old(self).writer),
                self.nested == nested,
                self.writer@ == start + walk_members(members, i as nat, nested, first).bytes,
                self.first_param == walk_members(members, i as nat, nested, first).first,
                walk_members(members, i as nat, nested, first).fault is None,
                *final(self.writer) == end,
            decreases entries.len() - i,
        {
            let entry = &entries[i];
            let ghost before = walk_members(members, i as nat, nested, first);
            let ghost step = member_output(members[i as int], nested, before.first);
            assert(members[i as int] == Member::Keyed { key: entry.0@, value: entry.1@ });
            assert(step == entry_output(entry.0@, entry.1@, before.first));
            let res = match self.serialize_key(&entry.0) {
                Ok(()) => self.serialize_value(&entry.1),
                Err(e) => Err(e),
            };
            assert(self.writer@ =~= start + before.bytes + step.bytes);
            assert(walk_members(members, (i + 1) as nat, nested, first) == Walk {
                bytes: before.bytes + step.bytes,
                first: step.first,
                fault: step.fault,
            });
            assert(self.writer@ =~= start + walk_members(
                members,
                (i + 1) as nat,
                nested,
                first,
            ).bytes);
            match res {
                Ok(()) => {},
                Err(e) => {
                    proof {
                        crate::encoding::lemma_walk_members_stops(
                            members,
                            (i + 1) as nat,
                            entries@.len(),
                            nested,
                            first,
                        );
                    }
                    return Err(e);
                },
            }
            i += 1;
        }
        Ok(())
    }

    /// Ends the aggregate. Nothing is written.
    pub fn end(self) -> (res: Result<(), Error>)
        ensures
            res is Ok,
            final(self.writer)@ == old(self.writer)@,
    {
        Ok(())
    }
}

} // verus!

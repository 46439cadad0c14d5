//! The encoder of the elements of a sequence or tuple.

use crate::encoding::{item_output, walk_items};
use crate::error::Error;
use crate::ser::simple;
use crate::value::{byte_items, data_items, Data, Value};
use vstd::prelude::*;

verus! {

/// Writes the elements of one list, comma-joined, to the sink it borrows.
pub struct Serializer<'a> {
    /// The key under which the list stands.
    pub key: &'a str,
    /// The sink.
    pub writer: &'a mut Vec<u8>,
    /// True until an element was accepted, whatever it wrote.
    pub first_param: bool,
}

impl<'a> Serializer<'a> {
    /// An encoder for the elements of the list that stands under `key`,
    /// before any element.
    pub fn new(key: &'a str, writer: &'a mut Vec<u8>) -> (s: Self)
        ensures
            s.key == key,
            s.first_param,
            *s.writer == *old(writer),
            *final(s.writer) == *final(writer),
    {
        Serializer { key, writer, first_param: true }
    }

    /// Writes one element: a `,` unless it is the first, then the
    /// element's text. An element that is not a scalar is refused, after
    /// the `,`; an element that is accepted is counted, whatever it
    /// wrote.
    pub fn serialize_element(&mut self, value: &Value) -> (res: Result<(), Error>)
        ensures
            final(self).writer@ == old(self).writer@ + item_output(
                value@,
                old(self).first_param,
            ).bytes,
            final(self).key == old(self).key,
            *final(final(self).writer) == *final(old(self).writer),
            final(self).first_param == item_output(value@, old(self).first_param).first,
            res is Ok <==> item_output(value@, old(self).first_param).fault is None,
            res is Ok ==> !final(self).first_param,
            res matches Err(e) ==> item_output(value@, old(self).first_param).fault == Some(e@)
                && final(self).first_param == old(self).first_param,
        decreases value, 1nat,
    {
        if !self.first_param {
            self.writer.push(44);
        }
        let simple = simple::Serializer::new_from_seq(
            self.first_param,
            self.key,
            &mut *self.writer,
        );
        match simple.serialize(value) {
            Ok(()) => {
                self.first_param = false;
                Ok(())
            },
            Err(e) => Err(e),
        }
    }

    /// Writes one byte of raw bytes as an element: its decimal numeral.
    pub fn serialize_byte(&mut self, v: u8) -> (res: Result<(), Error>)
        ensures
            res is Ok,
            final(self).writer@ == old(self).writer@ + item_output(
                Data::U8(v),
                old(self).first_param,
            ).bytes,
            final(self).key == old(self).key,
            *final(final(self).writer) == *final(old(self).writer),
            !final(self).first_param,
    {
        if !self.first_param {
            self.writer.push(44);
        }
        let simple = simple::Serializer::new_from_seq(
            self.first_param,
            self.key,
            &mut *self.writer,
        );
        let res = simple.serialize_u8(v);
        self.first_param = false;
        res
    }

    /// Writes all the elements of a list, in order, and ends the list.
    /// It stops at the first element that is refused.
    pub fn serialize_elements(self, items: &Vec<Value>) -> (res: Result<(), Error>)
        ensures
            final(self.writer)@ == old(self.writer)@ + walk_items(
                data_items(items@),
                items@.len(),
                self.first_param,
            ).bytes,
            res is Ok <==> walk_items(data_items(items@), items@.len(), self.first_param).fault is None,
            res matches Err(e) ==> walk_items(data_items(items@), items@.len(), self.first_param).fault
                == Some(e@),
        decreases items, 2nat,
    {
        let mut list = self;
        let ghost first = list.first_param;
        let ghost start = list.writer@;
        let ghost end = *final(list.writer);
        let mut i: usize = 0;
        while i < items.len()
            invariant
                0 <= i <= items.len(),
                first == self.first_param,
                start == old(self.writer)@,
                end == *final(self.writer),
                list.writer@ == start + walk_items(data_items(items@), i as nat, first).bytes,
                list.first_param == walk_items(data_items(items@), i as nat, first).first,
                walk_items(data_items(items@), i as nat, first).fault is None,
                *final(list.writer) == end,
            decreases items.len() - i,
        {
            assert(data_items(items@)[i as int] == items@[i as int]@);
            match list.serialize_element(&items[i]) {
                Ok(()) => {},
                Err(e) => {
                    proof {
                        crate::encoding::lemma_walk_items_stops(
                            data_items(items@),
                            (i + 1) as nat,
                            items@.len(),
                            first,
                        );
                    }
                    assert(list.writer@ =~= start + walk_items(
                        data_items(items@),
                        (i + 1) as nat,
                        first,
                    ).bytes);
                    return Err(e);
                },
            }
            assert(list.writer@ =~= start + walk_items(data_items(items@), (i + 1) as nat, first).bytes);
            i += 1;
        }
        list.end()
    }

    /// Writes raw bytes as the elements of a list, each byte as its
    /// decimal numeral, and ends the list.
    pub fn serialize_bytes(self, v: &[u8]) -> (res: Result<(), Error>)
        ensures
            res is Ok,
            final(self.writer)@ == old(self.writer)@ + walk_items(
                byte_items(v@),
                v@.len(),
                self.first_param,
            ).bytes,
            walk_items(byte_items(v@), v@.len(), self.first_param).fault is None,
    {
        let mut list = self;
        let ghost first = list.first_param;
        let ghost start = list.writer@;
        let ghost end = *final(list.writer);
        let ghost items = byte_items(v@);
        let mut i: usize = 0;
        while i < v.len()
            invariant
                0 <= i <= v.len(),
                items == byte_items(v@),
                first == self.first_param,
                start == old(self.writer)@,
                end == *final(self.writer),
                list.writer@ == start + walk_items(items, i as nat, first).bytes,
                list.first_param == walk_items(items, i as nat, first).first,
                walk_items(items, i as nat, first).fault is None,
                *final(list.writer) == end,
            decreases v.len() - i,
        {
            let _ = list.serialize_byte(v[i]);
            assert(list.writer@ =~= start + walk_items(items, (i + 1) as nat, first).bytes);
            i += 1;
        }
        list.end()
    }

    /// Ends the list. Nothing is written.
    pub fn end(self) -> (res: Result<(), Error>)
        ensures
            res is Ok,
            final(self.writer)@ == old(self.writer)@,
    {
        Ok(())
    }
}

} // verus!

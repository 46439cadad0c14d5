//! What the encoder writes for a value, as mathematics.
//!
//! The functions here say which bytes reach the sink and which fault, if
//! any, stops the walk. The executable serializers are proved against
//! them.

use crate::error::Fault;
use crate::text::{bool_text, char_text, decimal, form_encoded, signed_decimal};
use crate::value::{byte_items, Data, Member};
use vstd::prelude::*;
use vstd::utf8::encode_utf8;

verus! {

/// What encoding one value does: the bytes that it appends to the sink,
/// and the fault that stopped it, if one did.
pub struct Output {
    pub bytes: Seq<u8>,
    pub fault: Option<Fault>,
}

/// The state of a walk over the members of an aggregate or the elements
/// of a list: the bytes appended so far, whether the next one would still
/// be the first (no pair written yet, no element accepted yet), and the
/// fault that stopped the walk, if one did.
pub struct Walk {
    pub bytes: Seq<u8>,
    pub first: bool,
    pub fault: Option<Fault>,
}

impl Data {
    /// The text of a scalar, as it stands in the output: `Some` for the
    /// scalars, the absent optional and the empty tuple among them, and
    /// `None` for every other shape. Integers, booleans and characters
    /// are written as they are. Strings, variant names and the texts of
    /// floating-point numbers are form-encoded, which leaves the text of
    /// a number as it is.
    pub open spec fn token(self) -> Option<Seq<u8>> {
        match self {
            Data::Bool(v) => Some(bool_text(v)),
            Data::I8(v) => Some(signed_decimal(v as int)),
            Data::I16(v) => Some(signed_decimal(v as int)),
            Data::I32(v) => Some(signed_decimal(v as int)),
            Data::I64(v) => Some(signed_decimal(v as int)),
            Data::U8(v) => Some(decimal(v as nat)),
            Data::U16(v) => Some(decimal(v as nat)),
            Data::U32(v) => Some(decimal(v as nat)),
            Data::U64(v) => Some(decimal(v as nat)),
            Data::F32(text) => Some(form_encoded(encode_utf8(text))),
            Data::F64(text) => Some(form_encoded(encode_utf8(text))),
            Data::Char(c) => Some(char_text(c)),
            Data::Str(s) => Some(form_encoded(encode_utf8(s))),
            Data::UnitVariant(name) => Some(form_encoded(encode_utf8(name))),
            Data::Absent => Some(Seq::empty()),
            Data::Unit => Some(Seq::empty()),
            _ => None,
        }
    }

    /// The name under which a shape is refused at the top level.
    pub open spec fn top_kind(self) -> Seq<char> {
        match self {
            Data::Bool(_) => "bool"@,
            Data::I8(_) => "i8"@,
            Data::I16(_) => "i16"@,
            Data::I32(_) => "i32"@,
            Data::I64(_) => "i64"@,
            Data::U8(_) => "u8"@,
            Data::U16(_) => "u16"@,
            Data::U32(_) => "u32"@,
            Data::U64(_) => "u64"@,
            Data::F32(_) => "f32"@,
            Data::F64(_) => "f64"@,
            Data::Char(_) => "char"@,
            Data::Str(_) => "str"@,
            Data::Bytes(_) => "bytes"@,
            Data::UnitStruct => "unit struct"@,
            Data::UnitVariant(_) => "unit variant"@,
            Data::Sequence(_) => "sequence"@,
            Data::Tuple(_) => "tuple"@,
            Data::TupleStruct(_) => "tuple struct"@,
            Data::TupleVariant(_) => "tuple variant"@,
            _ => Seq::empty(),
        }
    }

    /// The name under which a shape is refused in place of a simple value.
    pub open spec fn nested_kind(self) -> Seq<char> {
        match self {
            Data::Bytes(_) => "bytes"@,
            Data::UnitStruct => "unit struct"@,
            Data::Sequence(_) => "sequence"@,
            Data::Tuple(_) => "sequence"@,
            Data::TupleStruct(_) => "tuple struct"@,
            Data::TupleVariant(_) => "tuple variant"@,
            Data::Mapping(_) => "map"@,
            Data::Struct(_) => "struct"@,
            Data::StructVariant(_) => "struct variant"@,
            _ => Seq::empty(),
        }
    }
}

/// `&` before every pair but the first.
pub open spec fn pair_separator(first: bool) -> Seq<u8> {
    if first {
        Seq::empty()
    } else {
        seq![38u8]
    }
}

/// `,` before every element but the first.
pub open spec fn item_separator(first: bool) -> Seq<u8> {
    if first {
        Seq::empty()
    } else {
        seq![44u8]
    }
}

/// What comes before the value of a field: the separator, the
/// form-encoded name and `=`.
pub open spec fn field_lead(first: bool, name: Seq<char>) -> Seq<u8> {
    pair_separator(first) + form_encoded(encode_utf8(name)) + seq![61u8]
}

/// A value where only a scalar may stand, as an element of a list does:
/// its text, or the fault that names its shape.
pub open spec fn bare_output(value: Data) -> Output {
    let v = value.peeled();
    match v.token() {
        Some(text) => Output { bytes: text, fault: None },
        None => Output {
            bytes: Seq::empty(),
            fault: Some(Fault::UnsupportedNestedStruct(v.nested_kind())),
        },
    }
}

/// One element of a list: `,` unless it is the first, then the
/// element's text. An element that is accepted is counted whatever it
/// writes: the absent optional, the empty tuple and the empty string
/// write nothing, and still the next element gets its `,`.
pub open spec fn item_output(item: Data, first: bool) -> Walk {
    let o = bare_output(item);
    Walk {
        bytes: item_separator(first) + o.bytes,
        first: first && o.fault is Some,
        fault: o.fault,
    }
}

/// The walk over the first `n` elements of a list, which stops at the
/// first fault. `first` says whether the walk begins before anything was
/// written.
pub open spec fn walk_items(items: Seq<Data>, n: nat, first: bool) -> Walk
    decreases n,
{
    if n == 0 {
        Walk { bytes: Seq::empty(), first, fault: None }
    } else {
        let before = walk_items(items, (n - 1) as nat, first);
        if before.fault is Some {
            before
        } else {
            let step = item_output(items[n - 1], before.first);
            Walk { bytes: before.bytes + step.bytes, first: step.first, fault: step.fault }
        }
    }
}

/// Once a walk over elements has met a fault, it goes no further.
pub proof fn lemma_walk_items_stops(items: Seq<Data>, k: nat, n: nat, first: bool)
    requires
        k <= n,
        walk_items(items, k, first).fault is Some,
    ensures
        walk_items(items, n, first) == walk_items(items, k, first),
    decreases n,
{
    if k < n {
        lemma_walk_items_stops(items, k, (n - 1) as nat, first);
    }
}

/// Raw bytes never meet a fault: each of them is a scalar.
pub proof fn lemma_bytes_never_fault(bytes: Seq<u8>, n: nat, first: bool)
    requires
        n <= bytes.len(),
    ensures
        walk_items(byte_items(bytes), n, first).fault is None,
    decreases n,
{
    if n > 0 {
        lemma_bytes_never_fault(bytes, (n - 1) as nat, first);
    }
}

/// All the elements of a list, comma-joined.
pub open spec fn list_output(items: Seq<Data>) -> Output {
    let w = walk_items(items, items.len(), true);
    Output { bytes: w.bytes, fault: w.fault }
}

/// A value on the right of `lead`, which ends in `=`: a scalar gives its
/// text, a list its comma-joined elements, and any other shape is refused
/// before anything is written.
pub open spec fn keyed_output(value: Data, lead: Seq<u8>) -> Output {
    let v = value.peeled();
    match v.token() {
        Some(text) => Output { bytes: lead + text, fault: None },
        None => if v.is_list() {
            let elements = list_output(v.items());
            Output { bytes: lead + elements.bytes, fault: elements.fault }
        } else {
            Output {
                bytes: Seq::empty(),
                fault: Some(Fault::UnsupportedNestedStruct(v.nested_kind())),
            }
        },
    }
}

/// A value as the key of a dictionary entry: a scalar gives its text, a
/// list its comma-joined elements, and any other shape is refused.
pub open spec fn key_output(key: Data) -> Output {
    let v = key.peeled();
    if v.is_list() {
        list_output(v.items())
    } else {
        bare_output(key)
    }
}

/// A named field that is encoded under its own name.
pub open spec fn field_output(name: Seq<char>, value: Data, first: bool) -> Walk {
    let o = keyed_output(value, field_lead(first, name));
    Walk { bytes: o.bytes, first: first && o.fault is Some, fault: o.fault }
}

/// An entry of a dictionary: the separator, the key, `=` and the value.
pub open spec fn entry_output(key: Data, value: Data, first: bool) -> Walk {
    let k = key_output(key);
    if k.fault is Some {
        Walk { bytes: pair_separator(first) + k.bytes, first, fault: k.fault }
    } else {
        let o = keyed_output(value, seq![61u8]);
        Walk { bytes: pair_separator(first) + k.bytes + o.bytes, first: false, fault: o.fault }
    }
}

/// One member of an aggregate. A field marked `flatten` whose value is
/// itself an aggregate gives that aggregate's members in its place, one
/// level deep: inside such a merged aggregate (`nested`) it is refused.
/// A field marked `flatten` whose value is absent or the empty tuple
/// gives nothing, and with any other value it is encoded as if it were
/// not marked.
pub open spec fn member_output(member: Member, nested: bool, first: bool) -> Walk
    decreases (if nested { 0int } else { 1int }), 0int, 0int,
{
    match member {
        Member::Keyed { key, value } => entry_output(key, value, first),
        Member::Named { name, value, flatten } => {
            let v = value.peeled();
            if !flatten {
                field_output(name, value, first)
            } else if v.is_aggregate() {
                if nested {
                    Walk {
                        bytes: Seq::empty(),
                        first,
                        fault: Some(Fault::UnsupportedNestedStruct(v.nested_kind())),
                    }
                } else {
                    walk_members(v.members(), v.members().len(), true, first)
                }
            } else if v is Absent || v is Unit {
                Walk { bytes: Seq::empty(), first, fault: None }
            } else {
                field_output(name, value, first)
            }
        },
    }
}

/// The walk over the first `n` members of an aggregate, which stops at
/// the first fault. `first` says whether the walk begins before anything
/// was written.
pub open spec fn walk_members(members: Seq<Member>, n: nat, nested: bool, first: bool) -> Walk
    decreases (if nested { 0int } else { 1int }), n, 1int,
{
    if n == 0 {
        Walk { bytes: Seq::empty(), first, fault: None }
    } else {
        let before = walk_members(members, (n - 1) as nat, nested, first);
        if before.fault is Some {
            before
        } else {
            let step = member_output(members[n - 1], nested, before.first);
            Walk { bytes: before.bytes + step.bytes, first: step.first, fault: step.fault }
        }
    }
}

/// Once a walk over members has met a fault, it goes no further.
pub proof fn lemma_walk_members_stops(
    members: Seq<Member>,
    k: nat,
    n: nat,
    nested: bool,
    first: bool,
)
    requires
        k <= n,
        walk_members(members, k, nested, first).fault is Some,
    ensures
        walk_members(members, n, nested, first) == walk_members(members, k, nested, first),
    decreases n,
{
    if k < n {
        lemma_walk_members_stops(members, k, (n - 1) as nat, nested, first);
    }
}

/// A value at the top level. An aggregate with members gives `?` and its
/// members; an aggregate without members, an absent optional and the
/// empty tuple give nothing; any other shape is refused by its name.
pub open spec fn top_output(value: Data) -> Output {
    let v = value.peeled();
    if v.is_aggregate() {
        if v.members().len() == 0 {
            Output { bytes: Seq::empty(), fault: None }
        } else {
            let w = walk_members(v.members(), v.members().len(), false, true);
            Output { bytes: seq![63u8] + w.bytes, fault: w.fault }
        }
    } else if v is Absent || v is Unit {
        Output { bytes: Seq::empty(), fault: None }
    } else {
        Output { bytes: Seq::empty(), fault: Some(Fault::UnsupportedAtTopLevel(v.top_kind())) }
    }
}

} // verus!

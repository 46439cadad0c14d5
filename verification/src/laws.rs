//! What holds of every encoding: how many pairs the output has, in which
//! order they stand, and which values are refused.

use crate::encoding::{
    bare_output, field_lead, item_output, item_separator, key_output, keyed_output, list_output,
    member_output, pair_separator, top_output, walk_items, walk_members, Output,
};
use crate::error::{Error, Fault};
use crate::text::{
    char_text, decimal, form_encoded, is_form_safe, is_unreserved, lemma_decimal_digits,
    lemma_form_encoded_safe, signed_decimal,
};
use crate::value::{Data, Member};
use vstd::prelude::*;
use vstd::utf8::{
    char_is_scalar, encode_utf8, has_width_1_encoding, last_continuation_byte,
    leading_byte_width_1, leading_byte_width_2, leading_byte_width_3, leading_byte_width_4,
    second_last_continuation_byte, third_last_continuation_byte,
};

verus! {

/// How often the byte `b` occurs in `bytes`.
pub open spec fn occurrences(bytes: Seq<u8>, b: u8) -> nat
    decreases bytes.len(),
{
    if bytes.len() == 0 {
        0
    } else {
        occurrences(bytes.drop_last(), b) + if bytes.last() == b {
            1nat
        } else {
            0nat
        }
    }
}

/// The occurrences in a concatenation are those in its two parts.
pub proof fn lemma_occurrences_concat(left: Seq<u8>, right: Seq<u8>, b: u8)
    ensures
        occurrences(left + right, b) == occurrences(left, b) + occurrences(right, b),
    decreases right.len(),
{
    if right.len() == 0 {
        assert(left + right =~= left);
    } else {
        assert((left + right).drop_last() =~= left + right.drop_last());
        lemma_occurrences_concat(left, right.drop_last(), b);
    }
}

/// A byte that stands nowhere occurs zero times.
pub proof fn lemma_no_occurrence(bytes: Seq<u8>, b: u8)
    requires
        forall|i: int| 0 <= i < bytes.len() ==> #[trigger] bytes[i] != b,
    ensures
        occurrences(bytes, b) == 0,
    decreases bytes.len(),
{
    if bytes.len() > 0 {
        lemma_no_occurrence(bytes.drop_last(), b);
    }
}

/// Every byte of the encoding of a character beyond ASCII has its high
/// bit set.
proof fn lemma_wide_bytes_are_high(v: u32)
    by (bit_vector)
    ensures
        leading_byte_width_2(v) >= 0x80,
        leading_byte_width_3(v) >= 0x80,
        leading_byte_width_4(v) >= 0x80,
        last_continuation_byte(v) >= 0x80,
        second_last_continuation_byte(v) >= 0x80,
        third_last_continuation_byte(v) >= 0x80,
{
}

/// The encoding of an ASCII character is the character's own number.
proof fn lemma_narrow_byte_is_itself(v: u32)
    by (bit_vector)
    requires
        v <= 0x7F,
    ensures
        leading_byte_width_1(v) == v,
{
}

/// The encoding of a character other than `&` holds no `&`.
pub proof fn lemma_char_text_ampersand(c: char)
    requires
        c != '&',
    ensures
        forall|i: int| 0 <= i < char_text(c).len() ==> #[trigger] char_text(c)[i] != 38,
{
    let v = c as u32;
    char_is_scalar(c);
    lemma_wide_bytes_are_high(v);
    if has_width_1_encoding(v) {
        lemma_narrow_byte_is_itself(v);
        assert(v != 38) by {
            if v == 38 {
                assert('&' as u32 == 38u32);
                vstd::utf8::char_u32_cast(c, v);
                vstd::utf8::char_u32_cast('&', 38u32);
            }
        }
    }
}

/// True unless the value is the character `&`. A character is the one
/// scalar that is written as it is and can hold `&`.
pub open spec fn writes_no_ampersand(value: Data) -> bool {
    match value.peeled() {
        Data::Char(c) => c != '&',
        _ => true,
    }
}

/// True if no scalar in the value, itself or among its elements, writes
/// a `&` of its own.
pub open spec fn value_writes_no_ampersand(value: Data) -> bool {
    let v = value.peeled();
    &&& writes_no_ampersand(value)
    &&& v.is_list() ==> forall|i: int|
        0 <= i < v.items().len() ==> writes_no_ampersand(#[trigger] v.items()[i])
}

/// True if no scalar in the member, nor in the members that are merged
/// in its place, writes a `&` of its own.
pub open spec fn member_writes_no_ampersand(member: Member, nested: bool) -> bool
    decreases (if nested { 0int } else { 1int }), 0int, 0int,
{
    match member {
        Member::Keyed { key, value } => value_writes_no_ampersand(key)
            && value_writes_no_ampersand(value),
        Member::Named { name, value, flatten } => {
            let v = value.peeled();
            if flatten && v.is_aggregate() {
                nested || members_write_no_ampersand(v.members(), v.members().len(), true)
            } else {
                value_writes_no_ampersand(value)
            }
        },
    }
}

/// True if none of the first `n` members writes a `&` of its own.
pub open spec fn members_write_no_ampersand(members: Seq<Member>, n: nat, nested: bool) -> bool
    decreases (if nested { 0int } else { 1int }), n, 1int,
{
    n > 0 ==> members_write_no_ampersand(members, (n - 1) as nat, nested)
        && member_writes_no_ampersand(members[n - 1], nested)
}

/// The number of `key=value` pairs that a member stands for: one, unless
/// it is marked for merging; then as many as the aggregate in its place
/// has, and none if its value is absent or the empty tuple.
pub open spec fn member_pairs(member: Member, nested: bool) -> nat
    decreases (if nested { 0int } else { 1int }), 0int, 0int,
{
    match member {
        Member::Keyed { key, value } => 1,
        Member::Named { name, value, flatten } => {
            let v = value.peeled();
            if !flatten {
                1
            } else if v.is_aggregate() {
                if nested {
                    0
                } else {
                    pairs(v.members(), v.members().len(), true)
                }
            } else if v is Absent || v is Unit {
                0
            } else {
                1
            }
        },
    }
}

/// The number of `key=value` pairs that the first `n` members stand for.
pub open spec fn pairs(members: Seq<Member>, n: nat, nested: bool) -> nat
    decreases (if nested { 0int } else { 1int }), n, 1int,
{
    if n == 0 {
        0
    } else {
        pairs(members, (n - 1) as nat, nested) + member_pairs(members[n - 1], nested)
    }
}

/// The text of a scalar that writes no `&` of its own holds none.
pub proof fn lemma_token_ampersands(value: Data)
    requires
        writes_no_ampersand(value),
    ensures
        occurrences(bare_output(value).bytes, 38) == 0,
{
    let v = value.peeled();
    let text = bare_output(value).bytes;
    assert forall|i: int| 0 <= i < text.len() implies #[trigger] text[i] != 38 by {
        match v {
            Data::I8(n) => lemma_signed_digits(n as int),
            Data::I16(n) => lemma_signed_digits(n as int),
            Data::I32(n) => lemma_signed_digits(n as int),
            Data::I64(n) => lemma_signed_digits(n as int),
            Data::U8(n) => lemma_decimal_digits(n as nat),
            Data::U16(n) => lemma_decimal_digits(n as nat),
            Data::U32(n) => lemma_decimal_digits(n as nat),
            Data::U64(n) => lemma_decimal_digits(n as nat),
            Data::F32(t) => {
                lemma_form_encoded_safe(encode_utf8(t));
                assert(is_form_safe(text[i]));
            },
            Data::F64(t) => {
                lemma_form_encoded_safe(encode_utf8(t));
                assert(is_form_safe(text[i]));
            },
            Data::Char(c) => lemma_char_text_ampersand(c),
            Data::Str(s) => {
                lemma_form_encoded_safe(encode_utf8(s));
                assert(is_form_safe(text[i]));
            },
            Data::UnitVariant(name) => {
                lemma_form_encoded_safe(encode_utf8(name));
                assert(is_form_safe(text[i]));
            },
            _ => {},
        }
    }
    lemma_no_occurrence(text, 38);
}

/// A signed decimal numeral holds nothing but digits and `-`.
pub proof fn lemma_signed_digits(i: int)
    ensures
        forall|k: int|
            0 <= k < signed_decimal(i).len() ==> (48 <= #[trigger] signed_decimal(i)[k] <= 57
                || signed_decimal(i)[k] == 45),
{
    if i < 0 {
        lemma_decimal_digits((-i) as nat);
        assert forall|k: int| 0 <= k < signed_decimal(i).len() implies (48
            <= #[trigger] signed_decimal(i)[k] <= 57 || signed_decimal(i)[k] == 45) by {
            if k > 0 {
                assert(signed_decimal(i)[k] == decimal((-i) as nat)[k - 1]);
            }
        }
    } else {
        lemma_decimal_digits(i as nat);
    }
}

/// The elements of a list hold no `&` unless one of them writes its own.
pub proof fn lemma_items_ampersands(items: Seq<Data>, n: nat, first: bool)
    requires
        n <= items.len(),
        forall|i: int| 0 <= i < n ==> writes_no_ampersand(#[trigger] items[i]),
    ensures
        occurrences(walk_items(items, n, first).bytes, 38) == 0,
    decreases n,
{
    if n > 0 {
        lemma_items_ampersands(items, (n - 1) as nat, first);
        let before = walk_items(items, (n - 1) as nat, first);
        if before.fault is None {
            let item = items[n - 1];
            assert(writes_no_ampersand(item));
            lemma_token_ampersands(item);
            lemma_no_occurrence(item_separator(before.first), 38);
            lemma_occurrences_concat(item_separator(before.first), bare_output(item).bytes, 38);
            lemma_occurrences_concat(before.bytes, item_output(item, before.first).bytes, 38);
        }
    }
}

/// A value on the right of a lead adds no `&` to it unless it writes one
/// of its own.
pub proof fn lemma_keyed_ampersands(value: Data, lead: Seq<u8>)
    requires
        keyed_output(value, lead).fault is None,
        value_writes_no_ampersand(value),
    ensures
        occurrences(keyed_output(value, lead).bytes, 38) == occurrences(lead, 38),
{
    let v = value.peeled();
    match v.token() {
        Some(text) => {
            lemma_token_ampersands(value);
            lemma_occurrences_concat(lead, text, 38);
        },
        None => {
            lemma_items_ampersands(v.items(), v.items().len(), true);
            lemma_occurrences_concat(lead, list_output(v.items()).bytes, 38);
        },
    }
}

/// What stands before the value of a field holds one `&`, the
/// separator, unless the field is the first.
pub proof fn lemma_field_lead_ampersands(first: bool, name: Seq<char>)
    ensures
        occurrences(field_lead(first, name), 38) == if first {
            0nat
        } else {
            1nat
        },
{
    let encoded = form_encoded(encode_utf8(name));
    lemma_form_encoded_safe(encode_utf8(name));
    assert forall|i: int| 0 <= i < encoded.len() implies #[trigger] encoded[i] != 38 by {
        assert(is_form_safe(encoded[i]));
    }
    lemma_no_occurrence(encoded, 38);
    lemma_no_occurrence(seq![61u8], 38);
    lemma_separator_ampersands(first);
    lemma_occurrences_concat(pair_separator(first), encoded, 38);
    lemma_occurrences_concat(pair_separator(first) + encoded, seq![61u8], 38);
}

/// The separator of pairs is one `&`, or nothing before the first pair.
pub proof fn lemma_separator_ampersands(first: bool)
    ensures
        occurrences(pair_separator(first), 38) == if first {
            0nat
        } else {
            1nat
        },
{
    if !first {
        assert(seq![38u8].drop_last() =~= Seq::<u8>::empty());
        reveal_with_fuel(occurrences, 2);
    }
}

/// A member that is written to its end holds one `&` for each of its
/// pairs but the first of the whole aggregate, and leaves the next
/// member the first only if it was so itself and wrote no pair.
pub proof fn lemma_member_ampersands(member: Member, nested: bool, first: bool)
    requires
        member_output(member, nested, first).fault is None,
        member_writes_no_ampersand(member, nested),
    ensures
        member_output(member, nested, first).first == (first && member_pairs(member, nested) == 0),
        occurrences(member_output(member, nested, first).bytes, 38) == if first && member_pairs(
            member,
            nested,
        ) > 0 {
            member_pairs(member, nested) - 1
        } else {
            member_pairs(member, nested) as int
        },
    decreases (if nested { 0int } else { 1int }), 0int, 0int,
{
    match member {
        Member::Keyed { key, value } => {
            let k = key_output(key);
            let o = keyed_output(value, seq![61u8]);
            let v = key.peeled();
            if v.is_list() {
                lemma_items_ampersands(v.items(), v.items().len(), true);
            } else {
                lemma_token_ampersands(key);
            }
            lemma_no_occurrence(seq![61u8], 38);
            lemma_keyed_ampersands(value, seq![61u8]);
            lemma_separator_ampersands(first);
            lemma_occurrences_concat(pair_separator(first), k.bytes, 38);
            lemma_occurrences_concat(pair_separator(first) + k.bytes, o.bytes, 38);
        },
        Member::Named { name, value, flatten } => {
            let v = value.peeled();
            if flatten && v.is_aggregate() {
                lemma_walk_ampersands(v.members(), v.members().len(), true, first);
            } else if flatten && (v is Absent || v is Unit) {
                assert(occurrences(Seq::<u8>::empty(), 38) == 0);
            } else {
                lemma_field_lead_ampersands(first, name);
                lemma_keyed_ampersands(value, field_lead(first, name));
            }
        },
    }
}

/// Members that are written to their end hold one `&` for each of their
/// pairs but the first of the whole aggregate.
pub proof fn lemma_walk_ampersands(members: Seq<Member>, n: nat, nested: bool, first: bool)
    requires
        n <= members.len(),
        walk_members(members, n, nested, first).fault is None,
        members_write_no_ampersand(members, n, nested),
    ensures
        walk_members(members, n, nested, first).first == (first && pairs(members, n, nested) == 0),
        occurrences(walk_members(members, n, nested, first).bytes, 38) == if first && pairs(
            members,
            n,
            nested,
        ) > 0 {
            pairs(members, n, nested) - 1
        } else {
            pairs(members, n, nested) as int
        },
    decreases (if nested { 0int } else { 1int }), n, 1int,
{
    if n == 0 {
        assert(occurrences(Seq::<u8>::empty(), 38) == 0);
    } else {
        let before = walk_members(members, (n - 1) as nat, nested, first);
        lemma_walk_ampersands(members, (n - 1) as nat, nested, first);
        lemma_member_ampersands(members[n - 1], nested, before.first);
        lemma_occurrences_concat(
            before.bytes,
            member_output(members[n - 1], nested, before.first).bytes,
            38,
        );
    }
}

/// In the output for an aggregate the pairs are joined by `&`: it holds
/// one `&` fewer than it has `key=value` pairs, and none if it has no
/// pair. A member stands for one pair, unless it is marked for merging.
/// This is stated of the values that are encoded to the end and in which
/// no scalar is the character `&`, which is written as it is.
pub proof fn law_pairs_are_joined(value: Data)
    requires
        value.peeled().is_aggregate(),
        top_output(value).fault is None,
        members_write_no_ampersand(
            value.peeled().members(),
            value.peeled().members().len(),
            false,
        ),
    ensures
        occurrences(top_output(value).bytes, 38) == if pairs(
            value.peeled().members(),
            value.peeled().members().len(),
            false,
        ) == 0 {
            0int
        } else {
            pairs(value.peeled().members(), value.peeled().members().len(), false) - 1
        },
{
    let members = value.peeled().members();
    if members.len() == 0 {
        assert(occurrences(Seq::<u8>::empty(), 38) == 0);
    } else {
        lemma_walk_ampersands(members, members.len(), false, true);
        lemma_no_occurrence(seq![63u8], 38);
        lemma_occurrences_concat(
            seq![63u8],
            walk_members(members, members.len(), false, true).bytes,
            38,
        );
    }
}

/// Members of which none is marked for merging stand for one pair each.
pub proof fn lemma_unmarked_pairs(members: Seq<Member>, n: nat, nested: bool)
    requires
        n <= members.len(),
        forall|i: int| 0 <= i < n ==> !(#[trigger] members[i]).is_merged(),
    ensures
        pairs(members, n, nested) == n,
    decreases n,
{
    if n > 0 {
        lemma_unmarked_pairs(members, (n - 1) as nat, nested);
        assert(!members[n - 1].is_merged());
        assert(member_pairs(members[n - 1], nested) == 1);
    }
}

/// The output for an aggregate of N members, none of them marked for
/// merging, has exactly N segments joined by `&`: it holds N - 1 of
/// them. This is stated of the values that are encoded to the end and in
/// which no scalar is the character `&`, which is written as it is.
pub proof fn law_one_segment_for_each_field(value: Data)
    requires
        value.peeled().is_aggregate(),
        value.peeled().members().len() > 0,
        top_output(value).fault is None,
        members_write_no_ampersand(
            value.peeled().members(),
            value.peeled().members().len(),
            false,
        ),
        forall|i: int|
            0 <= i < value.peeled().members().len() ==> !(
            #[trigger] value.peeled().members()[i]).is_merged(),
    ensures
        occurrences(top_output(value).bytes, 38) + 1 == value.peeled().members().len(),
{
    let members = value.peeled().members();
    lemma_unmarked_pairs(members, members.len(), false);
    law_pairs_are_joined(value);
}

/// The empty tuple, an absent optional and an aggregate without members
/// are encoded as nothing at all: not even `?` is written.
pub proof fn law_nothing_for_nothing(value: Data)
    requires
        value.peeled() is Unit || value.peeled() is Absent || (value.peeled().is_aggregate()
            && value.peeled().members().len() == 0),
    ensures
        top_output(value) == (Output { bytes: Seq::empty(), fault: None }),
{
}

/// A value at the top level that is neither an aggregate nor absent nor
/// the empty tuple is refused by the name of its shape, and nothing is
/// written: so it is with booleans, numbers, strings, sequences and enum
/// variants without fields.
pub proof fn law_keyless_root_is_refused(value: Data)
    requires
        !value.peeled().is_aggregate(),
        !(value.peeled() is Unit),
        !(value.peeled() is Absent),
    ensures
        top_output(value) == (Output {
            bytes: Seq::empty(),
            fault: Some(Fault::UnsupportedAtTopLevel(value.peeled().top_kind())),
        }),
{
}

/// Whatever is written at the top level begins with `?`, and only an
/// aggregate with members has anything written.
pub proof fn law_output_begins_with_question_mark(value: Data)
    requires
        top_output(value).bytes.len() > 0,
    ensures
        top_output(value).bytes[0] == 63,
        value.peeled().is_aggregate(),
        value.peeled().members().len() > 0,
{
}

/// A walk that reaches its end without a fault met none on the way, and
/// what it had written on the way stands at the front of what it wrote.
pub proof fn lemma_walk_members_grows(
    members: Seq<Member>,
    k: nat,
    n: nat,
    nested: bool,
    first: bool,
)
    requires
        k <= n,
        walk_members(members, n, nested, first).fault is None,
    ensures
        walk_members(members, k, nested, first).fault is None,
        walk_members(members, k, nested, first).bytes.is_prefix_of(
            walk_members(members, n, nested, first).bytes,
        ),
    decreases n,
{
    if k < n {
        let before = walk_members(members, (n - 1) as nat, nested, first);
        if before.fault is Some {
            crate::encoding::lemma_walk_members_stops(members, (n - 1) as nat, n, nested, first);
        }
        lemma_walk_members_grows(members, k, (n - 1) as nat, nested, first);
    }
}

/// The members are written in the order in which they stand: in the
/// output of a walk without a fault, the text of each member follows
/// at once on the text of the members before it.
pub proof fn law_members_in_order(members: Seq<Member>, n: nat, nested: bool, first: bool, i: nat)
    requires
        i < n,
        walk_members(members, n, nested, first).fault is None,
    ensures
        walk_members(members, i, nested, first).fault is None,
        (walk_members(members, i, nested, first).bytes + member_output(
            members[i as int],
            nested,
            walk_members(members, i, nested, first).first,
        ).bytes).is_prefix_of(walk_members(members, n, nested, first).bytes),
{
    lemma_walk_members_grows(members, i, n, nested, first);
    lemma_walk_members_grows(members, i + 1, n, nested, first);
}

/// The fields of a value at the top level are written in the order of
/// their declaration, and the entries of a dictionary in the order of
/// their insertion: in the output, after `?`, the text of each member
/// follows at once on the text of the members before it.
pub proof fn law_fields_in_order(value: Data, i: nat)
    requires
        value.peeled().is_aggregate(),
        i < value.peeled().members().len(),
        top_output(value).fault is None,
    ensures
        (seq![63u8] + walk_members(value.peeled().members(), i, false, true).bytes
            + member_output(
            value.peeled().members()[i as int],
            false,
            walk_members(value.peeled().members(), i, false, true).first,
        ).bytes).is_prefix_of(top_output(value).bytes),
{
    let members = value.peeled().members();
    law_members_in_order(members, members.len(), false, true, i);
    let before = walk_members(members, i, false, true);
    let part = before.bytes + member_output(members[i as int], false, before.first).bytes;
    let whole = walk_members(members, members.len(), false, true).bytes;
    assert(part =~= whole.subrange(0, part.len() as int));
    assert(seq![63u8] + before.bytes + member_output(members[i as int], false, before.first).bytes
        =~= seq![63u8] + part);
    assert(seq![63u8] + part =~= (seq![63u8] + whole).subrange(0, 1 + part.len() as int));
}

/// Encoding is repeatable: two results of `to_vec` for one value, which
/// both meet its contract, are the same bytes or the same fault.
pub proof fn law_encoding_repeats(
    value: Data,
    once: Result<Vec<u8>, Error>,
    again: Result<Vec<u8>, Error>,
)
    requires
        once is Ok <==> top_output(value).fault is None,
        once matches Ok(bytes) ==> bytes@ == top_output(value).bytes,
        once matches Err(e) ==> top_output(value).fault == Some(e@),
        again is Ok <==> top_output(value).fault is None,
        again matches Ok(bytes) ==> bytes@ == top_output(value).bytes,
        again matches Err(e) ==> top_output(value).fault == Some(e@),
    ensures
        once is Ok <==> again is Ok,
        once matches Ok(a) ==> again matches Ok(b) && a@ == b@,
        once matches Err(a) ==> again matches Err(b) && a@ == b@,
{
}

/// True for a value that may not stand on the right of a key: an
/// aggregate, or a list that holds a list or an aggregate.
pub open spec fn is_nested(value: Data) -> bool {
    let v = value.peeled();
    ||| v.is_aggregate()
    ||| (v.is_list() && exists|j: int|
        0 <= j < v.items().len() && ((#[trigger] v.items()[j]).peeled().is_list()
            || v.items()[j].peeled().is_aggregate()))
}

/// A list with an element that is not a scalar meets a fault.
pub proof fn lemma_items_fault(items: Seq<Data>, j: int, n: nat, first: bool)
    requires
        0 <= j < n,
        bare_output(items[j]).fault is Some,
    ensures
        walk_items(items, n, first).fault is Some,
    decreases n,
{
    if j < n - 1 {
        lemma_items_fault(items, j, (n - 1) as nat, first);
    }
}

/// The only fault that a walk over elements meets is that of a value in
/// place of a simple value.
pub proof fn lemma_items_fault_kind(items: Seq<Data>, n: nat, first: bool)
    ensures
        walk_items(items, n, first).fault matches Some(fault)
            ==> fault is UnsupportedNestedStruct,
    decreases n,
{
    if n > 0 {
        lemma_items_fault_kind(items, (n - 1) as nat, first);
    }
}

/// The only fault that a member meets is that of a value in place of a
/// simple value.
pub proof fn lemma_member_fault_kind(member: Member, nested: bool, first: bool)
    ensures
        member_output(member, nested, first).fault matches Some(fault)
            ==> fault is UnsupportedNestedStruct,
    decreases (if nested { 0int } else { 1int }), 0int, 0int,
{
    match member {
        Member::Keyed { key, value } => {
            let k = key.peeled();
            let v = value.peeled();
            lemma_items_fault_kind(k.items(), k.items().len(), true);
            lemma_items_fault_kind(v.items(), v.items().len(), true);
        },
        Member::Named { name, value, flatten } => {
            let v = value.peeled();
            lemma_items_fault_kind(v.items(), v.items().len(), true);
            if flatten && v.is_aggregate() && !nested {
                lemma_walk_fault_kind(v.members(), v.members().len(), true, first);
            }
        },
    }
}

/// The only fault that a walk over members meets is that of a value in
/// place of a simple value.
pub proof fn lemma_walk_fault_kind(members: Seq<Member>, n: nat, nested: bool, first: bool)
    ensures
        walk_members(members, n, nested, first).fault matches Some(fault)
            ==> fault is UnsupportedNestedStruct,
    decreases (if nested { 0int } else { 1int }), n, 1int,
{
    if n > 0 {
        lemma_walk_fault_kind(members, (n - 1) as nat, nested, first);
        let before = walk_members(members, (n - 1) as nat, nested, first);
        lemma_member_fault_kind(members[n - 1], nested, before.first);
    }
}

/// A walk over members of which one meets a fault, whatever was written
/// before it, meets a fault.
pub proof fn lemma_walk_fault(members: Seq<Member>, i: int, n: nat, nested: bool, first: bool)
    requires
        0 <= i < n,
        member_output(members[i], nested, true).fault is Some,
        member_output(members[i], nested, false).fault is Some,
    ensures
        walk_members(members, n, nested, first).fault is Some,
    decreases n,
{
    if i < n - 1 {
        lemma_walk_fault(members, i, (n - 1) as nat, nested, first);
    }
}

/// A member that is not marked for merging and whose value is an
/// aggregate, or a list that holds a list or an aggregate, meets a
/// fault.
pub proof fn lemma_nested_member_fault(member: Member, nested: bool, first: bool)
    requires
        !member.is_merged(),
        is_nested(member.value()),
    ensures
        member_output(member, nested, first).fault is Some,
{
    let v = member.value().peeled();
    if !v.is_aggregate() {
        let j = choose|j: int|
            0 <= j < v.items().len() && ((#[trigger] v.items()[j]).peeled().is_list()
                || v.items()[j].peeled().is_aggregate());
        lemma_items_fault(v.items(), j, v.items().len(), true);
    }
}

/// A record inside a field's value, and a sequence inside a sequence,
/// are refused: an aggregate at the top level with a member, not marked
/// for merging, whose value is an aggregate or a list that holds a list
/// or an aggregate, fails with `UnsupportedNestedStruct`.
pub proof fn law_nested_value_is_refused(value: Data, i: int)
    requires
        value.peeled().is_aggregate(),
        0 <= i < value.peeled().members().len(),
        !value.peeled().members()[i].is_merged(),
        is_nested(value.peeled().members()[i].value()),
    ensures
        top_output(value).fault matches Some(fault) && fault is UnsupportedNestedStruct,
{
    let members = value.peeled().members();
    lemma_nested_member_fault(members[i], false, true);
    lemma_nested_member_fault(members[i], false, false);
    lemma_walk_fault(members, i, members.len(), false, true);
    lemma_walk_fault_kind(members, members.len(), false, true);
}

/// Merging goes one level deep: a field marked for merging, inside an
/// aggregate that is itself merged into the top level, is refused with
/// `UnsupportedNestedStruct` if its value is an aggregate.
pub proof fn law_merging_is_one_level_deep(value: Data, i: int, j: int)
    requires
        value.peeled().is_aggregate(),
        0 <= i < value.peeled().members().len(),
        value.peeled().members()[i].is_merged(),
        value.peeled().members()[i].value().peeled().is_aggregate(),
        0 <= j < value.peeled().members()[i].value().peeled().members().len(),
        value.peeled().members()[i].value().peeled().members()[j].is_merged(),
        value.peeled().members()[i].value().peeled().members()[j].value().peeled().is_aggregate(),
    ensures
        top_output(value).fault matches Some(fault) && fault is UnsupportedNestedStruct,
{
    let members = value.peeled().members();
    let inner = members[i].value().peeled().members();
    lemma_walk_fault(inner, j, inner.len(), true, true);
    lemma_walk_fault(inner, j, inner.len(), true, false);
    lemma_walk_fault(members, i, members.len(), false, true);
    lemma_walk_fault_kind(members, members.len(), false, true);
}

/// A member that is written after the first pair leaves the flag false.
pub proof fn lemma_member_flag_stays_false(member: Member, nested: bool)
    ensures
        !member_output(member, nested, false).first,
    decreases (if nested { 0int } else { 1int }), 0int, 0int,
{
    match member {
        Member::Keyed { key, value } => {},
        Member::Named { name, value, flatten } => {
            let v = value.peeled();
            if flatten && v.is_aggregate() && !nested {
                law_flag_stays_false(v.members(), v.members().len(), true);
            }
        },
    }
}

/// Once a pair was written, the next member is never again the first:
/// a walk that begins after the first pair leaves the flag false, with
/// or without a fault.
pub proof fn law_flag_stays_false(members: Seq<Member>, n: nat, nested: bool)
    ensures
        !walk_members(members, n, nested, false).first,
    decreases (if nested { 0int } else { 1int }), n, 1int,
{
    if n > 0 {
        law_flag_stays_false(members, (n - 1) as nat, nested);
        lemma_member_flag_stays_false(members[n - 1], nested);
    }
}

/// The texts of the first `n` elements, with one `,` between each two
/// neighbours.
pub open spec fn comma_joined(items: Seq<Data>, n: nat) -> Seq<u8>
    decreases n,
{
    if n == 0 {
        Seq::empty()
    } else if n == 1 {
        bare_output(items[0]).bytes
    } else {
        comma_joined(items, (n - 1) as nat) + seq![44u8] + bare_output(items[n - 1]).bytes
    }
}

/// The elements of a list are joined by `,`: a list of `n` elements
/// that are all accepted is written as their texts with exactly one `,`
/// between each two neighbours, none before the first and none after
/// the last, whatever the elements write themselves.
pub proof fn law_elements_are_comma_joined(items: Seq<Data>, n: nat)
    requires
        walk_items(items, n, true).fault is None,
    ensures
        walk_items(items, n, true).bytes == comma_joined(items, n),
        walk_items(items, n, true).first == (n == 0),
    decreases n,
{
    if n > 0 {
        let before = walk_items(items, (n - 1) as nat, true);
        law_elements_are_comma_joined(items, (n - 1) as nat);
        assert(walk_items(items, n, true).bytes =~= comma_joined(items, n));
    }
}

/// What begins the pair of a member: the separator, the key and `=`.
pub open spec fn member_lead(member: Member, first: bool) -> Seq<u8> {
    match member {
        Member::Named { name, value, flatten } => field_lead(first, name),
        Member::Keyed { key, value } => pair_separator(first) + key_output(key).bytes + seq![61u8],
    }
}

/// The text of a member that is not marked for merging begins with its
/// key and `=`, after the separator.
pub proof fn lemma_member_begins_with_key(member: Member, nested: bool, first: bool)
    requires
        !member.is_merged(),
        member_output(member, nested, first).fault is None,
    ensures
        member_lead(member, first).is_prefix_of(member_output(member, nested, first).bytes),
{
    let lead = member_lead(member, first);
    let bytes = member_output(member, nested, first).bytes;
    match member {
        Member::Named { name, value, flatten } => {
            assert(lead =~= bytes.subrange(0, lead.len() as int));
        },
        Member::Keyed { key, value } => {
            let k = key_output(key);
            let o = keyed_output(value, seq![61u8]);
            assert(seq![61u8] =~= o.bytes.subrange(0, 1));
            assert(lead =~= bytes.subrange(0, lead.len() as int));
        },
    }
}

/// Members that are free of `&` stay so when fewer of them are taken.
pub proof fn lemma_fewer_members_write_no_ampersand(
    members: Seq<Member>,
    k: nat,
    n: nat,
    nested: bool,
)
    requires
        k <= n,
        members_write_no_ampersand(members, n, nested),
    ensures
        members_write_no_ampersand(members, k, nested),
    decreases n,
{
    if k < n {
        lemma_fewer_members_write_no_ampersand(members, k, (n - 1) as nat, nested);
    }
}

/// Each segment of the output begins with its key and `=`. In the output
/// for an aggregate of which no member is marked for merging, what
/// stands before member `i` holds `i - 1` times `&`, and it is followed
/// at once by `&` (unless `i` is 0), the key of member `i` and `=`: so
/// the segment after the `i`-th `&` is that of member `i`. This is
/// stated of the values that are encoded to the end and in which no
/// scalar is the character `&`, which is written as it is.
pub proof fn law_segment_begins_with_its_key(value: Data, i: nat)
    requires
        value.peeled().is_aggregate(),
        i < value.peeled().members().len(),
        top_output(value).fault is None,
        members_write_no_ampersand(
            value.peeled().members(),
            value.peeled().members().len(),
            false,
        ),
        forall|j: int|
            0 <= j < value.peeled().members().len() ==> !(
            #[trigger] value.peeled().members()[j]).is_merged(),
    ensures
        occurrences(walk_members(value.peeled().members(), i, false, true).bytes, 38) == if i
            == 0 {
            0int
        } else {
            i - 1
        },
        (seq![63u8] + walk_members(value.peeled().members(), i, false, true).bytes + member_lead(
            value.peeled().members()[i as int],
            i == 0,
        )).is_prefix_of(top_output(value).bytes),
{
    let members = value.peeled().members();
    let n = members.len();
    let before = walk_members(members, i, false, true);
    let member = members[i as int];
    lemma_walk_members_grows(members, i, n, false, true);
    lemma_walk_members_grows(members, i + 1, n, false, true);
    lemma_fewer_members_write_no_ampersand(members, i, n, false);
    lemma_unmarked_pairs(members, i, false);
    lemma_walk_ampersands(members, i, false, true);
    assert(before.first == (i == 0));
    let step = member_output(member, false, before.first);
    assert(walk_members(members, i + 1, false, true).fault == step.fault);
    lemma_member_begins_with_key(member, false, before.first);
    law_fields_in_order(value, i);
    let lead = member_lead(member, i == 0);
    let part = seq![63u8] + before.bytes + lead;
    let more = seq![63u8] + before.bytes + step.bytes;
    let whole = top_output(value).bytes;
    assert(lead =~= step.bytes.subrange(0, lead.len() as int));
    assert(part =~= more.subrange(0, part.len() as int));
    assert(more =~= whole.subrange(0, more.len() as int));
    assert(part =~= whole.subrange(0, part.len() as int));
}

/// A record inside a field's value is refused by the name of its kind.
/// An aggregate at the top level with a member, not marked for merging,
/// whose value is a record, a dictionary or an enum variant with named
/// fields, fails with `UnsupportedNestedStruct` and the name `struct`,
/// `map` or `struct variant`, if the members before it are encoded
/// without a fault and the member's own key, if it is a dictionary
/// entry, is not refused.
pub proof fn law_nested_aggregate_is_refused_by_name(value: Data, i: nat)
    requires
        value.peeled().is_aggregate(),
        i < value.peeled().members().len(),
        !value.peeled().members()[i as int].is_merged(),
        value.peeled().members()[i as int].value().peeled().is_aggregate(),
        walk_members(value.peeled().members(), i, false, true).fault is None,
        value.peeled().members()[i as int] matches Member::Keyed { key, value: v } ==> key_output(
            key,
        ).fault is None,
    ensures
        top_output(value).fault == Some(
            Fault::UnsupportedNestedStruct(
                value.peeled().members()[i as int].value().peeled().nested_kind(),
            ),
        ),
        ({
            let kind = value.peeled().members()[i as int].value().peeled().nested_kind();
            kind == "struct"@ || kind == "map"@ || kind == "struct variant"@
        }),
{
    let members = value.peeled().members();
    let before = walk_members(members, i, false, true);
    let step = member_output(members[i as int], false, before.first);
    assert(walk_members(members, i + 1, false, true).fault == step.fault);
    crate::encoding::lemma_walk_members_stops(members, i + 1, members.len(), false, true);
}

/// A sequence inside a sequence is refused by the name of its kind. An
/// aggregate at the top level with a member, not marked for merging,
/// whose value is a list with an element that is a list or an
/// aggregate, fails with `UnsupportedNestedStruct` and the name of that
/// element's kind, if all that stands before the element is encoded
/// without a fault.
pub proof fn law_nested_element_is_refused_by_name(value: Data, i: nat, j: nat)
    requires
        value.peeled().is_aggregate(),
        i < value.peeled().members().len(),
        !value.peeled().members()[i as int].is_merged(),
        walk_members(value.peeled().members(), i, false, true).fault is None,
        value.peeled().members()[i as int] matches Member::Keyed { key, value: v } ==> key_output(
            key,
        ).fault is None,
        value.peeled().members()[i as int].value().peeled().is_list(),
        j < value.peeled().members()[i as int].value().peeled().items().len(),
        walk_items(
            value.peeled().members()[i as int].value().peeled().items(),
            j,
            true,
        ).fault is None,
        value.peeled().members()[i as int].value().peeled().items()[j as int].peeled().is_list()
            || value.peeled().members()[i as int].value().peeled().items()[j as int].peeled().is_aggregate(),
    ensures
        top_output(value).fault == Some(
            Fault::UnsupportedNestedStruct(
                value.peeled().members()[i as int].value().peeled().items()[j as int].peeled().nested_kind(),
            ),
        ),
{
    let members = value.peeled().members();
    let items = members[i as int].value().peeled().items();
    let before = walk_members(members, i, false, true);
    let step = member_output(members[i as int], false, before.first);
    let inner = walk_items(items, j, true);
    assert(walk_items(items, j + 1, true).fault == item_output(items[j as int], inner.first).fault);
    crate::encoding::lemma_walk_items_stops(items, j + 1, items.len(), true);
    assert(list_output(items).fault == bare_output(items[j as int]).fault);
    assert(walk_members(members, i + 1, false, true).fault == step.fault);
    crate::encoding::lemma_walk_members_stops(members, i + 1, members.len(), false, true);
}

/// Form encoding leaves a text of unreserved bytes as it is.
pub proof fn lemma_form_encoded_unreserved(bytes: Seq<u8>)
    requires
        forall|i: int| 0 <= i < bytes.len() ==> is_unreserved(#[trigger] bytes[i]),
    ensures
        form_encoded(bytes) == bytes,
    decreases bytes.len(),
{
    if bytes.len() > 0 {
        lemma_form_encoded_unreserved(bytes.drop_last());
        assert(form_encoded(bytes) =~= bytes);
    }
}

/// The text of a floating-point number is written as it is: a text of
/// digits, `.`, `-` and letters, as any text of unreserved bytes, is its
/// own form encoding.
pub proof fn law_number_text_is_unchanged(text: Seq<char>)
    requires
        forall|i: int|
            0 <= i < encode_utf8(text).len() ==> is_unreserved(#[trigger] encode_utf8(text)[i]),
    ensures
        Data::F32(text).token() == Some(encode_utf8(text)),
        Data::F64(text).token() == Some(encode_utf8(text)),
{
    lemma_form_encoded_unreserved(encode_utf8(text));
}

} // verus!

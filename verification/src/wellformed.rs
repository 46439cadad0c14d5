//! The output is text: whatever the encoder writes, to the end or up to a
//! fault, is valid UTF-8.

use crate::encoding::{
    bare_output, field_lead, item_output, item_separator, key_output, keyed_output, list_output,
    member_output, pair_separator, top_output, walk_items, walk_members,
};
use crate::text::{
    bool_text, decimal, form_encoded, is_form_safe, lemma_ascii_is_utf8, lemma_char_text_is_utf8,
    lemma_decimal_digits, lemma_form_encoded_safe, signed_decimal,
};
use crate::value::{Data, Member};
use vstd::prelude::*;
use vstd::utf8::{encode_utf8, valid_utf8, valid_utf8_concat};

verus! {

/// A decimal numeral is valid UTF-8.
pub proof fn lemma_decimal_is_utf8(n: nat)
    ensures
        valid_utf8(decimal(n)),
{
    lemma_decimal_digits(n);
    lemma_ascii_is_utf8(decimal(n));
}

/// A signed decimal numeral is valid UTF-8.
pub proof fn lemma_signed_decimal_is_utf8(i: int)
    ensures
        valid_utf8(signed_decimal(i)),
{
    if i < 0 {
        lemma_decimal_is_utf8((-i) as nat);
        lemma_ascii_is_utf8(seq![45u8]);
        valid_utf8_concat(seq![45u8], decimal((-i) as nat));
    } else {
        lemma_decimal_is_utf8(i as nat);
    }
}

/// A form-encoded text is valid UTF-8.
pub proof fn lemma_form_encoded_is_utf8(bytes: Seq<u8>)
    ensures
        valid_utf8(form_encoded(bytes)),
{
    lemma_form_encoded_safe(bytes);
    assert forall|i: int| 0 <= i < form_encoded(bytes).len() implies #[trigger] form_encoded(
        bytes,
    )[i] < 128 by {
        assert(is_form_safe(form_encoded(bytes)[i]));
    }
    lemma_ascii_is_utf8(form_encoded(bytes));
}

/// The text of a scalar is valid UTF-8.
pub proof fn lemma_token_is_utf8(v: Data)
    ensures
        v.token() matches Some(text) ==> valid_utf8(text),
{
    match v {
        Data::Bool(b) => {
            lemma_ascii_is_utf8(bool_text(b));
        },
        Data::I8(n) => lemma_signed_decimal_is_utf8(n as int),
        Data::I16(n) => lemma_signed_decimal_is_utf8(n as int),
        Data::I32(n) => lemma_signed_decimal_is_utf8(n as int),
        Data::I64(n) => lemma_signed_decimal_is_utf8(n as int),
        Data::U8(n) => lemma_decimal_is_utf8(n as nat),
        Data::U16(n) => lemma_decimal_is_utf8(n as nat),
        Data::U32(n) => lemma_decimal_is_utf8(n as nat),
        Data::U64(n) => lemma_decimal_is_utf8(n as nat),
        Data::F32(text) => lemma_form_encoded_is_utf8(encode_utf8(text)),
        Data::F64(text) => lemma_form_encoded_is_utf8(encode_utf8(text)),
        Data::Char(c) => lemma_char_text_is_utf8(c),
        Data::Str(s) => lemma_form_encoded_is_utf8(encode_utf8(s)),
        Data::UnitVariant(name) => lemma_form_encoded_is_utf8(encode_utf8(name)),
        _ => {},
    }
}

/// What stands before the value of a field is valid UTF-8.
pub proof fn lemma_field_lead_is_utf8(first: bool, name: Seq<char>)
    ensures
        valid_utf8(field_lead(first, name)),
{
    lemma_ascii_is_utf8(pair_separator(first));
    lemma_form_encoded_is_utf8(encode_utf8(name));
    lemma_ascii_is_utf8(seq![61u8]);
    valid_utf8_concat(pair_separator(first), form_encoded(encode_utf8(name)));
    valid_utf8_concat(pair_separator(first) + form_encoded(encode_utf8(name)), seq![61u8]);
}

/// The elements of a list, as far as they are written, are valid UTF-8.
pub proof fn lemma_walk_items_is_utf8(items: Seq<Data>, n: nat, first: bool)
    ensures
        valid_utf8(walk_items(items, n, first).bytes),
    decreases n,
{
    if n > 0 {
        lemma_walk_items_is_utf8(items, (n - 1) as nat, first);
        let before = walk_items(items, (n - 1) as nat, first);
        if before.fault is None {
            let item = items[n - 1];
            let step = item_output(item, before.first);
            lemma_token_is_utf8(item.peeled());
            lemma_ascii_is_utf8(item_separator(before.first));
            valid_utf8_concat(item_separator(before.first), bare_output(item).bytes);
            valid_utf8_concat(before.bytes, step.bytes);
        }
    }
}

/// A value on the right of a valid lead is valid UTF-8, as far as it is
/// written.
pub proof fn lemma_keyed_output_is_utf8(value: Data, lead: Seq<u8>)
    requires
        valid_utf8(lead),
    ensures
        valid_utf8(keyed_output(value, lead).bytes),
{
    let v = value.peeled();
    lemma_token_is_utf8(v);
    match v.token() {
        Some(text) => valid_utf8_concat(lead, text),
        None => {
            if v.is_list() {
                lemma_walk_items_is_utf8(v.items(), v.items().len(), true);
                valid_utf8_concat(lead, list_output(v.items()).bytes);
            }
        },
    }
}

/// The key of a dictionary entry is valid UTF-8, as far as it is written.
pub proof fn lemma_key_output_is_utf8(key: Data)
    ensures
        valid_utf8(key_output(key).bytes),
{
    let v = key.peeled();
    lemma_token_is_utf8(v);
    if v.is_list() {
        lemma_walk_items_is_utf8(v.items(), v.items().len(), true);
    }
}

/// A member of an aggregate is valid UTF-8, as far as it is written.
pub proof fn lemma_member_output_is_utf8(member: Member, nested: bool, first: bool)
    ensures
        valid_utf8(member_output(member, nested, first).bytes),
    decreases (if nested { 0int } else { 1int }), 0int, 0int,
{
    match member {
        Member::Keyed { key, value } => {
            let k = key_output(key);
            lemma_key_output_is_utf8(key);
            lemma_ascii_is_utf8(pair_separator(first));
            valid_utf8_concat(pair_separator(first), k.bytes);
            if k.fault is None {
                lemma_ascii_is_utf8(seq![61u8]);
                lemma_keyed_output_is_utf8(value, seq![61u8]);
                valid_utf8_concat(
                    pair_separator(first) + k.bytes,
                    keyed_output(value, seq![61u8]).bytes,
                );
            }
        },
        Member::Named { name, value, flatten } => {
            let v = value.peeled();
            lemma_field_lead_is_utf8(first, name);
            lemma_keyed_output_is_utf8(value, field_lead(first, name));
            if flatten && v.is_aggregate() && !nested {
                lemma_walk_members_is_utf8(v.members(), v.members().len(), true, first);
            }
        },
    }
}

/// The members of an aggregate, as far as they are written, are valid
/// UTF-8.
pub proof fn lemma_walk_members_is_utf8(members: Seq<Member>, n: nat, nested: bool, first: bool)
    ensures
        valid_utf8(walk_members(members, n, nested, first).bytes),
    decreases (if nested { 0int } else { 1int }), n, 1int,
{
    if n > 0 {
        lemma_walk_members_is_utf8(members, (n - 1) as nat, nested, first);
        let before = walk_members(members, (n - 1) as nat, nested, first);
        if before.fault is None {
            lemma_member_output_is_utf8(members[n - 1], nested, before.first);
            valid_utf8_concat(
                before.bytes,
                member_output(members[n - 1], nested, before.first).bytes,
            );
        }
    }
}

/// Whatever is written for a value at the top level, to the end or up to
/// a fault, is valid UTF-8.
pub proof fn lemma_top_output_is_utf8(value: Data)
    ensures
        valid_utf8(top_output(value).bytes),
{
    let v = value.peeled();
    if v.is_aggregate() && v.members().len() > 0 {
        lemma_walk_members_is_utf8(v.members(), v.members().len(), false, true);
        lemma_ascii_is_utf8(seq![63u8]);
        valid_utf8_concat(
            seq![63u8],
            walk_members(v.members(), v.members().len(), false, true).bytes,
        );
    }
}

} // verus!

use query_params::ser::simple;
use query_params::{Error, Field, Serializer, Value};

fn text(s: &str) -> Value {
    Value::Str(String::from(s))
}

#[test]
fn simple_field_after_another() {
    let mut out = b"?a=1".to_vec();
    simple::Serializer::new_from_toplevel(false, "b", &mut out).serialize_u8(2).unwrap();
    assert_eq!(out, b"?a=1&b=2".to_vec());
}

#[test]
fn simple_first_field() {
    let mut out = Vec::new();
    simple::Serializer::new_from_toplevel(true, "b c", &mut out).serialize_str("x y").unwrap();
    assert_eq!(out, b"b+c=x+y".to_vec());
}

#[test]
fn simple_element_is_bare() {
    let mut out = Vec::new();
    simple::Serializer::new_from_seq(false, "ignored", &mut out).serialize_i16(-3).unwrap();
    simple::Serializer::new_from_seq(true, "ignored", &mut out).serialize_bool(true).unwrap();
    simple::Serializer::new_from_seq(true, "ignored", &mut out).serialize_none().unwrap();
    simple::Serializer::new_from_seq(true, "ignored", &mut out).serialize_unit().unwrap();
    simple::Serializer::new_from_seq(true, "ignored", &mut out).serialize_char('c').unwrap();
    assert_eq!(out, b"-3truec".to_vec());
}

#[test]
fn simple_scalars_in_a_field() {
    let mut out = Vec::new();
    simple::Serializer::new_from_toplevel(true, "a", &mut out).serialize_i8(-1).unwrap();
    simple::Serializer::new_from_toplevel(false, "b", &mut out).serialize_i32(2).unwrap();
    simple::Serializer::new_from_toplevel(false, "c", &mut out).serialize_i64(-3).unwrap();
    simple::Serializer::new_from_toplevel(false, "d", &mut out).serialize_u16(4).unwrap();
    simple::Serializer::new_from_toplevel(false, "e", &mut out).serialize_u32(5).unwrap();
    simple::Serializer::new_from_toplevel(false, "f", &mut out).serialize_u64(6).unwrap();
    simple::Serializer::new_from_toplevel(false, "g", &mut out).serialize_f32("7.5").unwrap();
    simple::Serializer::new_from_toplevel(false, "h", &mut out).serialize_f64("8.25").unwrap();
    simple::Serializer::new_from_toplevel(false, "i", &mut out).serialize_none().unwrap();
    simple::Serializer::new_from_toplevel(false, "j", &mut out).serialize_unit().unwrap();
    simple::Serializer::new_from_toplevel(false, "k", &mut out)
        .serialize_unit_variant("On")
        .unwrap();
    assert_eq!(out, b"a=-1&b=2&c=-3&d=4&e=5&f=6&g=7.5&h=8.25&i=&j=&k=On".to_vec());
}

#[test]
fn simple_wrappers() {
    let mut out = Vec::new();
    simple::Serializer::new_from_toplevel(true, "a", &mut out)
        .serialize_some(&Value::U8(1))
        .unwrap();
    simple::Serializer::new_from_toplevel(false, "b", &mut out)
        .serialize_newtype_struct(&Value::U8(2))
        .unwrap();
    simple::Serializer::new_from_toplevel(false, "c", &mut out)
        .serialize_newtype_variant(&text("x"))
        .unwrap();
    assert_eq!(out, b"a=1&b=2&c=x".to_vec());
}

#[test]
fn simple_bytes() {
    let mut out = Vec::new();
    simple::Serializer::new_from_toplevel(true, "b", &mut out).serialize_bytes(&[7, 8]).unwrap();
    assert_eq!(out, b"b=7,8".to_vec());
    let refused = simple::Serializer::new_from_seq(true, "b", &mut out).serialize_bytes(&[7, 8]);
    assert!(matches!(refused, Err(Error::UnsupportedNestedStruct("bytes"))));
    assert_eq!(out, b"b=7,8".to_vec());
}

#[test]
fn simple_sequence_in_a_field() {
    let mut out = Vec::new();
    let mut list =
        simple::Serializer::new_from_toplevel(true, "k", &mut out).serialize_seq().unwrap();
    list.serialize_element(&Value::U8(1)).unwrap();
    list.serialize_element(&text("a b")).unwrap();
    list.end().unwrap();
    let mut list =
        simple::Serializer::new_from_toplevel(false, "t", &mut out).serialize_tuple().unwrap();
    list.serialize_element(&Value::Bool(true)).unwrap();
    list.end().unwrap();
    assert_eq!(out, b"k=1,a+b&t=true".to_vec());
}

#[test]
fn simple_refusals() {
    let mut out = Vec::new();
    let kind = |result: Result<(), Error>| match result {
        Err(Error::UnsupportedNestedStruct(kind)) => kind,
        other => panic!("expected a refusal, got {:?}", other),
    };
    assert_eq!(
        kind(simple::Serializer::new_from_toplevel(true, "k", &mut out).serialize_unit_struct()),
        "unit struct"
    );
    assert_eq!(
        kind(simple::Serializer::new_from_toplevel(true, "k", &mut out).serialize_map()),
        "map"
    );
    assert_eq!(
        kind(simple::Serializer::new_from_toplevel(true, "k", &mut out).serialize_struct()),
        "struct"
    );
    assert_eq!(
        kind(simple::Serializer::new_from_toplevel(true, "k", &mut out).serialize_struct_variant()),
        "struct variant"
    );
    assert!(matches!(
        simple::Serializer::new_from_toplevel(true, "k", &mut out).serialize_tuple_struct(),
        Err(Error::UnsupportedNestedStruct("tuple struct"))
    ));
    assert!(matches!(
        simple::Serializer::new_from_toplevel(true, "k", &mut out).serialize_tuple_variant(),
        Err(Error::UnsupportedNestedStruct("tuple variant"))
    ));
    assert!(matches!(
        simple::Serializer::new_from_seq(true, "k", &mut out).serialize_seq(),
        Err(Error::UnsupportedNestedStruct("sequence"))
    ));
    assert!(matches!(
        simple::Serializer::new_from_seq(true, "k", &mut out).serialize_tuple(),
        Err(Error::UnsupportedNestedStruct("sequence"))
    ));
    assert!(out.is_empty());
}

#[test]
fn simple_serialize_any_shape() {
    let mut out = Vec::new();
    simple::Serializer::new_from_toplevel(true, "k", &mut out)
        .serialize(&Value::Tuple(vec![Value::U8(1), Value::Char('x')]))
        .unwrap();
    simple::Serializer::new_from_seq(true, "k", &mut out).serialize(&Value::I32(-9)).unwrap();
    assert_eq!(out, b"k=1,x-9".to_vec());
}

#[test]
fn seq_elements_and_bytes() {
    let mut out = Vec::new();
    let mut list = query_params::ser::seq::Serializer::new("k", &mut out);
    list.serialize_element(&Value::U8(1)).unwrap();
    list.serialize_byte(2).unwrap();
    list.serialize_element(&Value::Absent).unwrap();
    list.serialize_element(&text("z")).unwrap();
    list.end().unwrap();
    assert_eq!(out, b"1,2,,z".to_vec());

    let mut out = Vec::new();
    let mut list = query_params::ser::seq::Serializer::new("k", &mut out);
    list.serialize_element(&Value::Unit).unwrap();
    list.serialize_element(&Value::U8(1)).unwrap();
    list.end().unwrap();
    assert_eq!(out, b",1".to_vec());

    let mut out = Vec::new();
    query_params::ser::seq::Serializer::new("k", &mut out)
        .serialize_elements(&vec![Value::U8(1), Value::U8(2)])
        .unwrap();
    out.push(b';');
    query_params::ser::seq::Serializer::new("k", &mut out).serialize_bytes(&[3, 4]).unwrap();
    assert_eq!(out, b"1,2;3,4".to_vec());
}

#[test]
fn seq_refuses_a_list_after_the_comma() {
    let mut out = Vec::new();
    let mut list = query_params::ser::seq::Serializer::new("k", &mut out);
    list.serialize_element(&Value::U8(1)).unwrap();
    let refused = list.serialize_element(&Value::Sequence(vec![]));
    assert!(matches!(refused, Err(Error::UnsupportedNestedStruct("sequence"))));
    assert_eq!(out, b"1,".to_vec());
}

#[test]
fn map_entries_and_fields() {
    let mut out = Vec::new();
    let mut members = query_params::ser::map::Serializer::new(&mut out, false);
    members.serialize_key(&text("a")).unwrap();
    members.serialize_value(&Value::U8(1)).unwrap();
    members.serialize_field("b", &Value::Sequence(vec![Value::U8(2), Value::U8(3)])).unwrap();
    members.serialize_key(&Value::Sequence(vec![Value::U8(4), Value::U8(5)])).unwrap();
    members.serialize_value(&Value::Absent).unwrap();
    members.end().unwrap();
    assert_eq!(out, b"a=1&b=2,3&4,5=".to_vec());
}

#[test]
fn map_flattened_field() {
    let inner = Value::Struct(vec![
        Field::new(String::from("p"), Value::U8(1)),
        Field::new(String::from("q"), Value::U8(2)),
    ]);
    let mut out = Vec::new();
    let mut members = query_params::ser::map::Serializer::new(&mut out, false);
    members.serialize_flattened("gone", &Value::Absent).unwrap();
    members.serialize_flattened("z", &inner).unwrap();
    members.serialize_flattened("n", &Value::U8(3)).unwrap();
    members.end().unwrap();
    assert_eq!(out, b"p=1&q=2&n=3".to_vec());

    let mut out = Vec::new();
    let mut members = query_params::ser::map::Serializer::new(&mut out, true);
    members.serialize_field("a", &Value::U8(1)).unwrap();
    let refused = members.serialize_flattened("z", &inner);
    assert!(matches!(refused, Err(Error::UnsupportedNestedStruct("struct"))));
    assert_eq!(out, b"a=1".to_vec());
}

#[test]
fn map_flag_after_a_failure() {
    let fields = vec![
        Field::new(String::from("a"), Value::U8(1)),
        Field::new(String::from("b"), Value::Struct(vec![])),
    ];
    let mut out = Vec::new();
    let mut members = query_params::ser::map::Serializer::new(&mut out, false);
    assert!(members.serialize_fields(&fields).is_err());
    assert!(!members.first_param);
    members.end().unwrap();
    assert_eq!(out, b"a=1".to_vec());

    let mut out = Vec::new();
    let mut members = query_params::ser::map::Serializer::new(&mut out, false);
    let refused_at_once = vec![Field::new(String::from("b"), Value::Struct(vec![]))];
    assert!(members.serialize_fields(&refused_at_once).is_err());
    assert!(members.first_param);
    members.end().unwrap();
    assert!(out.is_empty());

    let entries = vec![(text("a"), Value::U8(1)), (text("b"), Value::Mapping(vec![]))];
    let mut out = Vec::new();
    let mut members = query_params::ser::map::Serializer::new(&mut out, false);
    assert!(members.serialize_entries(&entries).is_err());
    assert!(!members.first_param);
    members.end().unwrap();
    assert_eq!(out, b"a=1&b".to_vec());

    let mut out = Vec::new();
    let mut members = query_params::ser::map::Serializer::new(&mut out, false);
    members.serialize_field("a", &Value::U8(1)).unwrap();
    let inner = Value::Struct(vec![Field::new(String::from("c"), Value::UnitStruct)]);
    assert!(members.serialize_flattened("z", &inner).is_err());
    assert!(!members.first_param);
    members.end().unwrap();
    assert_eq!(out, b"a=1".to_vec());
}

#[test]
fn map_fields_and_entries_in_one_call() {
    let fields = vec![
        Field::new(String::from("a"), Value::U8(1)),
        Field::flattened(String::from("m"), Value::Mapping(vec![(text("b"), Value::U8(2))])),
    ];
    let mut out = Vec::new();
    let mut members = query_params::ser::map::Serializer::new(&mut out, false);
    members.serialize_fields(&fields).unwrap();
    members.serialize_entries(&vec![(text("c"), Value::U8(3))]).unwrap();
    members.end().unwrap();
    assert_eq!(out, b"a=1&b=2&c=3".to_vec());
}

#[test]
fn top_level_methods() {
    let mut out = Vec::new();
    let mut top = Serializer::new(&mut out);
    let kind = |result: Result<(), Error>| match result {
        Err(Error::UnsupportedAtTopLevel(kind)) => kind,
        other => panic!("expected a refusal, got {:?}", other),
    };
    assert_eq!(kind(top.serialize_bool(true)), "bool");
    assert_eq!(kind(top.serialize_i8(1)), "i8");
    assert_eq!(kind(top.serialize_i16(1)), "i16");
    assert_eq!(kind(top.serialize_i32(1)), "i32");
    assert_eq!(kind(top.serialize_i64(1)), "i64");
    assert_eq!(kind(top.serialize_u8(1)), "u8");
    assert_eq!(kind(top.serialize_u16(1)), "u16");
    assert_eq!(kind(top.serialize_u32(1)), "u32");
    assert_eq!(kind(top.serialize_u64(1)), "u64");
    assert_eq!(kind(top.serialize_f32("1")), "f32");
    assert_eq!(kind(top.serialize_f64("1")), "f64");
    assert_eq!(kind(top.serialize_char('c')), "char");
    assert_eq!(kind(top.serialize_str("s")), "str");
    assert_eq!(kind(top.serialize_bytes(&[1])), "bytes");
    assert_eq!(kind(top.serialize_unit_struct()), "unit struct");
    assert_eq!(kind(top.serialize_unit_variant("A")), "unit variant");
    assert_eq!(kind(top.serialize_seq()), "sequence");
    assert_eq!(kind(top.serialize_tuple()), "tuple");
    assert_eq!(kind(top.serialize_tuple_struct()), "tuple struct");
    assert_eq!(kind(top.serialize_tuple_variant()), "tuple variant");
    top.serialize_none().unwrap();
    top.serialize_unit().unwrap();
    top.serialize_some(&Value::Unit).unwrap();
    top.serialize_newtype_struct(&Value::Absent).unwrap();
    top.serialize_newtype_variant(&Value::Unit).unwrap();
    assert!(out.is_empty());
}

#[test]
fn top_level_aggregates() {
    let mut out = Vec::new();
    let mut top = Serializer::new(&mut out);
    let mut members = top.serialize_struct(1).unwrap();
    members.serialize_field("a", &Value::U8(1)).unwrap();
    members.end().unwrap();
    top.serialize_map(0).unwrap().end().unwrap();
    let mut members = top.serialize_struct_variant(2).unwrap();
    members.serialize_field("b", &Value::U8(2)).unwrap();
    members.end().unwrap();
    top.serialize(&Value::Mapping(vec![(text("c"), Value::U8(3))])).unwrap();
    assert_eq!(out, b"?a=1?b=2?c=3".to_vec());
}

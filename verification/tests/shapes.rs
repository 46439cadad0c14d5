use query_params::{to_string, to_vec, to_writer, Error, Field, Value};

fn text(s: &str) -> Value {
    Value::Str(String::from(s))
}

fn field(name: &str, value: Value) -> Field {
    Field::new(String::from(name), value)
}

fn merged(name: &str, value: Value) -> Field {
    Field::flattened(String::from(name), value)
}

fn nested_kind(result: Result<String, Error>) -> &'static str {
    match result {
        Err(Error::UnsupportedNestedStruct(kind)) => kind,
        other => panic!("expected a nested value to be refused, got {:?}", other),
    }
}

fn top_kind(value: Value) -> &'static str {
    match to_string(&value) {
        Err(Error::UnsupportedAtTopLevel(kind)) => kind,
        other => panic!("expected the value to be refused, got {:?}", other),
    }
}

#[test]
fn scenario_request_record() {
    let record = Value::Struct(vec![
        field("id", text("some_id")),
        field("filter", Value::Sequence(vec![text("filter1"), text("filter2")])),
        field("option", Value::Absent),
        field("num", Value::Present(Box::new(Value::U64(42)))),
    ]);
    assert_eq!(
        to_string(&record).unwrap(),
        "?id=some_id&filter=filter1,filter2&option=&num=42"
    );
}

#[test]
fn scenario_reserved_characters() {
    let record = Value::Struct(vec![field("field", text("{a=b&c}"))]);
    assert_eq!(to_string(&record).unwrap(), "?field=%7Ba%3Db%26c%7D");
}

#[test]
fn scenario_empty_sequence() {
    let record = Value::Struct(vec![field("array", Value::Sequence(vec![]))]);
    assert_eq!(to_string(&record).unwrap(), "?array=");
}

#[test]
fn scenario_flattened_record() {
    let record = Value::Struct(vec![
        field("x", Value::U64(1)),
        merged(
            "z",
            Value::Struct(vec![
                field("real", Value::F64(format!("{}", 0.0f64))),
                field("imag", Value::F64(format!("{}", 1.0f64))),
            ]),
        ),
    ]);
    assert_eq!(to_string(&record).unwrap(), "?x=1&real=0&imag=1");
}

#[test]
fn scenario_nested_record_is_refused() {
    let record = Value::Struct(vec![field(
        "field",
        Value::Struct(vec![field("username", text("x"))]),
    )]);
    assert_eq!(nested_kind(to_string(&record)), "struct");
}

#[test]
fn scenario_sequences_as_keys() {
    let map = Value::Mapping(vec![
        (
            Value::Sequence(vec![Value::U8(1), Value::U8(2)]),
            Value::Sequence(vec![Value::U8(1), Value::U8(2)]),
        ),
        (
            Value::Sequence(vec![Value::U8(0)]),
            Value::Sequence(vec![Value::U8(0)]),
        ),
    ]);
    assert_eq!(to_string(&map).unwrap(), "?1,2=1,2&0=0");
}

#[test]
fn one_segment_for_each_field() {
    let record = Value::Struct(vec![
        field("a", Value::U8(1)),
        field("b", Value::Sequence(vec![Value::U8(1), Value::U8(2)])),
        field("c", Value::Absent),
        field("d", text("x&y")),
    ]);
    let out = to_string(&record).unwrap();
    assert_eq!(out, "?a=1&b=1,2&c=&d=x%26y");
    assert_eq!(out.split('&').count(), 4);
    assert_eq!(out.matches('&').count(), 3);
}

#[test]
fn a_raw_ampersand_adds_a_segment() {
    let record = Value::Struct(vec![field("a", Value::Char('&')), field("b", Value::U8(1))]);
    let out = to_string(&record).unwrap();
    assert_eq!(out, "?a=&&b=1");
    assert_eq!(out.matches('&').count(), 2);
}

#[test]
fn merged_members_count_their_own_pairs() {
    let record = Value::Struct(vec![
        field("a", Value::U8(1)),
        merged("m", Value::Struct(vec![field("b", Value::U8(2)), field("c", Value::U8(3))])),
        merged("n", Value::Absent),
        field("d", Value::U8(4)),
    ]);
    let out = to_string(&record).unwrap();
    assert_eq!(out, "?a=1&b=2&c=3&d=4");
    assert_eq!(out.matches('&').count(), 3);
}

#[test]
fn nothing_for_unit_and_empty_aggregates() {
    assert_eq!(to_string(&Value::Unit).unwrap(), "");
    assert_eq!(to_string(&Value::Absent).unwrap(), "");
    assert_eq!(to_string(&Value::Struct(vec![])).unwrap(), "");
    assert_eq!(to_string(&Value::StructVariant(vec![])).unwrap(), "");
    assert_eq!(to_string(&Value::Mapping(vec![])).unwrap(), "");
    assert_eq!(to_string(&Value::Present(Box::new(Value::Unit))).unwrap(), "");
    assert_eq!(to_vec(&Value::Unit).unwrap(), Vec::<u8>::new());
}

#[test]
fn keyless_roots_are_refused_by_name() {
    assert_eq!(top_kind(Value::Bool(true)), "bool");
    assert_eq!(top_kind(Value::I8(1)), "i8");
    assert_eq!(top_kind(Value::I16(1)), "i16");
    assert_eq!(top_kind(Value::I32(1)), "i32");
    assert_eq!(top_kind(Value::I64(1)), "i64");
    assert_eq!(top_kind(Value::U8(1)), "u8");
    assert_eq!(top_kind(Value::U16(1)), "u16");
    assert_eq!(top_kind(Value::U32(1)), "u32");
    assert_eq!(top_kind(Value::U64(1)), "u64");
    assert_eq!(top_kind(Value::F32(String::from("1"))), "f32");
    assert_eq!(top_kind(Value::F64(String::from("1"))), "f64");
    assert_eq!(top_kind(Value::Char('c')), "char");
    assert_eq!(top_kind(text("s")), "str");
    assert_eq!(top_kind(Value::Bytes(vec![1])), "bytes");
    assert_eq!(top_kind(Value::UnitStruct), "unit struct");
    assert_eq!(top_kind(Value::UnitVariant(String::from("A"))), "unit variant");
    assert_eq!(top_kind(Value::Sequence(vec![])), "sequence");
    assert_eq!(top_kind(Value::Tuple(vec![])), "tuple");
    assert_eq!(top_kind(Value::TupleStruct(vec![])), "tuple struct");
    assert_eq!(top_kind(Value::TupleVariant(vec![])), "tuple variant");
    assert_eq!(top_kind(Value::Present(Box::new(Value::U8(1)))), "u8");
    assert_eq!(top_kind(Value::NewtypeStruct(Box::new(text("s")))), "str");
}

#[test]
fn a_refused_root_writes_nothing() {
    let mut sink = b"kept".to_vec();
    assert!(to_writer(&mut sink, &Value::Bool(true)).is_err());
    assert_eq!(sink, b"kept".to_vec());
}

#[test]
fn wrapped_aggregates_at_the_root() {
    let record = Value::Struct(vec![field("a", Value::U8(1))]);
    assert_eq!(to_string(&Value::Present(Box::new(record))).unwrap(), "?a=1");
    let record = Value::StructVariant(vec![field("a", Value::U8(1))]);
    assert_eq!(to_string(&Value::NewtypeStruct(Box::new(record))).unwrap(), "?a=1");
    let map = Value::Mapping(vec![(text("a"), Value::U8(1))]);
    assert_eq!(to_string(&Value::NewtypeVariant(Box::new(map))).unwrap(), "?a=1");
}

#[test]
fn fields_keep_their_order() {
    let record = Value::Struct(vec![
        field("z", Value::U8(1)),
        field("a", Value::U8(2)),
        field("m", Value::U8(3)),
    ]);
    assert_eq!(to_string(&record).unwrap(), "?z=1&a=2&m=3");
    let map = Value::Mapping(vec![
        (text("z"), Value::U8(1)),
        (text("a"), Value::U8(2)),
        (text("m"), Value::U8(3)),
    ]);
    assert_eq!(to_string(&map).unwrap(), "?z=1&a=2&m=3");
}

#[test]
fn encoding_again_gives_the_same_bytes() {
    let record = Value::Struct(vec![
        field("a", Value::Sequence(vec![text("x y"), Value::Char('c')])),
        field("b", Value::I64(-7)),
    ]);
    let once = to_vec(&record).unwrap();
    let again = to_vec(&record).unwrap();
    assert_eq!(once, again);
    assert_eq!(once, b"?a=x+y,c&b=-7".to_vec());
}

#[test]
fn nested_values_are_refused_by_name() {
    let inside = |value: Value| to_string(&Value::Struct(vec![field("k", value)]));
    assert_eq!(nested_kind(inside(Value::Struct(vec![]))), "struct");
    assert_eq!(nested_kind(inside(Value::StructVariant(vec![]))), "struct variant");
    assert_eq!(nested_kind(inside(Value::Mapping(vec![]))), "map");
    assert_eq!(nested_kind(inside(Value::UnitStruct)), "unit struct");
    assert_eq!(nested_kind(inside(Value::TupleStruct(vec![Value::U8(1)]))), "tuple struct");
    assert_eq!(nested_kind(inside(Value::TupleVariant(vec![Value::U8(1)]))), "tuple variant");
    assert_eq!(
        nested_kind(inside(Value::Present(Box::new(Value::Struct(vec![]))))),
        "struct"
    );
}

#[test]
fn elements_that_are_not_scalars_are_refused_by_name() {
    let inside =
        |value: Value| to_string(&Value::Struct(vec![field("k", Value::Sequence(vec![value]))]));
    assert_eq!(nested_kind(inside(Value::Sequence(vec![]))), "sequence");
    assert_eq!(nested_kind(inside(Value::Tuple(vec![]))), "sequence");
    assert_eq!(nested_kind(inside(Value::Bytes(vec![1]))), "bytes");
    assert_eq!(nested_kind(inside(Value::Struct(vec![]))), "struct");
    assert_eq!(nested_kind(inside(Value::StructVariant(vec![]))), "struct variant");
    assert_eq!(nested_kind(inside(Value::Mapping(vec![]))), "map");
    assert_eq!(nested_kind(inside(Value::UnitStruct)), "unit struct");
    assert_eq!(nested_kind(inside(Value::TupleStruct(vec![]))), "tuple struct");
    assert_eq!(nested_kind(inside(Value::TupleVariant(vec![]))), "tuple variant");
}

#[test]
fn tuples_are_encoded_as_sequences() {
    let record = Value::Struct(vec![field(
        "t",
        Value::Tuple(vec![Value::U8(1), text("a b"), Value::Bool(false)]),
    )]);
    assert_eq!(to_string(&record).unwrap(), "?t=1,a+b,false");
}

#[test]
fn elements_are_joined_by_commas() {
    let list = |items: Vec<Value>| {
        to_string(&Value::Struct(vec![field("k", Value::Sequence(items))])).unwrap()
    };
    assert_eq!(list(vec![Value::U8(1), Value::U8(2), Value::U8(3)]), "?k=1,2,3");
    assert_eq!(list(vec![Value::U8(1)]), "?k=1");
    assert_eq!(list(vec![Value::Absent, Value::U8(1)]), "?k=,1");
    assert_eq!(list(vec![text(""), text("a")]), "?k=,a");
    assert_eq!(list(vec![Value::U8(1), Value::Absent, Value::U8(2)]), "?k=1,,2");
    assert_eq!(list(vec![Value::U8(1), Value::Unit]), "?k=1,");
    assert_eq!(list(vec![Value::Unit, Value::Absent]), "?k=,");
    assert_eq!(list(vec![Value::Unit]), "?k=");
    assert_eq!(list(vec![Value::Unit, Value::Unit, Value::Unit]), "?k=,,");
    assert_eq!(list(vec![]), "?k=");
}

#[test]
fn an_empty_element_is_not_omitted() {
    let list = |items: Vec<Value>| {
        to_string(&Value::Struct(vec![field("k", Value::Sequence(items))])).unwrap()
    };
    assert_ne!(list(vec![Value::Absent, Value::U8(1)]), list(vec![Value::U8(1)]));
    assert_eq!(list(vec![Value::U8(1), Value::U8(2)]).matches(',').count(), 1);
    assert_eq!(list(vec![Value::Absent, Value::Absent, Value::U8(2)]).matches(',').count(), 2);
}

#[test]
fn merged_absent_field_writes_nothing() {
    let record = Value::Struct(vec![
        field("x", Value::U8(1)),
        merged("z", Value::Absent),
        field("y", Value::U8(2)),
    ]);
    assert_eq!(to_string(&record).unwrap(), "?x=1&y=2");
    let record = Value::Struct(vec![merged("z", Value::Unit), field("y", Value::U8(2))]);
    assert_eq!(to_string(&record).unwrap(), "?y=2");
    let record = Value::Struct(vec![merged("z", Value::Absent)]);
    assert_eq!(to_string(&record).unwrap(), "?");
}

#[test]
fn merged_aggregate_comes_first() {
    let record = Value::Struct(vec![
        merged("z", Value::Struct(vec![field("a", Value::U8(1))])),
        field("x", Value::U8(2)),
    ]);
    assert_eq!(to_string(&record).unwrap(), "?a=1&x=2");
}

#[test]
fn merged_empty_aggregate_writes_nothing() {
    let record = Value::Struct(vec![
        field("x", Value::U8(1)),
        merged("z", Value::Struct(vec![])),
        field("y", Value::U8(2)),
    ]);
    assert_eq!(to_string(&record).unwrap(), "?x=1&y=2");
}

#[test]
fn merged_dictionary_and_variant() {
    let record = Value::Struct(vec![
        field("x", Value::U8(1)),
        merged("extra", Value::Mapping(vec![(text("k 1"), text("v 1")), (text("k2"), Value::U8(2))])),
        merged("v", Value::StructVariant(vec![field("w", Value::Bool(true))])),
    ]);
    assert_eq!(to_string(&record).unwrap(), "?x=1&k+1=v+1&k2=2&w=true");
}

#[test]
fn merged_scalar_is_an_ordinary_field() {
    let record = Value::Struct(vec![
        field("x", Value::U8(1)),
        merged("z", Value::U8(5)),
        merged("s", Value::Sequence(vec![Value::U8(6), Value::U8(7)])),
    ]);
    assert_eq!(to_string(&record).unwrap(), "?x=1&z=5&s=6,7");
}

#[test]
fn merging_is_one_level_deep() {
    let inner = Value::Struct(vec![
        field("a", Value::U8(1)),
        merged("deep", Value::Struct(vec![field("b", Value::U8(2))])),
    ]);
    let record = Value::Struct(vec![field("x", Value::U8(0)), merged("z", inner)]);
    assert_eq!(nested_kind(to_string(&record)), "struct");

    let inner = Value::Struct(vec![merged("deep", Value::Mapping(vec![]))]);
    let record = Value::Struct(vec![merged("z", inner)]);
    assert_eq!(nested_kind(to_string(&record)), "map");

    let inner = Value::Struct(vec![merged("deep", Value::StructVariant(vec![]))]);
    let record = Value::Struct(vec![merged("z", inner)]);
    assert_eq!(nested_kind(to_string(&record)), "struct variant");
}

#[test]
fn merged_aggregate_with_nested_record_is_refused() {
    let inner = Value::Struct(vec![field("a", Value::Struct(vec![]))]);
    let record = Value::Struct(vec![merged("z", inner)]);
    assert_eq!(nested_kind(to_string(&record)), "struct");
}

#[test]
fn merged_members_inside_a_merged_aggregate() {
    let inner = Value::Struct(vec![
        merged("none", Value::Absent),
        merged("n", Value::U8(3)),
        field("a", Value::U8(1)),
    ]);
    let record = Value::Struct(vec![merged("z", inner)]);
    assert_eq!(to_string(&record).unwrap(), "?n=3&a=1");
}

#[test]
fn dictionary_keys_of_every_shape() {
    let entry = |key: Value| to_string(&Value::Mapping(vec![(key, Value::U8(1))]));
    assert_eq!(entry(text("a b")).unwrap(), "?a+b=1");
    assert_eq!(entry(Value::U16(7)).unwrap(), "?7=1");
    assert_eq!(entry(Value::Bool(true)).unwrap(), "?true=1");
    assert_eq!(entry(Value::Absent).unwrap(), "?=1");
    assert_eq!(entry(Value::Tuple(vec![Value::U8(1), text("x")])).unwrap(), "?1,x=1");
    assert_eq!(entry(Value::Bytes(vec![4, 5])).unwrap(), "?4,5=1");
    assert_eq!(entry(Value::Sequence(vec![Value::Unit, Value::U8(1)])).unwrap(), "?,1=1");
    assert_eq!(entry(Value::Tuple(vec![text(""), Value::Absent, text("a")])).unwrap(), "?,,a=1");
    assert_eq!(
        entry(Value::Present(Box::new(Value::Sequence(vec![Value::U8(9)])))).unwrap(),
        "?9=1"
    );
    assert_eq!(nested_kind(entry(Value::Mapping(vec![]))), "map");
    assert_eq!(nested_kind(entry(Value::Struct(vec![]))), "struct");
    assert_eq!(nested_kind(entry(Value::Sequence(vec![Value::Sequence(vec![])]))), "sequence");
}

#[test]
fn dictionary_values_of_every_shape() {
    let entry = |value: Value| to_string(&Value::Mapping(vec![(text("k"), value)]));
    assert_eq!(entry(Value::Absent).unwrap(), "?k=");
    assert_eq!(entry(Value::Sequence(vec![])).unwrap(), "?k=");
    assert_eq!(entry(Value::Bytes(vec![1, 2])).unwrap(), "?k=1,2");
    assert_eq!(nested_kind(entry(Value::Mapping(vec![]))), "map");
    assert_eq!(nested_kind(entry(Value::TupleStruct(vec![]))), "tuple struct");
}

#[test]
fn writer_keeps_what_it_held() {
    let mut sink = b"https://example.org/".to_vec();
    let record = Value::Struct(vec![field("a", Value::U8(1))]);
    to_writer(&mut sink, &record).unwrap();
    assert_eq!(sink, b"https://example.org/?a=1".to_vec());
}

#[test]
fn a_failure_leaves_what_was_written() {
    let record = Value::Struct(vec![
        field("a", Value::U8(1)),
        field("b", Value::Struct(vec![])),
        field("c", Value::U8(3)),
    ]);
    let mut sink = Vec::new();
    assert!(to_writer(&mut sink, &record).is_err());
    assert_eq!(sink, b"?a=1".to_vec());

    let record = Value::Struct(vec![field(
        "a",
        Value::Sequence(vec![Value::U8(1), Value::Sequence(vec![]), Value::U8(2)]),
    )]);
    let mut sink = Vec::new();
    assert!(to_writer(&mut sink, &record).is_err());
    assert_eq!(sink, b"?a=1,".to_vec());

    let map = Value::Mapping(vec![
        (text("a"), Value::U8(1)),
        (Value::Struct(vec![]), Value::U8(2)),
    ]);
    let mut sink = Vec::new();
    assert!(to_writer(&mut sink, &map).is_err());
    assert_eq!(sink, b"?a=1&".to_vec());

    let map = Value::Mapping(vec![(text("a"), Value::Struct(vec![]))]);
    let mut sink = Vec::new();
    assert!(to_writer(&mut sink, &map).is_err());
    assert_eq!(sink, b"?a".to_vec());
}

#[test]
fn error_messages() {
    assert_eq!(
        Error::UnsupportedAtTopLevel("bool").message(),
        "Tried to serialize a bool at the top level. Only key-value shapes are supported at the top level of a query parameter."
    );
    assert_eq!(
        Error::UnsupportedNestedStruct("map").message(),
        "Tried to serialize a map in place of a value. Only simple values are supported on the right-hand side of a parameter."
    );
    assert_eq!(Error::Custom(String::from("no such thing")).message(), "no such thing");
    assert_eq!(Error::Extern(String::from("broken pipe")).message(), "broken pipe");
    assert_eq!(Error::custom("mine").message(), "mine");
    assert!(matches!(Error::custom("mine"), Error::Custom(_)));
}

#[test]
fn peel_takes_the_wrappers_off() {
    let wrapped = Value::Present(Box::new(Value::NewtypeStruct(Box::new(
        Value::NewtypeVariant(Box::new(Value::U8(7))),
    ))));
    assert!(matches!(wrapped.peel(), Value::U8(7)));
    assert!(matches!(Value::Absent.peel(), Value::Absent));
}

use serde_url_params::Error;
use serde_url_params::Serializer;
use serde_url_params::StringOnlySerializer;
use serde_url_params::Value;
use serde_url_params::to_string;
use serde_url_params::to_vec;
use serde_url_params::to_writer;

fn text(s: &str) -> Value {
    Value::Str(String::from(s))
}

fn field(name: &str, v: Value) -> (String, Value) {
    (String::from(name), v)
}

#[test]
fn test() {
    let request = Value::Struct(vec![
        field("id", text("some_id")),
        field("filter", Value::Sequence(vec![text("filter1"), text("filter2")])),
        field("option", Value::Opt(None)),
        field(
            "optional_filter",
            Value::Opt(Some(Box::new(Value::Sequence(vec![text("filter3")])))),
        ),
        field("select", Value::UnitVariant(String::from("A"))),
        field(
            "select2",
            Value::Sequence(vec![
                Value::UnitVariant(String::from("A")),
                Value::UnitVariant(String::from("B")),
            ]),
        ),
        field("num", Value::Opt(Some(Box::new(Value::U64(42))))),
        field(
            "results",
            Value::Sequence(vec![
                Value::NewtypeVariant(Box::new(text("pass"))),
                Value::NewtypeVariant(Box::new(text("fail"))),
            ]),
        ),
    ]);
    let get_params = to_string(&request);
    assert!(get_params.is_ok());
    assert_eq!(
        get_params.unwrap(),
        "id=some_id&filter=filter1&filter=filter2&optional_filter=filter3&select=A&select2=A&select2=B&num=42&results=pass&results=fail"
    );
}

#[test]
fn test_newtype_struct() {
    let params = Value::Struct(vec![field(
        "field",
        Value::NewtypeStruct(Box::new(Value::U64(42))),
    )]);
    let url_params = to_string(&params);
    assert!(url_params.is_ok());
    assert_eq!(url_params.unwrap(), "field=42");
}

#[test]
fn test_tuple() {
    let params = Value::Struct(vec![field(
        "field",
        Value::Tuple(vec![
            Value::U64(42),
            text("hello"),
            Value::Float(format!("{}", 3.14f32)),
        ]),
    )]);
    let url_params = to_string(&params);
    assert!(url_params.is_ok());
    assert_eq!(url_params.unwrap(), "field=42&field=hello&field=3.14");
}

#[test]
fn test_tuple_struct() {
    let params = Value::Struct(vec![field(
        "field",
        Value::TupleStruct(vec![
            Value::U64(42),
            text("hello"),
            Value::Float(format!("{}", 3.14f32)),
        ]),
    )]);
    let url_params = to_string(&params);
    assert!(url_params.is_ok());
    assert_eq!(url_params.unwrap(), "field=42&field=hello&field=3.14");
}

#[test]
fn test_struct() {
    // top level struct is supported
    {
        let params = Value::Struct(vec![field("username", text("boxdot"))]);
        let url_params = to_string(&params);
        assert!(url_params.is_ok());
        assert_eq!(url_params.unwrap(), "username=boxdot");
    }
    // nested struct is not supported
    {
        let params = Value::Struct(vec![field(
            "field",
            Value::Struct(vec![field("username", text("boxdot"))]),
        )]);
        let url_params = to_string(&params);
        assert!(url_params.is_err());
    }
}

#[test]
fn test_struct_variant() {
    // top level struct variant is supported
    {
        let params = Value::StructVariant(vec![field("username", text("boxdot"))]);
        let url_params = to_string(&params);
        assert!(url_params.is_ok());
        assert_eq!(url_params.unwrap(), "username=boxdot");
    }
    // nested struct variant is not supported
    {
        let params = Value::Struct(vec![field(
            "field",
            Value::StructVariant(vec![field("username", text("boxdot"))]),
        )]);
        let url_params = to_string(&params);
        assert!(url_params.is_err());
    }
}

#[test]
fn test_urlencoded() {
    let params = Value::Struct(vec![field("field", text("{some=weird&param}"))]);
    let url_params = to_string(&params);
    assert!(url_params.is_ok());
    assert_eq!(url_params.unwrap(), "field=%7Bsome%3Dweird%26param%7D");
}

#[test]
fn test_flattened_struct() {
    // A record with a flattened optional record serializes as a map: the
    // inner fields are promoted to top-level keys.
    let params = Value::Mapping(vec![
        (text("x"), Value::U64(1)),
        (text("real"), Value::Float(format!("{}", 0.0f64))),
        (text("imag"), Value::Float(format!("{}", 1.0f64))),
    ]);
    let url_params = to_string(&params);
    assert_eq!(url_params.expect("failed serialization"), "x=1&real=0&imag=1");
}

#[test]
fn test_seq_of_struct() {
    let params = Value::Sequence(vec![
        Value::Struct(vec![
            field("real", Value::Float(format!("{}", 0.0f64))),
            field("imag", Value::Float(format!("{}", 1.0f64))),
        ]),
        Value::Struct(vec![
            field("real", Value::Float(format!("{}", 1.0f64))),
            field("imag", Value::Float(format!("{}", 0.0f64))),
        ]),
    ]);
    let url_params = to_string(&params);
    assert_eq!(
        url_params.expect("failed serialization"),
        "real=0&imag=1&real=1&imag=0"
    );
}

#[test]
fn top_level_integer_is_unsupported() {
    let err = to_string(&Value::U64(7)).unwrap_err();
    assert!(matches!(err, Error::Unsupported(_)));
    if let Error::Unsupported(msg) = err {
        assert_eq!(msg, "cannot serialize top level value");
    }
}

#[test]
fn nested_struct_is_unsupported() {
    let params = Value::Struct(vec![field(
        "outer",
        Value::Struct(vec![field("inner", Value::U64(1))]),
    )]);
    let err = to_string(&params).unwrap_err();
    assert!(matches!(err, Error::Unsupported(_)));
    if let Error::Unsupported(msg) = err {
        assert_eq!(msg, "nested struct");
    }
}

#[test]
fn non_string_map_key_is_unsupported() {
    let params = Value::Mapping(vec![(Value::U64(1), text("one"))]);
    let err = to_string(&params).unwrap_err();
    assert!(matches!(err, Error::Unsupported(_)));
    if let Error::Unsupported(msg) = err {
        assert_eq!(msg, "u64");
    }
}

#[test]
fn scalar_renderings() {
    let params = Value::Struct(vec![
        field("t", Value::Bool(true)),
        field("f", Value::Bool(false)),
        field("i", Value::I64(-9223372036854775808i64)),
        field("j", Value::I32(-1)),
        field("u", Value::U64(18446744073709551615u64)),
        field("z", Value::U8(0)),
        field("c", Value::Char('A')),
    ]);
    assert_eq!(
        to_string(&params).unwrap(),
        "t=true&f=false&i=-9223372036854775808&j=-1&u=18446744073709551615&z=0&c=A"
    );
}

#[test]
fn byte_sequences_repeat_the_key() {
    let params = Value::Struct(vec![field("b", Value::Bytes(vec![1u8, 255u8, 0u8]))]);
    assert_eq!(to_string(&params).unwrap(), "b=1&b=255&b=0");
}

#[test]
fn unit_shapes_emit_nothing() {
    let params = Value::Struct(vec![
        field("a", Value::Unit),
        field("b", Value::UnitStruct),
        field("c", Value::U64(1)),
    ]);
    assert_eq!(to_string(&params).unwrap(), "c=1");
}

#[test]
fn space_encodes_as_plus() {
    let params = Value::Struct(vec![field("q", text("fight club"))]);
    assert_eq!(to_string(&params).unwrap(), "q=fight+club");
}

#[test]
fn empty_string_value() {
    let params = Value::Struct(vec![field("q", text(""))]);
    assert_eq!(to_string(&params).unwrap(), "q=");
}

#[test]
fn char_map_key() {
    let params = Value::Mapping(vec![(Value::Char('k'), Value::U64(1))]);
    assert_eq!(to_string(&params).unwrap(), "k=1");
}

#[test]
fn decoding_round_trips() {
    let original = "a strange {value} with &=% inside";
    let params = Value::Struct(vec![field("field", text(original))]);
    let encoded = to_string(&params).unwrap();
    let pairs: Vec<(String, String)> = url::form_urlencoded::parse(encoded.as_bytes())
        .map(|(k, v)| (k.into_owned(), v.into_owned()))
        .collect();
    assert_eq!(pairs.len(), 1);
    assert_eq!(pairs[0].0, "field");
    assert_eq!(pairs[0].1, original);
}

#[test]
fn encoding_is_deterministic() {
    let params = Value::Struct(vec![
        field("id", text("some id")),
        field("n", Value::I16(-42)),
    ]);
    let first = to_string(&params).unwrap();
    let second = to_string(&params).unwrap();
    assert_eq!(first, second);
}

#[test]
fn to_vec_yields_the_utf8_bytes() {
    let params = Value::Struct(vec![field("username", text("boxdot"))]);
    let bytes = to_vec(&params).unwrap();
    assert_eq!(bytes, b"username=boxdot".to_vec());
}

#[test]
fn to_writer_appends_to_the_sink() {
    let params = Value::Struct(vec![field("username", text("boxdot"))]);
    let mut sink: Vec<u8> = b"?".to_vec();
    let r = to_writer(&mut sink, &params);
    assert!(r.is_ok());
    assert_eq!(sink, b"?username=boxdot".to_vec());
}

#[test]
fn to_writer_keeps_partial_output_on_failure() {
    let params = Value::Struct(vec![
        field("a", Value::U64(1)),
        field("bad", Value::Struct(vec![field("inner", Value::U64(2))])),
    ]);
    let mut sink: Vec<u8> = Vec::new();
    let r = to_writer(&mut sink, &params);
    assert!(r.is_err());
    assert_eq!(sink, b"a=1".to_vec());
}

#[test]
fn serializer_visits_step_by_step() {
    let mut ser = Serializer::new();
    assert!(ser.serialize_struct("Params", 2).is_ok());
    ser.serialize_field("name");
    assert!(ser.serialize_str("boxdot").is_ok());
    ser.serialize_field("age");
    assert!(ser.serialize_u64(30).is_ok());
    assert!(ser.end_struct().is_ok());
    assert_eq!(ser.into_string(), "name=boxdot&age=30");
}

#[test]
fn string_only_serializer_accepts_only_strings_and_chars() {
    let mut key_ser = StringOnlySerializer::new();
    assert!(key_ser.serialize_str("key").is_ok());
    assert_eq!(key_ser.as_str(), "key");
    assert!(key_ser.serialize_char('z').is_ok());
    assert_eq!(key_ser.as_str(), "z");
    assert!(matches!(key_ser.serialize_bool(true), Err(Error::Unsupported(_))));
    assert!(matches!(key_ser.serialize_i32(5), Err(Error::Unsupported(_))));
    assert!(matches!(key_ser.serialize_none(), Err(Error::Unsupported(_))));
    assert!(matches!(key_ser.serialize_map(None), Err(Error::Unsupported(_))));
    assert_eq!(key_ser.into_string(), "z");
}

#[test]
fn present_optional_contributes_as_inner_value() {
    let absent = Value::Struct(vec![field("k", Value::Opt(None))]);
    assert_eq!(to_string(&absent).unwrap(), "");
    let present = Value::Struct(vec![field(
        "k",
        Value::Opt(Some(Box::new(Value::Sequence(vec![
            Value::U64(1),
            Value::U64(2),
        ])))),
    )]);
    assert_eq!(to_string(&present).unwrap(), "k=1&k=2");
}

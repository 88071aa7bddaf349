use grpc_fdw::codec::CodecError;
use grpc_fdw::codec::MAX_EXACT_MAGNITUDE;
use grpc_fdw::codec::NativeValue;
use grpc_fdw::codec::TypeOid;
use grpc_fdw::codec::decode_value;
use grpc_fdw::codec::encode_value;
use grpc_fdw::value::GenericValue;
use grpc_fdw::value::JsonData;
use grpc_fdw::value::json_to_value;
use grpc_fdw::value::value_to_json;

#[test]
fn encode_text_column() {
    let r = encode_value(TypeOid::Text, &NativeValue::Text(String::from("abc")));
    assert_eq!(r, Ok(GenericValue::Text(String::from("abc"))));
}

#[test]
fn encode_boolean_column() {
    let r = encode_value(TypeOid::Boolean, &NativeValue::Boolean(true));
    assert_eq!(r, Ok(GenericValue::Bool(true)));
}

#[test]
fn encode_integer_widths() {
    for oid in [TypeOid::Int2, TypeOid::Int4, TypeOid::Int8] {
        let r = encode_value(oid, &NativeValue::Int(-41));
        assert_eq!(r, Ok(GenericValue::Number(-41)));
    }
}

#[test]
fn encode_absent_value_is_null() {
    let r = encode_value(TypeOid::Text, &NativeValue::Absent);
    assert_eq!(r, Ok(GenericValue::Null));
}

#[test]
fn encode_unsupported_type_carries_identifier() {
    let r = encode_value(TypeOid::Other(600), &NativeValue::Int(1));
    assert_eq!(r, Err(CodecError::UnsupportedType(TypeOid::Other(600))));
}

#[test]
fn encode_within_exact_magnitude_succeeds() {
    let r = encode_value(TypeOid::Int8, &NativeValue::Int(MAX_EXACT_MAGNITUDE));
    assert_eq!(r, Ok(GenericValue::Number(MAX_EXACT_MAGNITUDE)));
    let r = encode_value(TypeOid::Int8, &NativeValue::Int(-MAX_EXACT_MAGNITUDE));
    assert_eq!(r, Ok(GenericValue::Number(-MAX_EXACT_MAGNITUDE)));
}

#[test]
fn encode_beyond_exact_magnitude_is_precision_loss() {
    let r = encode_value(TypeOid::Int8, &NativeValue::Int(MAX_EXACT_MAGNITUDE + 1));
    assert_eq!(r, Err(CodecError::PrecisionLoss));
    let r = encode_value(TypeOid::Int8, &NativeValue::Int(i64::MIN));
    assert_eq!(r, Err(CodecError::PrecisionLoss));
}

#[test]
fn scalar_round_trips() {
    let cases = vec![
        (TypeOid::Text, NativeValue::Text(String::from("row value"))),
        (TypeOid::Boolean, NativeValue::Boolean(false)),
        (TypeOid::Int2, NativeValue::Int(-32768)),
        (TypeOid::Int4, NativeValue::Int(2147483647)),
        (TypeOid::Int8, NativeValue::Int(MAX_EXACT_MAGNITUDE)),
        (TypeOid::Int8, NativeValue::Absent),
    ];
    for (oid, v) in cases {
        let encoded = encode_value(oid, &v).unwrap();
        let decoded = decode_value(oid, &encoded).unwrap();
        assert_eq!(decoded, v);
    }
}

fn sample_json_tree() -> JsonData {
    JsonData::Object(vec![
        (String::from("a"), JsonData::Array(vec![
            JsonData::Num(1),
            JsonData::Num(2),
            JsonData::Null,
        ])),
        (String::from("flag"), JsonData::Bool(true)),
        (String::from("note"), JsonData::Str(String::from("x"))),
    ])
}

#[test]
fn json_column_round_trips() {
    let v = NativeValue::Json(sample_json_tree());
    let encoded = encode_value(TypeOid::Jsonb, &v).unwrap();
    let decoded = decode_value(TypeOid::Jsonb, &encoded).unwrap();
    assert_eq!(decoded, v);
}

#[test]
fn json_null_document_reads_back_absent() {
    let v = NativeValue::Json(JsonData::Null);
    let encoded = encode_value(TypeOid::Jsonb, &v).unwrap();
    assert_eq!(encoded, GenericValue::Null);
    let decoded = decode_value(TypeOid::Jsonb, &encoded).unwrap();
    assert_eq!(decoded, NativeValue::Absent);
}

#[test]
fn generic_tree_round_trips_through_json() {
    let tree = GenericValue::Struct(vec![
        (String::from("id"), GenericValue::Number(7)),
        (String::from("tags"), GenericValue::List(vec![
            GenericValue::Text(String::from("a")),
            GenericValue::Null,
            GenericValue::Bool(false),
        ])),
    ]);
    let json = value_to_json(&tree);
    let back = json_to_value(&json);
    assert_eq!(back, tree);
}

#[test]
fn struct_with_unknown_keys_keeps_every_key() {
    let tree = GenericValue::Struct(vec![
        (String::from("known"), GenericValue::Number(1)),
        (String::from("extra"), GenericValue::Struct(vec![
            (String::from("deep"), GenericValue::Text(String::from("kept"))),
            (String::from("deeper"), GenericValue::List(vec![GenericValue::Null])),
        ])),
        (String::from("another"), GenericValue::Bool(true)),
    ]);
    let back = json_to_value(&value_to_json(&tree));
    assert_eq!(back, tree);
    match back {
        GenericValue::Struct(fields) => {
            let keys: Vec<&str> = fields.iter().map(|(k, _)| k.as_str()).collect();
            assert_eq!(keys, vec!["known", "extra", "another"]);
        }
        _ => panic!("expected a struct"),
    }
}

#[test]
fn nested_json_object_decodes_and_reencodes() {
    let json = JsonData::Object(vec![(String::from("a"), JsonData::Array(vec![
        JsonData::Num(1),
        JsonData::Num(2),
        JsonData::Null,
    ]))]);
    let wire = json_to_value(&json);
    assert_eq!(
        wire,
        GenericValue::Struct(vec![(String::from("a"), GenericValue::List(vec![
            GenericValue::Number(1),
            GenericValue::Number(2),
            GenericValue::Null,
        ]))])
    );
    let back = value_to_json(&wire);
    assert_eq!(back, json);
}

#[test]
fn decode_composite_into_scalar_column_is_type_mismatch() {
    let v = GenericValue::List(vec![GenericValue::Number(1)]);
    assert_eq!(decode_value(TypeOid::Int4, &v), Err(CodecError::TypeMismatch(TypeOid::Int4)));
    let s = GenericValue::Struct(vec![]);
    assert_eq!(decode_value(TypeOid::Text, &s), Err(CodecError::TypeMismatch(TypeOid::Text)));
}

#[test]
fn decode_without_native_target_is_unsupported_conversion() {
    let v = GenericValue::Number(3);
    assert_eq!(
        decode_value(TypeOid::Text, &v),
        Err(CodecError::UnsupportedConversion(TypeOid::Text))
    );
    let b = GenericValue::Bool(true);
    assert_eq!(
        decode_value(TypeOid::Other(99), &b),
        Err(CodecError::UnsupportedConversion(TypeOid::Other(99)))
    );
}

#[test]
fn encode_type_mismatch_carries_identifier() {
    let r = encode_value(TypeOid::Boolean, &NativeValue::Int(1));
    assert_eq!(r, Err(CodecError::TypeMismatch(TypeOid::Boolean)));
}

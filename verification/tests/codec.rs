use json_column::column_result;
use json_column::replace_null;
use json_column::to_sql;
use json_column::ColumnValue;
use json_column::DecodeError;

#[test]
fn test_json_value() {
    let json = r#"{"foo": 13, "bar": "baz"}"#;
    let data: serde_json::Value = serde_json::from_str(json).unwrap();

    // Store the value as text, and the raw JSON bytes as a blob.
    let text_cell = to_sql(&data);
    let blob_cell = ColumnValue::Blob(json.as_bytes().to_vec());

    let t: serde_json::Value = column_result(&text_cell).unwrap();
    assert_eq!(data, t);
    let b: serde_json::Value = column_result(&blob_cell).unwrap();
    assert_eq!(data, b);
}

#[test]
fn test_json_null_value() {
    // The original exercise stores four rows and counts them back; here the
    // table is a plain vector of encoded cells.
    let mut foo: Vec<ColumnValue> = Vec::new();

    foo.push(to_sql(&serde_json::Value::Null));
    assert_eq!(foo.len(), 1);

    foo.push(to_sql(&serde_json::Value::Null));
    assert_eq!(foo.len(), 2);

    let json: serde_json::Value = serde_json::from_str(r#"{ "i": null }"#).unwrap();
    foo.push(to_sql(&json));
    assert_eq!(foo.len(), 3);

    let json: serde_json::Value = serde_json::from_str(r#"{ "i": 1 }"#).unwrap();
    foo.push(to_sql(&json));
    assert_eq!(foo.len(), 4);

    // Every stored cell is textual, whatever the value was.
    for cell in &foo {
        assert!(matches!(cell, ColumnValue::Text(_)));
    }
}

#[test]
fn null_becomes_upper_case_text() {
    // Encoding JSON null yields the exact text "NULL", not "null", and is
    // therefore indistinguishable from a hand-written column literal "NULL".
    let cell = to_sql(&serde_json::Value::Null);
    assert_eq!(cell, ColumnValue::Text(b"NULL".to_vec()));
}

#[test]
fn non_text_columns_are_rejected() {
    let res = column_result(&ColumnValue::Integer(13));
    assert!(matches!(res, Err(DecodeError::TypeMismatch)));
    let res = column_result(&ColumnValue::Real(0x402A000000000000));
    assert!(matches!(res, Err(DecodeError::TypeMismatch)));
    let res = column_result(&ColumnValue::Null);
    assert!(matches!(res, Err(DecodeError::TypeMismatch)));
}

#[test]
fn malformed_text_is_rejected() {
    let res = column_result(&ColumnValue::Text(b"{not valid json".to_vec()));
    assert!(matches!(res, Err(DecodeError::ParseFailure(_))));
    let res = column_result(&ColumnValue::Blob(b"{not valid json".to_vec()));
    assert!(matches!(res, Err(DecodeError::ParseFailure(_))));
}

#[test]
fn text_and_blob_decode_alike() {
    let data: serde_json::Value =
        serde_json::from_str(r#"{"foo": 13, "bar": "baz"}"#).unwrap();
    let bytes = match to_sql(&data) {
        ColumnValue::Text(b) => b,
        _ => unreachable!(),
    };
    let from_text: serde_json::Value =
        column_result(&ColumnValue::Text(bytes.clone())).unwrap();
    let from_blob: serde_json::Value =
        column_result(&ColumnValue::Blob(bytes)).unwrap();
    assert_eq!(from_text, from_blob);
    assert_eq!(from_text, data);
}

#[test]
fn encoding_is_canonical_text() {
    // serde_json's map keeps keys ordered, so the stored text is canonical.
    let data: serde_json::Value =
        serde_json::from_str(r#"{"foo": 13, "bar": "baz"}"#).unwrap();
    let cell = to_sql(&data);
    assert_eq!(cell, ColumnValue::Text(br#"{"bar":"baz","foo":13}"#.to_vec()));
}

#[test]
fn round_trip_nested_value() {
    let data: serde_json::Value =
        serde_json::from_str(r#"[1, true, "x", {"k": [], "m": {"deep": -2}}]"#).unwrap();
    let cell = to_sql(&data);
    let back: serde_json::Value = column_result(&cell).unwrap();
    assert_eq!(data, back);
}

#[test]
fn replace_null_rewrites_exactly() {
    assert_eq!(replace_null(&b"null".to_vec()), b"NULL".to_vec());
    assert_eq!(replace_null(&b"".to_vec()), b"".to_vec());
    assert_eq!(replace_null(&b"nul".to_vec()), b"nul".to_vec());
    assert_eq!(replace_null(&b"nnulll".to_vec()), b"nNULLl".to_vec());
    assert_eq!(
        replace_null(&b"a null, a nullable, nulnull".to_vec()),
        b"a NULL, a NULLable, nulNULL".to_vec()
    );
}

#[test]
fn float_values_round_trip() {
    // A float whose shortest decimal form needs exact reparsing: best-effort
    // float parsing would recover a neighbouring value instead.
    let data: serde_json::Value = serde_json::from_str("[51.248178375505404]").unwrap();
    let cell = to_sql(&data);
    let back: serde_json::Value = column_result(&cell).unwrap();
    assert_eq!(data, back);
    assert_eq!(back[0].as_f64(), Some(51.248178375505404_f64));
}

#[test]
fn embedded_null_token_breaks_round_trip() {
    // The substitution is blind: a JSON null inside a structure becomes the
    // bytes "NULL", which are no longer valid JSON text.
    let data: serde_json::Value = serde_json::from_str(r#"{"i": null}"#).unwrap();
    let cell = to_sql(&data);
    assert_eq!(cell, ColumnValue::Text(br#"{"i":NULL}"#.to_vec()));
    let res = column_result(&cell);
    assert!(matches!(res, Err(DecodeError::ParseFailure(_))));
}

#[test]
fn null_inside_string_is_corrupted() {
    // A string value containing the bytes "null" is silently rewritten, so
    // decoding yields a different value than was stored.
    let data: serde_json::Value = serde_json::from_str(r#"{"a": "null"}"#).unwrap();
    let cell = to_sql(&data);
    let back: serde_json::Value = column_result(&cell).unwrap();
    let expected: serde_json::Value = serde_json::from_str(r#"{"a": "NULL"}"#).unwrap();
    assert_eq!(back, expected);
    assert_ne!(back, data);
}

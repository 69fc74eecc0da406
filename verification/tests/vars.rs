use rs_ansible::VarsValue;

#[test]
fn null_serializes_to_null() {
    assert_eq!(VarsValue::Null.to_json(), "null");
    assert!(VarsValue::Null.is_null());
}

#[test]
fn booleans_serialize_to_their_keywords() {
    assert_eq!(VarsValue::Bool(true).to_json(), "true");
    assert_eq!(VarsValue::Bool(false).to_json(), "false");
    assert!(!VarsValue::Bool(false).is_null());
}

#[test]
fn numbers_serialize_in_decimal() {
    assert_eq!(VarsValue::Num(0).to_json(), "0");
    assert_eq!(VarsValue::Num(42).to_json(), "42");
    assert_eq!(VarsValue::Num(-42).to_json(), "-42");
    assert_eq!(
        VarsValue::Num(i64::MIN).to_json(),
        "-9223372036854775808"
    );
    assert_eq!(VarsValue::Num(i64::MAX).to_json(), "9223372036854775807");
}

#[test]
fn strings_are_quoted_and_escaped() {
    assert_eq!(VarsValue::Str("plain".to_string()).to_json(), "\"plain\"");
    assert_eq!(
        VarsValue::Str("a\"b\\c".to_string()).to_json(),
        "\"a\\\"b\\\\c\""
    );
    assert_eq!(
        VarsValue::Str("tab\there\nline".to_string()).to_json(),
        "\"tab\\there\\nline\""
    );
    assert_eq!(
        VarsValue::Str("\u{08}\u{0C}\r".to_string()).to_json(),
        "\"\\b\\f\\r\""
    );
    assert_eq!(
        VarsValue::Str("\u{01}\u{1f}".to_string()).to_json(),
        "\"\\u0001\\u001f\""
    );
}

#[test]
fn sequences_serialize_in_order() {
    let value = VarsValue::Arr(vec![
        VarsValue::Num(1),
        VarsValue::Str("x".to_string()),
        VarsValue::Null,
    ]);
    assert_eq!(value.to_json(), "[1,\"x\",null]");
    let empty = VarsValue::Arr(vec![]);
    assert_eq!(empty.to_json(), "[]");
}

#[test]
fn mappings_keep_their_entry_order() {
    let value = VarsValue::Obj(vec![
        ("b".to_string(), VarsValue::Num(1)),
        ("a".to_string(), VarsValue::Num(2)),
    ]);
    assert_eq!(value.to_json(), "{\"b\":1,\"a\":2}");
    let empty = VarsValue::Obj(vec![]);
    assert_eq!(empty.to_json(), "{}");
}

#[test]
fn nested_values_serialize_compactly() {
    let value = VarsValue::Obj(vec![
        (
            "hosts".to_string(),
            VarsValue::Arr(vec![
                VarsValue::Str("alpha".to_string()),
                VarsValue::Str("beta".to_string()),
            ]),
        ),
        (
            "limits".to_string(),
            VarsValue::Obj(vec![("forks".to_string(), VarsValue::Num(5))]),
        ),
    ]);
    assert_eq!(
        value.to_json(),
        "{\"hosts\":[\"alpha\",\"beta\"],\"limits\":{\"forks\":5}}"
    );
}

#[test]
fn serialization_is_deterministic() {
    let value = VarsValue::Obj(vec![(
        "key".to_string(),
        VarsValue::Arr(vec![VarsValue::Bool(true), VarsValue::Num(-7)]),
    )]);
    assert_eq!(value.to_json(), value.to_json());
}

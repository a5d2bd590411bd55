use jupiter_swap_api_client::json::{DecodeError, JsonValue};
use jupiter_swap_api_client::price::field_as_string_option::{deserialize, serialize};

#[test]
fn serialize_writes_decimal_text() {
    assert_eq!(serialize(&Some(0)), Some(JsonValue::Text("0".to_string())));
    assert_eq!(serialize(&Some(1_700_000_000)), Some(JsonValue::Text("1700000000".to_string())));
    assert_eq!(
        serialize(&Some(u64::MAX)),
        Some(JsonValue::Text("18446744073709551615".to_string()))
    );
}

#[test]
fn serialize_leaves_out_what_has_no_value() {
    assert_eq!(serialize(&None), None);
}

#[test]
fn deserialize_reads_text_as_a_number() {
    let member = JsonValue::Text("1700000000".to_string());
    assert_eq!(deserialize(Some(&member)), Ok(Some(1_700_000_000)));
}

#[test]
fn deserialize_takes_absent_and_null_as_no_value() {
    assert_eq!(deserialize(None), Ok(None));
    assert_eq!(deserialize(Some(&JsonValue::Null)), Ok(None));
}

#[test]
fn deserialize_rejects_text_that_is_no_number() {
    for text in ["abc", "", "-3", "1.5", "18446744073709551616"] {
        let member = JsonValue::Text(text.to_string());
        assert_eq!(deserialize(Some(&member)), Err(DecodeError::InvalidInteger));
    }
}

#[test]
fn deserialize_rejects_what_is_no_text() {
    let number = JsonValue::Number("5".to_string());
    assert_eq!(deserialize(Some(&number)), Err(DecodeError::UnexpectedType));
    assert_eq!(deserialize(Some(&JsonValue::Bool(true))), Err(DecodeError::UnexpectedType));
    assert_eq!(deserialize(Some(&JsonValue::Array(vec![]))), Err(DecodeError::UnexpectedType));
}

#[test]
fn string_coded_integer_round_trips() {
    for value in [Some(0u64), Some(1), Some(42), Some(u64::MAX), None] {
        let written = serialize(&value);
        assert_eq!(deserialize(written.as_ref()), Ok(value));
    }
}

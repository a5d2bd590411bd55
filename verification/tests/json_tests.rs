use jupiter_swap_api_client::decode::{
    decode_items, decode_map, decode_optional, decode_optional_items, Decimal, FromJson,
};
use jupiter_swap_api_client::entries::entry;
use jupiter_swap_api_client::parse::parse_json;
use jupiter_swap_api_client::json::{
    as_members, find, find_present, get_defaulted_text, get_optional_integer, get_optional_text,
    get_required_bool, get_required_integer, get_required_items, get_required_members,
    get_required_number, get_required_text, get_required_text_integer, number_to_integer,
    text_to_integer, DecodeError, JsonValue,
};

fn text(s: &str) -> JsonValue {
    JsonValue::Text(s.to_string())
}

fn number(s: &str) -> JsonValue {
    JsonValue::Number(s.to_string())
}

fn object(members: Vec<(&str, JsonValue)>) -> Vec<(String, JsonValue)> {
    members.into_iter().map(|(k, v)| (k.to_string(), v)).collect()
}

#[test]
fn parse_json_reads_each_kind_of_value() {
    assert_eq!(parse_json("null"), Some(JsonValue::Null));
    assert_eq!(parse_json("true"), Some(JsonValue::Bool(true)));
    assert_eq!(parse_json("12"), Some(number("12")));
    assert_eq!(parse_json("-3"), Some(number("-3")));
    assert_eq!(parse_json("0.01"), Some(number("0.01")));
    assert_eq!(parse_json("\"a\\nb\""), Some(text("a\nb")));
    assert_eq!(parse_json("[1, \"x\"]"), Some(JsonValue::Array(vec![number("1"), text("x")])));
    assert_eq!(
        parse_json("{\"k\": {\"n\": null}}"),
        Some(JsonValue::Object(object(vec![(
            "k",
            JsonValue::Object(object(vec![("n", JsonValue::Null)]))
        )])))
    );
}

#[test]
fn parse_json_rejects_what_is_no_document() {
    assert_eq!(parse_json(""), None);
    assert_eq!(parse_json("{"), None);
    assert_eq!(parse_json("{\"a\": 1,}"), None);
    assert_eq!(parse_json("internal error"), None);
    assert_eq!(parse_json("1 2"), None);
}

#[test]
fn find_gives_the_first_member_of_a_name() {
    let members = object(vec![("a", number("1")), ("b", JsonValue::Null), ("a", number("2"))]);
    assert_eq!(find(&members, "a"), Some(&number("1")));
    assert_eq!(find(&members, "b"), Some(&JsonValue::Null));
    assert_eq!(find(&members, "c"), None);
    assert_eq!(find_present(&members, "b"), None);
    assert_eq!(find_present(&members, "a"), Some(&number("1")));
    assert_eq!(find_present(&members, "c"), None);
}

#[test]
fn as_members_takes_objects_only() {
    let doc = JsonValue::Object(object(vec![("a", number("1"))]));
    assert_eq!(as_members(&doc).map(|m| m.len()), Ok(1));
    assert_eq!(as_members(&JsonValue::Null).err(), Some(DecodeError::UnexpectedType));
    assert_eq!(as_members(&JsonValue::Array(vec![])).err(), Some(DecodeError::UnexpectedType));
}

#[test]
fn required_text_tells_absent_from_wrong() {
    let members = object(vec![("a", text("x")), ("n", JsonValue::Null), ("i", number("1"))]);
    assert_eq!(get_required_text(&members, "a"), Ok("x".to_string()));
    assert_eq!(get_required_text(&members, "zz"), Err(DecodeError::MissingField));
    assert_eq!(get_required_text(&members, "n"), Err(DecodeError::UnexpectedType));
    assert_eq!(get_required_text(&members, "i"), Err(DecodeError::UnexpectedType));
}

#[test]
fn optional_text_takes_absent_and_null_as_nothing() {
    let members = object(vec![("a", text("x")), ("n", JsonValue::Null), ("i", number("1"))]);
    assert_eq!(get_optional_text(&members, "a"), Ok(Some("x".to_string())));
    assert_eq!(get_optional_text(&members, "zz"), Ok(None));
    assert_eq!(get_optional_text(&members, "n"), Ok(None));
    assert_eq!(get_optional_text(&members, "i"), Err(DecodeError::UnexpectedType));
}

#[test]
fn defaulted_text_is_empty_only_where_absent() {
    let members = object(vec![("a", text("x")), ("n", JsonValue::Null)]);
    assert_eq!(get_defaulted_text(&members, "a"), Ok("x".to_string()));
    assert_eq!(get_defaulted_text(&members, "zz"), Ok(String::new()));
    assert_eq!(get_defaulted_text(&members, "n"), Err(DecodeError::UnexpectedType));
}

#[test]
fn integers_are_numbers_of_digits_only() {
    assert_eq!(number_to_integer("0"), Ok(0));
    assert_eq!(number_to_integer("18446744073709551615"), Ok(u64::MAX));
    assert_eq!(number_to_integer("-1"), Err(DecodeError::InvalidInteger));
    assert_eq!(number_to_integer("1.0"), Err(DecodeError::InvalidInteger));
    assert_eq!(number_to_integer("1e3"), Err(DecodeError::InvalidInteger));
    assert_eq!(number_to_integer("+1"), Err(DecodeError::InvalidInteger));
    assert_eq!(number_to_integer(""), Err(DecodeError::InvalidInteger));
    assert_eq!(text_to_integer("+1"), Ok(1));
    assert_eq!(text_to_integer("x"), Err(DecodeError::InvalidInteger));
}

#[test]
fn integer_getters_check_type_and_range() {
    let members = object(vec![
        ("i", number("7")),
        ("f", number("7.5")),
        ("t", text("8")),
        ("bad", text("eight")),
        ("n", JsonValue::Null),
        ("b", JsonValue::Bool(false)),
    ]);
    assert_eq!(get_required_integer(&members, "i"), Ok(7));
    assert_eq!(get_required_integer(&members, "f"), Err(DecodeError::InvalidInteger));
    assert_eq!(get_required_integer(&members, "t"), Err(DecodeError::UnexpectedType));
    assert_eq!(get_required_integer(&members, "zz"), Err(DecodeError::MissingField));
    assert_eq!(get_optional_integer(&members, "i"), Ok(Some(7)));
    assert_eq!(get_optional_integer(&members, "n"), Ok(None));
    assert_eq!(get_optional_integer(&members, "zz"), Ok(None));
    assert_eq!(get_optional_integer(&members, "t"), Err(DecodeError::UnexpectedType));
    assert_eq!(get_required_text_integer(&members, "t"), Ok(8));
    assert_eq!(get_required_text_integer(&members, "bad"), Err(DecodeError::InvalidInteger));
    assert_eq!(get_required_text_integer(&members, "i"), Err(DecodeError::UnexpectedType));
    assert_eq!(get_required_text_integer(&members, "zz"), Err(DecodeError::MissingField));
    assert_eq!(get_required_number(&members, "f"), Ok("7.5".to_string()));
    assert_eq!(get_required_number(&members, "t"), Err(DecodeError::UnexpectedType));
    assert_eq!(get_required_number(&members, "zz"), Err(DecodeError::MissingField));
    assert_eq!(get_required_bool(&members, "b"), Ok(false));
    assert_eq!(get_required_bool(&members, "i"), Err(DecodeError::UnexpectedType));
    assert_eq!(get_required_bool(&members, "zz"), Err(DecodeError::MissingField));
}

#[test]
fn nested_getters_check_the_kind_of_value() {
    let members = object(vec![
        ("o", JsonValue::Object(object(vec![("x", number("1"))]))),
        ("a", JsonValue::Array(vec![number("1"), number("2")])),
    ]);
    assert_eq!(get_required_members(&members, "o").map(|m| m.len()), Ok(1));
    assert_eq!(get_required_members(&members, "a").err(), Some(DecodeError::UnexpectedType));
    assert_eq!(get_required_members(&members, "zz").err(), Some(DecodeError::MissingField));
    assert_eq!(get_required_items(&members, "a").map(|m| m.len()), Ok(2));
    assert_eq!(get_required_items(&members, "o").err(), Some(DecodeError::UnexpectedType));
    assert_eq!(get_required_items(&members, "zz").err(), Some(DecodeError::MissingField));
}

#[test]
fn decode_items_keeps_order_and_reports_the_first_error() {
    let items = vec![text("a"), text("b"), text("c")];
    assert_eq!(
        decode_items::<String>(&items),
        Ok(vec!["a".to_string(), "b".to_string(), "c".to_string()])
    );
    let mixed = vec![text("a"), number("1"), JsonValue::Null];
    assert_eq!(decode_items::<String>(&mixed), Err(DecodeError::UnexpectedType));
    assert_eq!(decode_items::<String>(&vec![]), Ok(vec![]));
}

#[test]
fn decode_map_keeps_names_and_order() {
    let members = object(vec![("10", number("0.1")), ("100", number("0.5"))]);
    let decoded = decode_map::<Decimal>(&members).unwrap();
    assert_eq!(decoded.len(), 2);
    assert_eq!(decoded[0], ("10".to_string(), Decimal { text: "0.1".to_string() }));
    assert_eq!(decoded[1], ("100".to_string(), Decimal { text: "0.5".to_string() }));
    assert_eq!(entry(&decoded, "100"), Some(&Decimal { text: "0.5".to_string() }));
    assert_eq!(entry(&decoded, "1000"), None);
    let bad = object(vec![("10", text("0.1"))]);
    assert_eq!(decode_map::<Decimal>(&bad), Err(DecodeError::UnexpectedType));
}

#[test]
fn decode_map_lets_the_last_member_of_a_name_win() {
    let members = object(vec![("a", number("1")), ("b", number("2")), ("a", number("3"))]);
    let decoded = decode_map::<Decimal>(&members).unwrap();
    assert_eq!(
        decoded,
        vec![
            ("a".to_string(), Decimal { text: "3".to_string() }),
            ("b".to_string(), Decimal { text: "2".to_string() }),
        ]
    );
    let later_bad = object(vec![("a", number("1")), ("a", text("x"))]);
    assert_eq!(decode_map::<Decimal>(&later_bad), Err(DecodeError::UnexpectedType));
}

#[test]
fn decode_optional_reads_what_is_there() {
    assert_eq!(decode_optional::<String>(None), Ok(None));
    assert_eq!(decode_optional::<String>(Some(&text("x"))), Ok(Some("x".to_string())));
    assert_eq!(decode_optional::<String>(Some(&number("1"))), Err(DecodeError::UnexpectedType));
    assert_eq!(decode_optional_items::<String>(None), Ok(None));
    assert_eq!(
        decode_optional_items::<String>(Some(&JsonValue::Array(vec![text("x")]))),
        Ok(Some(vec!["x".to_string()]))
    );
    assert_eq!(
        decode_optional_items::<String>(Some(&text("x"))),
        Err(DecodeError::UnexpectedType)
    );
}

#[test]
fn decimal_is_read_from_numbers_only() {
    assert_eq!(Decimal::from_json(&number("1.25")), Ok(Decimal { text: "1.25".to_string() }));
    assert_eq!(Decimal::from_json(&text("1.25")), Err(DecodeError::UnexpectedType));
}

#[test]
fn parse_json_prints_numbers_as_serde_json_does() {
    assert_eq!(parse_json("1e-7"), Some(number("1e-7")));
    assert_eq!(parse_json("18446744073709551615"), Some(number("18446744073709551615")));
    assert_eq!(parse_json("-0"), Some(number("-0.0")));
    assert_eq!(parse_json("1.0"), Some(number("1.0")));
    let big = parse_json("18446744073709551616").unwrap();
    match big {
        JsonValue::Number(text) => {
            assert_eq!(text, "1.8446744073709552e+19");
            assert_eq!(number_to_integer(&text), Err(DecodeError::InvalidInteger));
        }
        _ => panic!("not a number"),
    }
}

#[test]
fn parse_json_hands_out_members_by_name_and_keeps_the_last_of_a_name() {
    let doc = parse_json("{\"b\": 1, \"a\": 2, \"b\": 3}").unwrap();
    assert_eq!(
        doc,
        JsonValue::Object(object(vec![("a", number("2")), ("b", number("3"))]))
    );
    let list = parse_json("[3, 1, 2, 1]").unwrap();
    assert_eq!(
        list,
        JsonValue::Array(vec![number("3"), number("1"), number("2"), number("1")])
    );
}

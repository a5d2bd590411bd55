use jupiter_swap_api_client::parse::parse_json;
use jupiter_swap_api_client::json::{DecodeError, JsonValue};
use jupiter_swap_api_client::price::{PriceRequest, PriceResponse};
use jupiter_swap_api_client::{
    check_status_code_and_deserialize, ClientError, JupiterSwapApiClient, Method, RawResponse,
};
use solana_sdk::pubkey::Pubkey;

fn pairs(request: &PriceRequest) -> Vec<(String, String)> {
    request.query_pairs()
}

#[test]
fn price_request_for_two_ids_has_no_vs_token() {
    let request = PriceRequest::from_ids(&vec!["MINT1".to_string(), "MINT2".to_string()]);
    assert_eq!(request.ids, "MINT1,MINT2");
    let query = pairs(&request);
    assert_eq!(query, vec![("ids".to_string(), "MINT1,MINT2".to_string())]);
    assert!(query.iter().all(|(k, _)| k != "vsToken"));
}

#[test]
fn price_response_keeps_price_as_text() {
    let body = "{\"data\":{\"MINT1\":{\"id\":\"MINT1\",\"type\":\"derivedPrice\",\"price\":\"1.23\"}},\"timeTaken\":0.01}";
    let response = RawResponse { status: 200, body: Some(body.to_string()) };
    let decoded: PriceResponse = check_status_code_and_deserialize(response).unwrap();
    let price = decoded.price_of("MINT1").unwrap();
    assert_eq!(price.price, "1.23");
    assert_eq!(price.id, "MINT1");
    assert_eq!(price.price_type, "derivedPrice");
    assert!(price.extra_info.is_none());
    assert_eq!(decoded.time_taken.text, "0.01");
    assert!(decoded.price_of("MINT2").is_none());
}

#[test]
fn status_500_is_request_failed() {
    let response = RawResponse { status: 500, body: Some("internal error".to_string()) };
    let result: Result<PriceResponse, ClientError> = check_status_code_and_deserialize(response);
    match result {
        Err(ClientError::RequestFailed { status, body }) => {
            assert_eq!(status, 500);
            assert_eq!(body, "internal error");
        }
        other => panic!("unexpected: {:?}", other),
    }
}

#[test]
fn new_single_writes_the_address_in_base58() {
    let key = Pubkey::new_from_array([0u8; 32]);
    let request = PriceRequest::new_single(&key);
    assert_eq!(request.ids, "11111111111111111111111111111111");
    assert!(request.vs_token.is_none());
    assert!(request.show_extra_info.is_none());
}

#[test]
fn parse_json_reads_numbers_as_their_text() {
    let doc = parse_json("{\"a\": 42, \"b\": [true, null, \"x\"], \"c\": -1.5}").unwrap();
    match doc {
        JsonValue::Object(members) => {
            assert_eq!(members.len(), 3);
            assert_eq!(members[0].0, "a");
            assert!(matches!(&members[0].1, JsonValue::Number(t) if t == "42"));
            assert!(matches!(&members[2].1, JsonValue::Number(t) if t == "-1.5"));
            match &members[1].1 {
                JsonValue::Array(items) => {
                    assert!(matches!(items[0], JsonValue::Bool(true)));
                    assert!(matches!(items[1], JsonValue::Null));
                    assert!(matches!(&items[2], JsonValue::Text(t) if t == "x"));
                }
                _ => panic!("not an array"),
            }
        }
        _ => panic!("not an object"),
    }
    assert!(parse_json("{\"a\": ").is_none());
    let _ = DecodeError::Malformed;
}

#[test]
fn get_prices_call_is_a_get_of_price_v2() {
    let client = JupiterSwapApiClient::new("https://example.test".to_string());
    let request = PriceRequest::from_ids(&vec!["A".to_string()]).with_extra_info(true);
    let call = client.get_prices_call(&request);
    assert!(call.method == Method::Get);
    assert_eq!(call.url, "https://example.test/price/v2");
    assert_eq!(
        call.query,
        vec![
            ("ids".to_string(), "A".to_string()),
            ("showExtraInfo".to_string(), "true".to_string())
        ]
    );
    assert!(call.body.is_none());
}

fn ok_response(body: &str) -> RawResponse {
    RawResponse { status: 200, body: Some(body.to_string()) }
}

fn decode_error_of(result: Result<PriceResponse, ClientError>) -> DecodeError {
    match result {
        Err(ClientError::DeserializationError(e)) => e,
        other => panic!("no decode error: {:?}", other),
    }
}

#[test]
fn price_request_builders_set_one_field_each() {
    let mint = Pubkey::new_from_array([1u8; 32]);
    let vs = Pubkey::new_from_array([2u8; 32]);
    let request = PriceRequest::new_single(&mint);
    assert_eq!(request.ids, mint.to_string());
    let request = request.with_vs_token(&vs);
    assert_eq!(request.ids, mint.to_string());
    assert_eq!(request.vs_token, Some(vs.to_string()));
    assert_eq!(request.show_extra_info, None);
    let request = request.with_extra_info(false);
    assert_eq!(request.vs_token, Some(vs.to_string()));
    assert_eq!(request.show_extra_info, Some(false));
    assert_eq!(
        request.query_pairs(),
        vec![
            ("ids".to_string(), mint.to_string()),
            ("vsToken".to_string(), vs.to_string()),
            ("showExtraInfo".to_string(), "false".to_string()),
        ]
    );
}

#[test]
fn price_request_new_multiple_joins_addresses_with_commas() {
    let a = Pubkey::new_from_array([1u8; 32]);
    let b = Pubkey::new_from_array([2u8; 32]);
    let c = Pubkey::new_from_array([3u8; 32]);
    let request = PriceRequest::new_multiple(&[a, b, c]);
    assert_eq!(request.ids, format!("{},{},{}", a, b, c));
    assert_eq!(request.vs_token, None);
    assert_eq!(request.show_extra_info, None);
    assert_eq!(PriceRequest::new_multiple(&[]).ids, "");
    assert_eq!(PriceRequest::new_multiple(&[b]).ids, b.to_string());
}

#[test]
fn price_request_omits_unset_fields_from_the_query() {
    let request = PriceRequest::from_ids(&vec!["A".to_string()]);
    let query = request.query_pairs();
    assert_eq!(query.len(), 1);
    assert!(query.iter().all(|(k, _)| k != "vsToken" && k != "showExtraInfo"));
    let with_flag = request.with_extra_info(true).query_pairs();
    assert!(with_flag.iter().all(|(k, _)| k != "vsToken"));
    assert!(with_flag.iter().any(|(k, v)| k == "showExtraInfo" && v == "true"));
}

#[test]
fn price_response_with_extra_info_is_read_in_full() {
    let body = "{\"data\":{\"So1\":{\"id\":\"So1\",\"type\":\"derivedPrice\",\"price\":\"133.89\",\
        \"extraInfo\":{\"lastSwappedPrice\":{\"lastJupiterSellAt\":1726232039,\
        \"lastJupiterSellPrice\":\"133.88\",\"lastJupiterBuyAt\":1726232097,\
        \"lastJupiterBuyPrice\":\"133.89\"},\"quotedPrice\":{\"buyPrice\":\"133.90\",\
        \"buyAt\":1726232100,\"sellPrice\":null},\"confidenceLevel\":\"high\",\
        \"depth\":{\"buyPriceImpactRatio\":{\"depth\":{\"10\":0.011,\"100\":0.05,\"1000\":0.3},\
        \"timestamp\":1726232167},\"sellPriceImpactRatio\":null}}}},\"timeTaken\":0.0023}";
    let decoded: PriceResponse = check_status_code_and_deserialize(ok_response(body)).unwrap();
    assert_eq!(decoded.data.len(), 1);
    assert_eq!(decoded.time_taken.text, "0.0023");
    let price = decoded.price_of("So1").unwrap();
    assert_eq!(price.price, "133.89");
    let extra = price.extra_info.as_ref().unwrap();
    let last = extra.last_swapped_price.as_ref().unwrap();
    assert_eq!(last.last_jupiter_sell_at, Some(1726232039));
    assert_eq!(last.last_jupiter_sell_price.as_deref(), Some("133.88"));
    assert_eq!(last.last_jupiter_buy_at, Some(1726232097));
    assert_eq!(last.last_jupiter_buy_price.as_deref(), Some("133.89"));
    let quoted = extra.quoted_price.as_ref().unwrap();
    assert_eq!(quoted.buy_price.as_deref(), Some("133.90"));
    assert_eq!(quoted.buy_at, Some(1726232100));
    assert_eq!(quoted.sell_price, None);
    assert_eq!(quoted.sell_at, None);
    assert_eq!(extra.confidence_level.as_deref(), Some("high"));
    let depth = extra.depth.as_ref().unwrap();
    let buy = depth.buy_price_impact_ratio.as_ref().unwrap();
    assert_eq!(buy.timestamp, 1726232167);
    assert_eq!(buy.depth.len(), 3);
    assert_eq!(buy.ratio_at("10").map(|d| d.text.as_str()), Some("0.011"));
    assert_eq!(buy.ratio_at("1000").map(|d| d.text.as_str()), Some("0.3"));
    assert_eq!(buy.ratio_at("5"), None);
    assert!(depth.sell_price_impact_ratio.is_none());
}

#[test]
fn price_response_ignores_members_that_it_does_not_know() {
    let body = "{\"data\":{},\"timeTaken\":1,\"more\":[1,2,3]}";
    let decoded: PriceResponse = check_status_code_and_deserialize(ok_response(body)).unwrap();
    assert!(decoded.data.is_empty());
    assert_eq!(decoded.time_taken.text, "1");
}

#[test]
fn price_response_without_a_required_member_is_a_decode_error() {
    let no_time = "{\"data\":{}}";
    assert_eq!(
        decode_error_of(check_status_code_and_deserialize(ok_response(no_time))),
        DecodeError::MissingField
    );
    let no_data = "{\"timeTaken\":0.1}";
    assert_eq!(
        decode_error_of(check_status_code_and_deserialize(ok_response(no_data))),
        DecodeError::MissingField
    );
    let no_price = "{\"data\":{\"M\":{\"id\":\"M\",\"type\":\"derivedPrice\"}},\"timeTaken\":0.1}";
    assert_eq!(
        decode_error_of(check_status_code_and_deserialize(ok_response(no_price))),
        DecodeError::MissingField
    );
}

#[test]
fn price_response_with_a_member_of_another_type_is_a_decode_error() {
    let number_price =
        "{\"data\":{\"M\":{\"id\":\"M\",\"type\":\"derivedPrice\",\"price\":1.23}},\"timeTaken\":0.1}";
    assert_eq!(
        decode_error_of(check_status_code_and_deserialize(ok_response(number_price))),
        DecodeError::UnexpectedType
    );
    let text_time = "{\"data\":{},\"timeTaken\":\"0.1\"}";
    assert_eq!(
        decode_error_of(check_status_code_and_deserialize(ok_response(text_time))),
        DecodeError::UnexpectedType
    );
    assert_eq!(
        decode_error_of(check_status_code_and_deserialize(ok_response("[]"))),
        DecodeError::UnexpectedType
    );
    let negative_time =
        "{\"data\":{\"M\":{\"id\":\"M\",\"type\":\"t\",\"price\":\"1\",\"extraInfo\":\
        {\"quotedPrice\":{\"buyAt\":-5}}}},\"timeTaken\":0.1}";
    assert_eq!(
        decode_error_of(check_status_code_and_deserialize(ok_response(negative_time))),
        DecodeError::InvalidInteger
    );
}

#[test]
fn body_that_is_no_json_is_malformed() {
    assert_eq!(
        decode_error_of(check_status_code_and_deserialize(ok_response("<html>"))),
        DecodeError::Malformed
    );
    assert_eq!(
        decode_error_of(check_status_code_and_deserialize(ok_response(""))),
        DecodeError::Malformed
    );
}

#[test]
fn body_that_could_not_be_read_is_unreadable_on_success() {
    let response = RawResponse { status: 204, body: None };
    assert_eq!(
        decode_error_of(check_status_code_and_deserialize(response)),
        DecodeError::Unreadable
    );
}

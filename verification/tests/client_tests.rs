use jupiter_swap_api_client::decode::ToJson;
use jupiter_swap_api_client::json::{DecodeError, JsonValue};
use jupiter_swap_api_client::price::{PriceRequest, PriceResponse};
use jupiter_swap_api_client::quote::{QuoteRequest, QuoteResponse};
use jupiter_swap_api_client::swap::{SwapRequest, SwapResponse};
use jupiter_swap_api_client::{
    check_is_success, check_status_code_and_deserialize, classify_document, status_is_success,
    ClientError, JupiterSwapApiClient, Method, RawResponse,
};
use solana_sdk::pubkey::Pubkey;

fn price_body() -> String {
    "{\"data\":{\"M\":{\"id\":\"M\",\"type\":\"derivedPrice\",\"price\":\"2\"}},\"timeTaken\":1}"
        .to_string()
}

fn quote() -> QuoteResponse {
    QuoteResponse {
        input_mint: "A".to_string(),
        in_amount: 5,
        output_mint: "B".to_string(),
        out_amount: 4,
        other_amount_threshold: None,
        price_impact_pct: "0.1".to_string(),
        route_plan: vec![],
    }
}

#[test]
fn new_keeps_the_base_path() {
    let client = JupiterSwapApiClient::new("https://quote.example/v6".to_string());
    assert_eq!(client.base_path, "https://quote.example/v6");
    assert_eq!(client.endpoint("/quote"), "https://quote.example/v6/quote");
    assert_eq!(client.endpoint(""), "https://quote.example/v6");
}

#[test]
fn success_is_200_to_299() {
    assert!(!status_is_success(199));
    assert!(status_is_success(200));
    assert!(status_is_success(204));
    assert!(status_is_success(299));
    assert!(!status_is_success(300));
    assert!(!status_is_success(404));
    assert!(!status_is_success(0));
    assert!(!status_is_success(u16::MAX));
}

#[test]
fn check_is_success_lets_success_through_unchanged() {
    let response = RawResponse { status: 201, body: Some("x".to_string()) };
    assert_eq!(check_is_success(response.clone()), Ok(response));
    let empty = RawResponse { status: 200, body: None };
    assert_eq!(check_is_success(empty.clone()), Ok(empty));
}

#[test]
fn check_is_success_keeps_status_and_body_of_a_failure() {
    let response = RawResponse { status: 429, body: Some("slow down".to_string()) };
    assert_eq!(
        check_is_success(response),
        Err(ClientError::RequestFailed { status: 429, body: "slow down".to_string() })
    );
}

#[test]
fn failure_without_a_readable_body_has_an_empty_body() {
    let response = RawResponse { status: 502, body: None };
    assert_eq!(
        check_is_success(response),
        Err(ClientError::RequestFailed { status: 502, body: String::new() })
    );
    let response = RawResponse { status: 502, body: None };
    let result: Result<PriceResponse, ClientError> = check_status_code_and_deserialize(response);
    assert_eq!(result, Err(ClientError::RequestFailed { status: 502, body: String::new() }));
}

#[test]
fn failure_status_wins_over_a_body_that_would_decode() {
    for status in [100u16, 199, 300, 301, 400, 404, 500, 503] {
        let response = RawResponse { status, body: Some(price_body()) };
        let result: Result<PriceResponse, ClientError> =
            check_status_code_and_deserialize(response);
        assert_eq!(result, Err(ClientError::RequestFailed { status, body: price_body() }));
    }
    let response = RawResponse { status: 200, body: Some(price_body()) };
    let result: Result<PriceResponse, ClientError> = check_status_code_and_deserialize(response);
    assert!(result.is_ok());
}

#[test]
fn classify_document_goes_by_the_document_that_it_is_given() {
    let response = RawResponse { status: 200, body: Some("ignored".to_string()) };
    let doc = JsonValue::Object(vec![
        ("swapTransaction".to_string(), JsonValue::Text("tx".to_string())),
        ("lastValidBlockHeight".to_string(), JsonValue::Number("9".to_string())),
    ]);
    assert_eq!(
        classify_document::<SwapResponse>(response.clone(), Some(doc)),
        Ok(SwapResponse { swap_transaction: "tx".to_string(), last_valid_block_height: 9 })
    );
    assert_eq!(
        classify_document::<SwapResponse>(response.clone(), None),
        Err(ClientError::DeserializationError(DecodeError::Malformed))
    );
    assert_eq!(
        classify_document::<SwapResponse>(response, Some(JsonValue::Null)),
        Err(ClientError::DeserializationError(DecodeError::UnexpectedType))
    );
    let unread = RawResponse { status: 200, body: None };
    assert_eq!(
        classify_document::<SwapResponse>(unread, Some(JsonValue::Null)),
        Err(ClientError::DeserializationError(DecodeError::Unreadable))
    );
}

#[test]
fn quote_call_is_a_get_of_quote() {
    let client = JupiterSwapApiClient::new("http://h".to_string());
    let a = Pubkey::new_from_array([1u8; 32]);
    let b = Pubkey::new_from_array([2u8; 32]);
    let request = QuoteRequest::new(a, b, 9)
        .with_quote_args(vec![("amount".to_string(), "10".to_string())]);
    let call = client.quote_call(&request);
    assert_eq!(call.method, Method::Get);
    assert_eq!(call.url, "http://h/quote");
    assert_eq!(
        call.query,
        vec![
            ("inputMint".to_string(), a.to_string()),
            ("outputMint".to_string(), b.to_string()),
            ("amount".to_string(), "10".to_string()),
        ]
    );
    assert_eq!(call.body, None);
}

#[test]
fn swap_call_is_a_post_of_swap_with_the_request_as_body() {
    let client = JupiterSwapApiClient::new("http://h".to_string());
    let user = Pubkey::new_from_array([4u8; 32]);
    let request = SwapRequest::new(user, quote());
    let call = client.swap_call(&request, Some(vec![("k".to_string(), "v".to_string())]));
    assert_eq!(call.method, Method::Post);
    assert_eq!(call.url, "http://h/swap");
    assert_eq!(call.query, vec![("k".to_string(), "v".to_string())]);
    assert_eq!(call.body, Some(request.to_json()));
    let call = client.swap_call(&request, None);
    assert!(call.query.is_empty());
}

#[test]
fn swap_instructions_call_is_a_post_without_query() {
    let client = JupiterSwapApiClient::new("http://h".to_string());
    let user = Pubkey::new_from_array([4u8; 32]);
    let request = SwapRequest::new(user, quote());
    let call = client.swap_instructions_call(&request);
    assert_eq!(call.method, Method::Post);
    assert_eq!(call.url, "http://h/swap-instructions");
    assert!(call.query.is_empty());
    assert_eq!(call.body, Some(request.to_json()));
}

#[test]
fn price_helpers_build_the_request_that_they_name() {
    let client = JupiterSwapApiClient::new("http://h".to_string());
    let a = Pubkey::new_from_array([1u8; 32]);
    let b = Pubkey::new_from_array([2u8; 32]);
    let single = client.get_token_price_call(&a);
    assert_eq!(single.url, "http://h/price/v2");
    assert_eq!(single.query, PriceRequest::new_single(&a).query_pairs());
    assert_eq!(single.query, vec![("ids".to_string(), a.to_string())]);
    let several = client.get_token_prices_call(&[a, b]);
    assert_eq!(several.query, vec![("ids".to_string(), format!("{},{}", a, b))]);
    let pair = client.get_token_pair_price_call(&a, &b);
    assert_eq!(
        pair.query,
        vec![("ids".to_string(), a.to_string()), ("vsToken".to_string(), b.to_string())]
    );
    let detailed = client.get_detailed_price_call(&a);
    assert_eq!(
        detailed.query,
        vec![("ids".to_string(), a.to_string()), ("showExtraInfo".to_string(), "true".to_string())]
    );
    assert_eq!(detailed.method, Method::Get);
    assert_eq!(detailed.body, None);
}

#[test]
fn messages_name_the_status_and_the_failure() {
    let failed = ClientError::RequestFailed { status: 500, body: "internal error".to_string() };
    assert_eq!(failed.message(), "Request failed with status 500: internal error");
    let empty = ClientError::RequestFailed { status: 404, body: String::new() };
    assert_eq!(empty.message(), "Request failed with status 404: ");
    let decode = ClientError::DeserializationError(DecodeError::MissingField);
    assert_eq!(decode.message(), "Failed to deserialize response: a required member is missing");
    assert_eq!(DecodeError::Unreadable.describe(), "the body could not be read");
    assert_eq!(DecodeError::Malformed.describe(), "the body is not a JSON document");
    assert_eq!(DecodeError::UnexpectedType.describe(), "a value has another type than expected");
    assert_eq!(
        DecodeError::InvalidInteger.describe(),
        "a number is not an unsigned 64-bit integer"
    );
}

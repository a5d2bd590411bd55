use jupiter_swap_api_client::decode::{FromJson, ToJson};
use jupiter_swap_api_client::parse::parse_json;
use jupiter_swap_api_client::json::{find, DecodeError, JsonValue};
use jupiter_swap_api_client::quote::{QuoteRequest, QuoteResponse};
use jupiter_swap_api_client::route_plan_with_metadata::{
    is_known_step_key, read_extras, RoutePlanStep,
};
use jupiter_swap_api_client::{check_status_code_and_deserialize, ClientError, RawResponse};
use solana_sdk::pubkey::Pubkey;

fn pair(k: &str, v: &str) -> (String, String) {
    (k.to_string(), v.to_string())
}

fn quote_body() -> String {
    "{\"inputMint\":\"A\",\"inAmount\":\"1000\",\"outputMint\":\"C\",\"outAmount\":\"990\",\
     \"otherAmountThreshold\":\"985\",\"priceImpactPct\":\"0.0012\",\"routePlan\":[\
     {\"label\":\"Zeta\",\"inputMint\":\"A\",\"outputMint\":\"B\",\"inAmount\":\"1000\",\
      \"outAmount\":\"500\",\"feeMint\":\"A\",\"feeAmount\":\"9\",\"ammKey\":\"K1\"},\
     {\"label\":\"Alpha\",\"inputMint\":\"B\",\"outputMint\":\"C\",\"inAmount\":\"500\",\
      \"outAmount\":\"990\",\"feeMint\":\"B\",\"feeAmount\":\"1\",\"percent\":\"100\",\
      \"ammKey\":\"K2\"}],\"contextSlot\":12345}"
        .to_string()
}

fn step(label: &str, from: &str, to: &str, extra: Vec<(String, String)>) -> RoutePlanStep {
    RoutePlanStep {
        label: label.to_string(),
        input_mint: from.to_string(),
        output_mint: to.to_string(),
        in_amount: 10,
        out_amount: 20,
        fee_mint: from.to_string(),
        fee_amount: 1,
        extra,
    }
}

#[test]
fn quote_request_writes_its_fields_in_order() {
    let a = Pubkey::new_from_array([1u8; 32]);
    let b = Pubkey::new_from_array([2u8; 32]);
    let request = QuoteRequest::new(a, b, 1_000_000);
    assert_eq!(
        request.query_pairs(),
        vec![
            pair("inputMint", &a.to_string()),
            pair("outputMint", &b.to_string()),
            pair("amount", "1000000"),
        ]
    );
    let request = request.with_slippage_bps(50);
    assert_eq!(request.slippage_bps, Some(50));
    assert_eq!(request.field_pairs()[3], pair("slippageBps", "50"));
    assert_eq!(request.query_pairs().len(), 4);
}

#[test]
fn quote_request_omits_an_unset_slippage() {
    let a = Pubkey::new_from_array([1u8; 32]);
    let request = QuoteRequest::new(a, a, 1);
    assert!(request.query_pairs().iter().all(|(k, _)| k != "slippageBps"));
    assert!(request.field_pairs().iter().all(|(k, _)| k != "slippageBps"));
}

#[test]
fn quote_request_lets_further_parameters_win() {
    let a = Pubkey::new_from_array([1u8; 32]);
    let b = Pubkey::new_from_array([2u8; 32]);
    let request = QuoteRequest::new(a, b, 5)
        .with_slippage_bps(50)
        .with_quote_args(vec![pair("slippageBps", "75"), pair("onlyDirectRoutes", "true")]);
    assert_eq!(
        request.query_pairs(),
        vec![
            pair("inputMint", &a.to_string()),
            pair("outputMint", &b.to_string()),
            pair("amount", "5"),
            pair("slippageBps", "75"),
            pair("onlyDirectRoutes", "true"),
        ]
    );
    assert_eq!(request.field_pairs()[3], pair("slippageBps", "50"));
}

#[test]
fn quote_response_keeps_the_order_of_its_hops() {
    let doc = parse_json(&quote_body()).unwrap();
    let quote = QuoteResponse::from_json(&doc).unwrap();
    assert_eq!(quote.input_mint, "A");
    assert_eq!(quote.in_amount, 1000);
    assert_eq!(quote.output_mint, "C");
    assert_eq!(quote.out_amount, 990);
    assert_eq!(quote.other_amount_threshold, Some(985));
    assert_eq!(quote.price_impact_pct, "0.0012");
    assert_eq!(quote.route_plan.len(), 2);
    assert_eq!(quote.route_plan[0].label, "Zeta");
    assert_eq!(quote.route_plan[0].input_mint, "A");
    assert_eq!(quote.route_plan[0].output_mint, "B");
    assert_eq!(quote.route_plan[0].fee_amount, 9);
    assert_eq!(quote.route_plan[1].label, "Alpha");
    assert_eq!(quote.route_plan[1].input_mint, "B");
    assert_eq!(quote.route_plan[1].output_mint, "C");
    assert_eq!(quote.route_plan[1].fee_amount, 1);
}

#[test]
fn route_step_keeps_members_that_it_does_not_know() {
    let doc = parse_json(&quote_body()).unwrap();
    let quote = QuoteResponse::from_json(&doc).unwrap();
    assert_eq!(quote.route_plan[0].extra, vec![pair("ammKey", "K1")]);
    assert_eq!(quote.route_plan[1].extra, vec![pair("ammKey", "K2"), pair("percent", "100")]);
}

#[test]
fn quote_that_is_written_and_read_again_is_the_same() {
    let doc = parse_json(&quote_body()).unwrap();
    let quote = QuoteResponse::from_json(&doc).unwrap();
    let written = quote.to_json();
    assert_eq!(QuoteResponse::from_json(&written), Ok(quote.clone()));
    let built = QuoteResponse {
        input_mint: "X".to_string(),
        in_amount: u64::MAX,
        output_mint: "Y".to_string(),
        out_amount: 0,
        other_amount_threshold: None,
        price_impact_pct: "0".to_string(),
        route_plan: vec![
            step("b", "X", "M", vec![pair("z", "1"), pair("a", "2"), pair("m", "3")]),
            step("a", "M", "Y", vec![]),
        ],
    };
    assert_eq!(QuoteResponse::from_json(&built.to_json()), Ok(built));
}

#[test]
fn quote_writes_amounts_as_text_and_leaves_out_an_unset_threshold() {
    let quote = QuoteResponse {
        input_mint: "X".to_string(),
        in_amount: 1500,
        output_mint: "Y".to_string(),
        out_amount: 7,
        other_amount_threshold: None,
        price_impact_pct: "0.5".to_string(),
        route_plan: vec![],
    };
    let expected = JsonValue::Object(vec![
        ("inputMint".to_string(), JsonValue::Text("X".to_string())),
        ("inAmount".to_string(), JsonValue::Text("1500".to_string())),
        ("outputMint".to_string(), JsonValue::Text("Y".to_string())),
        ("outAmount".to_string(), JsonValue::Text("7".to_string())),
        ("priceImpactPct".to_string(), JsonValue::Text("0.5".to_string())),
        ("routePlan".to_string(), JsonValue::Array(vec![])),
    ]);
    assert_eq!(quote.to_json(), expected);
    let mut with = quote.clone();
    with.other_amount_threshold = Some(6);
    match with.to_json() {
        JsonValue::Object(members) => {
            assert_eq!(members.len(), 7);
            assert_eq!(
                find(&members, "otherAmountThreshold"),
                Some(&JsonValue::Text("6".to_string()))
            );
            assert_eq!(members[4].0, "otherAmountThreshold");
        }
        _ => panic!("not an object"),
    }
}

#[test]
fn route_step_writes_known_members_first_and_the_rest_after() {
    let written = step("Orca", "A", "B", vec![pair("ammKey", "K"), pair("note", "n")]).to_json();
    let expected = JsonValue::Object(vec![
        ("label".to_string(), JsonValue::Text("Orca".to_string())),
        ("inputMint".to_string(), JsonValue::Text("A".to_string())),
        ("outputMint".to_string(), JsonValue::Text("B".to_string())),
        ("inAmount".to_string(), JsonValue::Text("10".to_string())),
        ("outAmount".to_string(), JsonValue::Text("20".to_string())),
        ("feeMint".to_string(), JsonValue::Text("A".to_string())),
        ("feeAmount".to_string(), JsonValue::Text("1".to_string())),
        ("ammKey".to_string(), JsonValue::Text("K".to_string())),
        ("note".to_string(), JsonValue::Text("n".to_string())),
    ]);
    assert_eq!(written, expected);
}

#[test]
fn quote_without_a_required_member_is_a_decode_error() {
    for key in ["inputMint", "inAmount", "outputMint", "outAmount", "priceImpactPct", "routePlan"] {
        let doc = parse_json(&quote_body()).unwrap();
        let members = match doc {
            JsonValue::Object(members) => members,
            _ => panic!("not an object"),
        };
        let fewer: Vec<(String, JsonValue)> =
            members.into_iter().filter(|(k, _)| k != key).collect();
        assert_eq!(
            QuoteResponse::from_json(&JsonValue::Object(fewer)),
            Err(DecodeError::MissingField),
            "without {}",
            key
        );
    }
    let response = RawResponse { status: 200, body: Some("{\"inputMint\":\"A\"}".to_string()) };
    let result: Result<QuoteResponse, ClientError> = check_status_code_and_deserialize(response);
    assert_eq!(result, Err(ClientError::DeserializationError(DecodeError::MissingField)));
}

#[test]
fn quote_with_an_amount_that_is_no_number_is_a_decode_error() {
    let body = quote_body().replace("\"inAmount\":\"1000\",\"outputMint\"", "\"inAmount\":\"1e3\",\"outputMint\"");
    assert_eq!(
        QuoteResponse::from_json(&parse_json(&body).unwrap()),
        Err(DecodeError::InvalidInteger)
    );
    let body = quote_body().replace("\"otherAmountThreshold\":\"985\"", "\"otherAmountThreshold\":985");
    assert_eq!(
        QuoteResponse::from_json(&parse_json(&body).unwrap()),
        Err(DecodeError::UnexpectedType)
    );
    let body = quote_body().replace("\"otherAmountThreshold\":\"985\"", "\"otherAmountThreshold\":null");
    assert_eq!(
        QuoteResponse::from_json(&parse_json(&body).unwrap()).map(|q| q.other_amount_threshold),
        Ok(None)
    );
}

#[test]
fn route_step_rejects_an_unknown_member_that_is_no_text() {
    let body = quote_body().replace("\"ammKey\":\"K1\"", "\"ammKey\":17");
    assert_eq!(
        QuoteResponse::from_json(&parse_json(&body).unwrap()),
        Err(DecodeError::UnexpectedType)
    );
    let hop = "{\"label\":\"L\",\"inputMint\":\"A\",\"outputMint\":\"B\",\"inAmount\":\"1\",\
        \"outAmount\":\"2\",\"feeMint\":\"A\"}";
    assert_eq!(
        RoutePlanStep::from_json(&parse_json(hop).unwrap()),
        Err(DecodeError::MissingField)
    );
}

#[test]
fn known_step_keys_are_the_seven_names() {
    for key in
        ["label", "inputMint", "outputMint", "inAmount", "outAmount", "feeMint", "feeAmount"]
    {
        assert!(is_known_step_key(key));
    }
    assert!(!is_known_step_key("ammKey"));
    assert!(!is_known_step_key("Label"));
    assert!(!is_known_step_key(""));
    let members = vec![
        ("label".to_string(), JsonValue::Null),
        ("x".to_string(), JsonValue::Text("1".to_string())),
    ];
    assert_eq!(read_extras(&members), Ok(vec![pair("x", "1")]));
    let twice = vec![
        ("x".to_string(), JsonValue::Text("1".to_string())),
        ("y".to_string(), JsonValue::Text("2".to_string())),
        ("x".to_string(), JsonValue::Text("3".to_string())),
    ];
    assert_eq!(read_extras(&twice), Ok(vec![pair("x", "3"), pair("y", "2")]));
}

#[test]
fn cloned_request_writes_the_same_query() {
    let a = Pubkey::new_from_array([11u8; 32]);
    let b = Pubkey::new_from_array([12u8; 32]);
    let request = QuoteRequest::new(a, b, 77).with_slippage_bps(30);
    let copy = request.clone();
    assert_eq!(copy.input_mint, a);
    assert_eq!(copy.output_mint, b);
    assert_ne!(copy.input_mint, copy.output_mint);
    assert_eq!(copy.query_pairs(), request.query_pairs());
}

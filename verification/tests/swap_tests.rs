use jupiter_swap_api_client::decode::{FromJson, ToJson};
use jupiter_swap_api_client::parse::parse_json;
use jupiter_swap_api_client::json::{find, DecodeError, JsonValue};
use jupiter_swap_api_client::quote::QuoteResponse;
use jupiter_swap_api_client::swap::{
    AccountAccess, AccountMeta, Instruction, SwapInstructionsResponse,
    SwapInstructionsResponseInternal, SwapRequest, SwapResponse,
};
use jupiter_swap_api_client::transaction_config::TransactionConfig;
use jupiter_swap_api_client::{classify_swap_instructions, ClientError, RawResponse};
use solana_sdk::pubkey::Pubkey;

fn small_quote() -> QuoteResponse {
    QuoteResponse {
        input_mint: "A".to_string(),
        in_amount: 5,
        output_mint: "B".to_string(),
        out_amount: 4,
        other_amount_threshold: Some(3),
        price_impact_pct: "0.1".to_string(),
        route_plan: vec![],
    }
}

fn members_of(doc: JsonValue) -> Vec<(String, JsonValue)> {
    match doc {
        JsonValue::Object(members) => members,
        _ => panic!("not an object"),
    }
}

fn instructions_body() -> String {
    "{\"setupInstructions\":[{\"programId\":\"Prog1\",\"accounts\":[\
     {\"pubkey\":\"K1\",\"isSigner\":true,\"isWritable\":false},\
     {\"pubkey\":\"K2\",\"isSigner\":false,\"isWritable\":true}],\"data\":\"AQID\"}],\
     \"swapInstruction\":{\"programId\":\"Prog2\",\"accounts\":[],\"data\":\"\"},\
     \"cleanupInstruction\":null,\"addressLookupTableAddresses\":[\"T1\",\"T2\"]}"
        .to_string()
}

#[test]
fn swap_request_without_refinements_writes_two_members() {
    let user = Pubkey::new_from_array([5u8; 32]);
    let request = SwapRequest::new(user, small_quote());
    let members = members_of(request.to_json());
    assert_eq!(members.len(), 2);
    assert_eq!(members[0], ("userPublicKey".to_string(), JsonValue::Text(user.to_string())));
    assert_eq!(members[1].0, "quoteResponse");
    assert_eq!(members[1].1, small_quote().to_json());
    for key in ["wrapAndUnwrapSol", "feeAccount", "prioritizationFeeLamports"] {
        assert_eq!(find(&members, key), None);
    }
}

#[test]
fn swap_request_writes_the_refinements_that_are_set() {
    let user = Pubkey::new_from_array([5u8; 32]);
    let fee = Pubkey::new_from_array([6u8; 32]);
    let config = TransactionConfig::default()
        .with_wrap_and_unwrap_sol(true)
        .with_fee_account(fee)
        .with_prioritization_fee_lamports(10_000);
    let request = SwapRequest::new(user, small_quote()).with_config(config);
    let members = members_of(request.to_json());
    assert_eq!(members.len(), 5);
    assert_eq!(find(&members, "wrapAndUnwrapSol"), Some(&JsonValue::Bool(true)));
    assert_eq!(find(&members, "feeAccount"), Some(&JsonValue::Text(fee.to_string())));
    assert_eq!(
        find(&members, "prioritizationFeeLamports"),
        Some(&JsonValue::Text("10000".to_string()))
    );
}

#[test]
fn transaction_config_writes_only_what_is_set() {
    let mut members: Vec<(String, JsonValue)> = vec![("x".to_string(), JsonValue::Null)];
    TransactionConfig::default().write_members(&mut members);
    assert_eq!(members.len(), 1);
    TransactionConfig::default().with_prioritization_fee_lamports(0).write_members(&mut members);
    assert_eq!(
        members,
        vec![
            ("x".to_string(), JsonValue::Null),
            ("prioritizationFeeLamports".to_string(), JsonValue::Text("0".to_string())),
        ]
    );
    let config = TransactionConfig::default();
    assert_eq!(config.wrap_and_unwrap_sol, None);
    assert!(config.fee_account.is_none());
    assert_eq!(config.prioritization_fee_lamports, None);
}

#[test]
fn swap_response_is_read_from_its_two_members() {
    let body = "{\"swapTransaction\":\"AQAB\",\"lastValidBlockHeight\":277654321}";
    assert_eq!(
        SwapResponse::from_json(&parse_json(body).unwrap()),
        Ok(SwapResponse {
            swap_transaction: "AQAB".to_string(),
            last_valid_block_height: 277654321,
        })
    );
    assert_eq!(
        SwapResponse::from_json(&parse_json("{\"swapTransaction\":\"AQAB\"}").unwrap()),
        Err(DecodeError::MissingField)
    );
    let text_height = "{\"swapTransaction\":\"AQAB\",\"lastValidBlockHeight\":\"1\"}";
    assert_eq!(
        SwapResponse::from_json(&parse_json(text_height).unwrap()),
        Err(DecodeError::UnexpectedType)
    );
    let fraction = "{\"swapTransaction\":\"AQAB\",\"lastValidBlockHeight\":1.5}";
    assert_eq!(
        SwapResponse::from_json(&parse_json(fraction).unwrap()),
        Err(DecodeError::InvalidInteger)
    );
}

#[test]
fn swap_instructions_are_put_into_the_public_shape() {
    let response = RawResponse { status: 200, body: Some(instructions_body()) };
    let decoded = classify_swap_instructions(response).unwrap();
    let expected = SwapInstructionsResponse {
        setup_instructions: vec![Instruction {
            program_id: "Prog1".to_string(),
            accounts: vec![
                AccountMeta {
                    pubkey: "K1".to_string(),
                    access: AccountAccess { is_signer: true, is_writable: false },
                },
                AccountMeta {
                    pubkey: "K2".to_string(),
                    access: AccountAccess { is_signer: false, is_writable: true },
                },
            ],
            data: "AQID".to_string(),
        }],
        swap_instruction: Instruction {
            program_id: "Prog2".to_string(),
            accounts: vec![],
            data: String::new(),
        },
        cleanup_instruction: None,
        address_lookup_table_addresses: vec!["T1".to_string(), "T2".to_string()],
    };
    assert_eq!(decoded, expected);
}

#[test]
fn swap_instructions_keep_a_cleanup_instruction() {
    let body = instructions_body().replace(
        "\"cleanupInstruction\":null",
        "\"cleanupInstruction\":{\"programId\":\"Prog3\",\"accounts\":[],\"data\":\"x\"}",
    );
    let internal =
        SwapInstructionsResponseInternal::from_json(&parse_json(&body).unwrap()).unwrap();
    let public = SwapInstructionsResponse::from_internal(internal);
    assert_eq!(public.cleanup_instruction.map(|i| i.program_id), Some("Prog3".to_string()));
}

#[test]
fn swap_instructions_need_the_swap_instruction() {
    let body = "{\"setupInstructions\":[],\"addressLookupTableAddresses\":[]}";
    assert_eq!(
        SwapInstructionsResponseInternal::from_json(&parse_json(body).unwrap()),
        Err(DecodeError::MissingField)
    );
    let response = RawResponse { status: 200, body: Some(body.to_string()) };
    assert_eq!(
        classify_swap_instructions(response),
        Err(ClientError::DeserializationError(DecodeError::MissingField))
    );
    let response = RawResponse { status: 400, body: Some(instructions_body()) };
    assert_eq!(
        classify_swap_instructions(response),
        Err(ClientError::RequestFailed { status: 400, body: instructions_body() })
    );
}

use jupiter_swap_api_client::decode::{Decimal, FromJson};
use jupiter_swap_api_client::parse::parse_json;
use jupiter_swap_api_client::json::{DecodeError};
use jupiter_swap_api_client::price_v1::{
    PriceV1Error, PriceV1Request, PriceV1Response, TokenV1Price,
};
use solana_sdk::pubkey::Pubkey;

#[test]
fn v1_new_single_takes_the_name_as_it_is() {
    let request = PriceV1Request::new_single("SOL");
    assert_eq!(request.ids, "SOL");
    assert_eq!(request.vs_token, None);
    assert_eq!(request.query_pairs(), vec![("ids".to_string(), "SOL".to_string())]);
}

#[test]
fn v1_new_single_pubkey_writes_base58() {
    let key = Pubkey::new_from_array([0u8; 32]);
    let request = PriceV1Request::new_single_pubkey(&key);
    assert_eq!(request.ids, "11111111111111111111111111111111");
    assert_eq!(request.vs_token, None);
    let other = Pubkey::new_from_array([255u8; 32]);
    assert_eq!(PriceV1Request::new_single_pubkey(&other).ids, other.to_string());
    assert_ne!(PriceV1Request::new_single_pubkey(&other).ids, request.ids);
}

#[test]
fn v1_new_multiple_joins_names_with_commas() {
    assert_eq!(PriceV1Request::new_multiple(&["SOL", "USDC", "JUP"]).ids, "SOL,USDC,JUP");
    assert_eq!(PriceV1Request::new_multiple(&["SOL"]).ids, "SOL");
    assert_eq!(PriceV1Request::new_multiple(&[]).ids, "");
    assert_eq!(PriceV1Request::new_multiple(&["SOL", "USDC"]).vs_token, None);
}

#[test]
fn v1_new_multiple_pubkeys_joins_addresses_with_commas() {
    let a = Pubkey::new_from_array([7u8; 32]);
    let b = Pubkey::new_from_array([9u8; 32]);
    let request = PriceV1Request::new_multiple_pubkeys(&[a, b]);
    assert_eq!(request.ids, format!("{},{}", a, b));
    assert_eq!(request.vs_token, None);
}

#[test]
fn v1_with_vs_token_sets_only_the_vs_token() {
    let request = PriceV1Request::new_single("SOL").with_vs_token("USDT");
    assert_eq!(request.ids, "SOL");
    assert_eq!(request.vs_token.as_deref(), Some("USDT"));
    assert_eq!(
        request.query_pairs(),
        vec![("ids".to_string(), "SOL".to_string()), ("vsToken".to_string(), "USDT".to_string())]
    );
    let key = Pubkey::new_from_array([3u8; 32]);
    let request = PriceV1Request::new_single("SOL").with_vs_token_pubkey(&key);
    assert_eq!(request.ids, "SOL");
    assert_eq!(request.vs_token, Some(key.to_string()));
}

#[test]
fn v1_response_is_read_with_the_price_as_written() {
    let body = "{\"data\":{\"SOL\":{\"id\":\"So11\",\"mintSymbol\":\"SOL\",\"vsToken\":\"EPj\",\
        \"vsTokenSymbol\":\"USDC\",\"price\":133.5}},\"timeTaken\":0.0004}";
    let doc = parse_json(body).unwrap();
    let response = PriceV1Response::from_json(&doc).unwrap();
    assert_eq!(response.time_taken, Decimal { text: "0.0004".to_string() });
    let price = response.price_of("SOL").unwrap();
    assert_eq!(
        price,
        &TokenV1Price {
            id: "So11".to_string(),
            mint_symbol: "SOL".to_string(),
            vs_token: "EPj".to_string(),
            vs_token_symbol: "USDC".to_string(),
            price: Decimal { text: "133.5".to_string() },
        }
    );
    assert!(response.price_of("USDC").is_none());
}

#[test]
fn v1_price_without_a_symbol_has_an_empty_one() {
    let body = "{\"id\":\"So11\",\"vsToken\":\"EPj\",\"vsTokenSymbol\":\"USDC\",\"price\":2}";
    let price = TokenV1Price::from_json(&parse_json(body).unwrap()).unwrap();
    assert_eq!(price.mint_symbol, "");
    assert_eq!(price.price.text, "2");
}

#[test]
fn v1_price_needs_its_required_members() {
    let no_vs = "{\"id\":\"So11\",\"vsTokenSymbol\":\"USDC\",\"price\":2}";
    assert_eq!(
        TokenV1Price::from_json(&parse_json(no_vs).unwrap()),
        Err(DecodeError::MissingField)
    );
    let text_price =
        "{\"id\":\"So11\",\"vsToken\":\"EPj\",\"vsTokenSymbol\":\"USDC\",\"price\":\"2\"}";
    assert_eq!(
        TokenV1Price::from_json(&parse_json(text_price).unwrap()),
        Err(DecodeError::UnexpectedType)
    );
    let null_symbol = "{\"id\":\"So11\",\"mintSymbol\":null,\"vsToken\":\"EPj\",\
        \"vsTokenSymbol\":\"USDC\",\"price\":2}";
    assert_eq!(
        TokenV1Price::from_json(&parse_json(null_symbol).unwrap()),
        Err(DecodeError::UnexpectedType)
    );
}

#[test]
fn v1_error_is_read_with_and_without_addresses() {
    let with = "{\"error\":\"unknown tokens\",\"addresses\":[\"A\",\"B\"]}";
    assert_eq!(
        PriceV1Error::from_json(&parse_json(with).unwrap()),
        Ok(PriceV1Error {
            error: "unknown tokens".to_string(),
            addresses: Some(vec!["A".to_string(), "B".to_string()]),
        })
    );
    let without = "{\"error\":\"busy\"}";
    assert_eq!(
        PriceV1Error::from_json(&parse_json(without).unwrap()),
        Ok(PriceV1Error { error: "busy".to_string(), addresses: None })
    );
    let bad = "{\"error\":\"busy\",\"addresses\":\"A\"}";
    assert_eq!(
        PriceV1Error::from_json(&parse_json(bad).unwrap()),
        Err(DecodeError::UnexpectedType)
    );
    assert_eq!(
        PriceV1Error::from_json(&parse_json("{\"data\":{}}").unwrap()),
        Err(DecodeError::MissingField)
    );
}

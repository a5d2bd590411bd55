//! The price lookup of the first version of the service: its request, its
//! response and the error that it reports in a body of its own shape.

use vstd::prelude::*;
use vstd::string::*;
use solana_sdk::pubkey::Pubkey;
use crate::address::{pubkey_strings, pubkey_text, pubkey_texts, pubkey_to_string};
use crate::decode::{
    Decimal, FromJson, decode_map, decode_optional_items, last_put, lemma_try_put_all_ok,
    map_decoded, named_decoder, optional_items_decoded, views,
};
use crate::json::{
    DecodeError, JsonTree, JsonValue, as_members, defaulted_text, find_present, get_defaulted_text,
    get_required_members, get_required_number, get_required_text, member, members_of, present,
    required_members, required_number, required_text,
};
use crate::entries::{
    distinct_names, entries_view, entry, found_view, has_key, lemma_position_of,
    lemma_value_of_has_key, value_of,
};
use crate::query::pairs_view;
use crate::text::{
    camel_case, camel_from, join, join_slices, join_spec, optional_text_view, slice_texts, texts,
};

verus! {

/// The parameters of a price lookup of the first version.
#[derive(Debug, Clone, PartialEq, Eq)]
pub struct PriceV1Request {
    /// The symbols or addresses of the tokens to price, separated by commas.
    pub ids: String,
    /// The token to price against; the service takes its reference token where this is unset.
    pub vs_token: Option<String>,
}

/// The model of a [`PriceV1Request`].
pub struct PriceV1RequestView {
    pub ids: Seq<char>,
    pub vs_token: Option<Seq<char>>,
}

impl View for PriceV1Request {
    type V = PriceV1RequestView;

    open spec fn view(&self) -> PriceV1RequestView {
        PriceV1RequestView { ids: self.ids@, vs_token: optional_text_view(self.vs_token) }
    }
}

/// The query parameters of a request of the first version, in the order in
/// which they are written: `ids`, then `vsToken` where it is set.
pub open spec fn price_v1_query(request: PriceV1RequestView) -> Seq<(Seq<char>, Seq<char>)> {
    seq![("ids"@, request.ids)] + (match request.vs_token {
        Some(token) => seq![("vsToken"@, token)],
        None => seq![],
    })
}

/// An unset `vs_token` has no parameter in the query; a set one has its value
/// there, and `ids` always has.
pub proof fn lemma_price_v1_query_fields(request: PriceV1RequestView)
    ensures
        value_of(price_v1_query(request), "ids"@) == Some(request.ids),
        value_of(price_v1_query(request), "vsToken"@) == request.vs_token,
        request.vs_token is None ==> !has_key(price_v1_query(request), "vsToken"@),
{
    crate::price::lemma_price_keys_differ();
    let q = price_v1_query(request);
    lemma_value_of_has_key(q, "vsToken"@);
    lemma_position_of(q, "ids"@);
    lemma_position_of(q, "vsToken"@);
    assert(q[0] == ("ids"@, request.ids));
    if q.len() > 1 {
        assert(q[1].0 == "vsToken"@);
    }
}

impl PriceV1Request {
    /// A request for the price of the token that `token_id` names, with nothing else set.
    pub fn new_single(token_id: &str) -> (request: Self)
        ensures
            request@ == (PriceV1RequestView { ids: token_id@, vs_token: None }),
    {
        Self { ids: token_id.to_owned(), vs_token: None }
    }

    /// A request for the price of the token at `token_mint`, with nothing else set.
    pub fn new_single_pubkey(token_mint: &Pubkey) -> (request: Self)
        ensures
            request@ == (PriceV1RequestView { ids: pubkey_text(*token_mint), vs_token: None }),
    {
        Self { ids: pubkey_to_string(token_mint), vs_token: None }
    }

    /// A request for the prices of several tokens: their names joined by
    /// commas, in the order given, with nothing else set.
    pub fn new_multiple(token_ids: &[&str]) -> (request: Self)
        ensures
            request@ == (PriceV1RequestView {
                ids: join_spec(slice_texts(token_ids@), ","@),
                vs_token: None,
            }),
    {
        Self { ids: join_slices(token_ids, ","), vs_token: None }
    }

    /// A request for the prices of the tokens at several addresses: the texts of
    /// the addresses joined by commas, in the order given, with nothing else set.
    pub fn new_multiple_pubkeys(token_mints: &[Pubkey]) -> (request: Self)
        ensures
            request@ == (PriceV1RequestView {
                ids: join_spec(pubkey_texts(token_mints@), ","@),
                vs_token: None,
            }),
    {
        let parts = pubkey_strings(token_mints);
        Self { ids: join(&parts, ","), vs_token: None }
    }

    /// The same request, priced against the token that `vs_token` names.
    pub fn with_vs_token(self, vs_token: &str) -> (request: Self)
        ensures
            request@ == (PriceV1RequestView { vs_token: Some(vs_token@), ..self@ }),
    {
        let mut request = self;
        request.vs_token = Some(vs_token.to_owned());
        request
    }

    /// The same request, priced against the token at `vs_token`.
    pub fn with_vs_token_pubkey(self, vs_token: &Pubkey) -> (request: Self)
        ensures
            request@ == (PriceV1RequestView { vs_token: Some(pubkey_text(*vs_token)), ..self@ }),
    {
        let mut request = self;
        request.vs_token = Some(pubkey_to_string(vs_token));
        request
    }

    /// The query parameters of this request, in the order in which they are written.
    pub fn query_pairs(&self) -> (pairs: Vec<(String, String)>)
        ensures
            pairs_view(pairs@) == price_v1_query(self@),
    {
        let mut pairs: Vec<(String, String)> = Vec::new();
        pairs.push(("ids".to_owned(), self.ids.clone()));
        match &self.vs_token {
            Some(token) => {
                pairs.push(("vsToken".to_owned(), token.clone()));
            },
            None => {},
        }
        assert(pairs_view(pairs@) =~= price_v1_query(self@));
        pairs
    }
}

/// The price of one token, as the first version reports it.
#[derive(Debug, Clone, PartialEq, Eq)]
pub struct TokenV1Price {
    /// The address of the token.
    pub id: String,
    /// The symbol of the token; empty where the service gives none.
    pub mint_symbol: String,
    /// The address of the token that the price is expressed in.
    pub vs_token: String,
    /// The symbol of the token that the price is expressed in.
    pub vs_token_symbol: String,
    /// The price: the number as the document writes it.
    pub price: Decimal,
}

/// The model of a [`TokenV1Price`].
pub struct TokenV1PriceView {
    pub id: Seq<char>,
    pub mint_symbol: Seq<char>,
    pub vs_token: Seq<char>,
    pub vs_token_symbol: Seq<char>,
    pub price: Seq<char>,
}

impl View for TokenV1Price {
    type V = TokenV1PriceView;

    open spec fn view(&self) -> TokenV1PriceView {
        TokenV1PriceView {
            id: self.id@,
            mint_symbol: self.mint_symbol@,
            vs_token: self.vs_token@,
            vs_token_symbol: self.vs_token_symbol@,
            price: self.price@,
        }
    }
}

/// What an object with the members `members` holds, read as the price of one token.
pub open spec fn token_v1_price_of(members: Seq<(Seq<char>, JsonTree)>) -> Result<
    TokenV1PriceView,
    DecodeError,
> {
    match required_text(members, "id"@) {
        Err(e) => Err(e),
        Ok(id) => match defaulted_text(members, "mintSymbol"@) {
            Err(e) => Err(e),
            Ok(mint_symbol) => match required_text(members, "vsToken"@) {
                Err(e) => Err(e),
                Ok(vs_token) => match required_text(members, "vsTokenSymbol"@) {
                    Err(e) => Err(e),
                    Ok(vs_token_symbol) => match required_number(members, "price"@) {
                        Err(e) => Err(e),
                        Ok(price) => Ok(
                            TokenV1PriceView { id, mint_symbol, vs_token, vs_token_symbol, price },
                        ),
                    },
                },
            },
        },
    }
}

impl FromJson for TokenV1Price {
    open spec fn decoded(doc: JsonTree) -> Result<TokenV1PriceView, DecodeError> {
        match members_of(doc) {
            Err(e) => Err(e),
            Ok(members) => token_v1_price_of(members),
        }
    }

    fn from_json(doc: &JsonValue) -> (r: Result<Self, DecodeError>) {
        let members = as_members(doc)?;
        let id = get_required_text(members, "id")?;
        let mint_symbol = get_defaulted_text(members, "mintSymbol")?;
        let vs_token = get_required_text(members, "vsToken")?;
        let vs_token_symbol = get_required_text(members, "vsTokenSymbol")?;
        let price = Decimal { text: get_required_number(members, "price")? };
        Ok(TokenV1Price { id, mint_symbol, vs_token, vs_token_symbol, price })
    }
}

/// The response of a price lookup of the first version.
#[derive(Debug, Clone, PartialEq, Eq)]
pub struct PriceV1Response {
    /// The price of each token, under the name by which it was asked for. What
    /// is read holds no name twice; the names stand in the order in which the
    /// document that was read holds them.
    pub data: Vec<(String, TokenV1Price)>,
    /// The time that the lookup took: the number as the document writes it.
    pub time_taken: Decimal,
}

/// The model of a [`PriceV1Response`].
pub struct PriceV1ResponseView {
    pub data: Seq<(Seq<char>, TokenV1PriceView)>,
    pub time_taken: Seq<char>,
}

impl View for PriceV1Response {
    type V = PriceV1ResponseView;

    open spec fn view(&self) -> PriceV1ResponseView {
        PriceV1ResponseView { data: entries_view(self.data@), time_taken: self.time_taken@ }
    }
}

impl FromJson for PriceV1Response {
    open spec fn decoded(doc: JsonTree) -> Result<PriceV1ResponseView, DecodeError> {
        match members_of(doc) {
            Err(e) => Err(e),
            Ok(members) => match required_members(members, "data"@) {
                Err(e) => Err(e),
                Ok(entries) => match map_decoded::<TokenV1Price>(entries) {
                    Err(e) => Err(e),
                    Ok(data) => match required_number(members, "timeTaken"@) {
                        Err(e) => Err(e),
                        Ok(time_taken) => Ok(PriceV1ResponseView { data, time_taken }),
                    },
                },
            },
        }
    }

    fn from_json(doc: &JsonValue) -> (r: Result<Self, DecodeError>) {
        let members = as_members(doc)?;
        let entries = get_required_members(members, "data")?;
        let data = decode_map::<TokenV1Price>(entries)?;
        let time_taken = Decimal { text: get_required_number(members, "timeTaken")? };
        Ok(PriceV1Response { data, time_taken })
    }
}

impl PriceV1Response {
    /// The price that the response holds under the name `id`.
    pub fn price_of(&self, id: &str) -> (found: Option<&TokenV1Price>)
        ensures
            found_view(found) == value_of(self@.data, id@),
    {
        entry(&self.data, id)
    }
}

/// The body in which the first version reports that it could not price what was asked.
#[derive(Debug, Clone, PartialEq, Eq)]
pub struct PriceV1Error {
    /// The message of the service.
    pub error: String,
    /// The addresses that the service objects to, where it names any.
    pub addresses: Option<Vec<String>>,
}

/// The model of a [`PriceV1Error`].
pub struct PriceV1ErrorView {
    pub error: Seq<char>,
    pub addresses: Option<Seq<Seq<char>>>,
}

impl View for PriceV1Error {
    type V = PriceV1ErrorView;

    open spec fn view(&self) -> PriceV1ErrorView {
        PriceV1ErrorView {
            error: self.error@,
            addresses: match self.addresses {
                Some(list) => Some(views(list@)),
                None => None,
            },
        }
    }
}

impl FromJson for PriceV1Error {
    open spec fn decoded(doc: JsonTree) -> Result<PriceV1ErrorView, DecodeError> {
        match members_of(doc) {
            Err(e) => Err(e),
            Ok(members) => match required_text(members, "error"@) {
                Err(e) => Err(e),
                Ok(error) => match optional_items_decoded::<String>(
                    present(members, "addresses"@),
                ) {
                    Err(e) => Err(e),
                    Ok(addresses) => Ok(PriceV1ErrorView { error, addresses }),
                },
            },
        }
    }

    fn from_json(doc: &JsonValue) -> (r: Result<Self, DecodeError>) {
        let members = as_members(doc)?;
        let error = get_required_text(members, "error")?;
        let addresses = decode_optional_items::<String>(find_present(members, "addresses"))?;
        Ok(PriceV1Error { error, addresses })
    }
}

/// A price of the first version is read only from an object that holds `id`,
/// `vsToken` and `vsTokenSymbol` as text and `price` as a number, and then
/// each of these fields is what its member holds.
pub proof fn lemma_token_v1_price_complete(doc: JsonTree)
    requires
        TokenV1Price::decoded(doc) is Ok,
    ensures
        doc is Object,
        member(doc->Object_0, "id"@) == Some(JsonTree::Text(TokenV1Price::decoded(doc)->Ok_0.id)),
        member(doc->Object_0, "vsToken"@) == Some(
            JsonTree::Text(TokenV1Price::decoded(doc)->Ok_0.vs_token),
        ),
        member(doc->Object_0, "vsTokenSymbol"@) == Some(
            JsonTree::Text(TokenV1Price::decoded(doc)->Ok_0.vs_token_symbol),
        ),
        member(doc->Object_0, "price"@) == Some(
            JsonTree::Number(TokenV1Price::decoded(doc)->Ok_0.price),
        ),
{
}

/// A response of the first version is read only from an object that holds
/// `data` as an object and `timeTaken` as a number. It then holds no name
/// twice, and under each name the price that was read from the last member of
/// `data` of that name.
pub proof fn lemma_price_v1_response_complete(doc: JsonTree)
    requires
        PriceV1Response::decoded(doc) is Ok,
    ensures
        doc is Object,
        member(doc->Object_0, "data"@) is Some,
        member(doc->Object_0, "data"@)->Some_0 is Object,
        member(doc->Object_0, "timeTaken"@) == Some(
            JsonTree::Number(PriceV1Response::decoded(doc)->Ok_0.time_taken),
        ),
        distinct_names(PriceV1Response::decoded(doc)->Ok_0.data),
        forall|id: Seq<char>|
            value_of(PriceV1Response::decoded(doc)->Ok_0.data, id) == #[trigger] last_put(
                member(doc->Object_0, "data"@)->Some_0->Object_0,
                named_decoder::<TokenV1Price>(),
                id,
            ),
{
    let entries = member(doc->Object_0, "data"@)->Some_0->Object_0;
    lemma_try_put_all_ok(entries, named_decoder::<TokenV1Price>());
}

/// The members and parameters of the price lookup of the first version bear on the wire
/// the names of their fields in lower camel case.
pub proof fn lemma_price_v1_wire_names()
    ensures
        camel_case("ids"@) == "ids"@,
        camel_case("vs_token"@) == "vsToken"@,
        camel_case("id"@) == "id"@,
        camel_case("mint_symbol"@) == "mintSymbol"@,
        camel_case("vs_token_symbol"@) == "vsTokenSymbol"@,
        camel_case("price"@) == "price"@,
        camel_case("data"@) == "data"@,
        camel_case("time_taken"@) == "timeTaken"@,
        camel_case("error"@) == "error"@,
        camel_case("addresses"@) == "addresses"@,
{
    reveal_strlit("ids");
    reveal_strlit("vs_token");
    reveal_strlit("vsToken");
    reveal_strlit("id");
    reveal_strlit("mint_symbol");
    reveal_strlit("mintSymbol");
    reveal_strlit("vs_token_symbol");
    reveal_strlit("vsTokenSymbol");
    reveal_strlit("price");
    reveal_strlit("data");
    reveal_strlit("time_taken");
    reveal_strlit("timeTaken");
    reveal_strlit("error");
    reveal_strlit("addresses");
    reveal_with_fuel(camel_from, 32);
    assert(camel_case("ids"@) =~= "ids"@);
    assert(camel_case("vs_token"@) =~= "vsToken"@);
    assert(camel_case("id"@) =~= "id"@);
    assert(camel_case("mint_symbol"@) =~= "mintSymbol"@);
    assert(camel_case("vs_token_symbol"@) =~= "vsTokenSymbol"@);
    assert(camel_case("price"@) =~= "price"@);
    assert(camel_case("data"@) =~= "data"@);
    assert(camel_case("time_taken"@) =~= "timeTaken"@);
    assert(camel_case("error"@) =~= "error"@);
    assert(camel_case("addresses"@) =~= "addresses"@);
}

} // verus!

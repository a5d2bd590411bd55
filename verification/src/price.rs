//! The price lookup: its request, and the response with its optional detail.

use vstd::prelude::*;
use vstd::string::*;
use solana_sdk::pubkey::Pubkey;
use crate::address::{pubkey_strings, pubkey_text, pubkey_texts, pubkey_to_string};
use crate::decode::{
    Decimal, FromJson, decode_map, decode_optional, last_put, lemma_try_put_all_ok, map_decoded,
    named_decoder, optional_decoded, optional_view_of,
};
use crate::json::{
    DecodeError, JsonTree, JsonValue, as_members, find_present, get_optional_integer,
    get_optional_text, get_required_integer, get_required_members, get_required_number,
    get_required_text, member, members_of, optional_integer, optional_text, present,
    required_integer, required_members, required_number, required_text,
};
use crate::entries::{
    distinct_names, entries_view, entry, found_view, has_key, lemma_position_of,
    lemma_value_of_has_key, value_of,
};
use crate::query::pairs_view;
use crate::text::{
    bool_text, bool_to_str, camel_case, camel_from, join, join_spec, optional_text_view,
};

pub mod field_as_string_option;

verus! {

/// The parameters of a price lookup.
#[derive(Debug, Clone, PartialEq, Eq)]
pub struct PriceRequest {
    /// The addresses of the tokens to price, separated by commas.
    pub ids: String,
    /// The token to price against; the service takes its reference token where this is unset.
    pub vs_token: Option<String>,
    /// Whether the response is to carry the extra detail.
    pub show_extra_info: Option<bool>,
}

/// The model of a [`PriceRequest`].
pub struct PriceRequestView {
    pub ids: Seq<char>,
    pub vs_token: Option<Seq<char>>,
    pub show_extra_info: Option<bool>,
}

impl View for PriceRequest {
    type V = PriceRequestView;

    open spec fn view(&self) -> PriceRequestView {
        PriceRequestView {
            ids: self.ids@,
            vs_token: optional_text_view(self.vs_token),
            show_extra_info: self.show_extra_info,
        }
    }
}

/// The query parameters of a price request, in the order in which they are
/// written: `ids`, then `vsToken` and `showExtraInfo`, each only where it is set.
pub open spec fn price_query(request: PriceRequestView) -> Seq<(Seq<char>, Seq<char>)> {
    seq![("ids"@, request.ids)] + (match request.vs_token {
        Some(token) => seq![("vsToken"@, token)],
        None => seq![],
    }) + (match request.show_extra_info {
        Some(flag) => seq![("showExtraInfo"@, bool_text(flag))],
        None => seq![],
    })
}

/// The three parameter names of a price request differ from one another.
pub proof fn lemma_price_keys_differ()
    ensures
        "ids"@ != "vsToken"@,
        "ids"@ != "showExtraInfo"@,
        "vsToken"@ != "showExtraInfo"@,
{
    reveal_strlit("ids");
    reveal_strlit("vsToken");
    reveal_strlit("showExtraInfo");
    assert("ids"@.len() == 3);
    assert("vsToken"@.len() == 7);
    assert("showExtraInfo"@.len() == 13);
}

/// A field of a price request that is unset has no parameter in the query;
/// one that is set has its value there, and `ids` always has.
pub proof fn lemma_price_query_fields(request: PriceRequestView)
    ensures
        value_of(price_query(request), "ids"@) == Some(request.ids),
        value_of(price_query(request), "vsToken"@) == request.vs_token,
        request.vs_token is None ==> !has_key(price_query(request), "vsToken"@),
        value_of(price_query(request), "showExtraInfo"@) == (match request.show_extra_info {
            Some(flag) => Some(bool_text(flag)),
            None => None,
        }),
        request.show_extra_info is None ==> !has_key(price_query(request), "showExtraInfo"@),
{
    lemma_price_keys_differ();
    let q = price_query(request);
    lemma_value_of_has_key(q, "vsToken"@);
    lemma_value_of_has_key(q, "showExtraInfo"@);
    lemma_position_of(q, "ids"@);
    lemma_position_of(q, "vsToken"@);
    lemma_position_of(q, "showExtraInfo"@);
    assert(q[0] == ("ids"@, request.ids));
    if q.len() > 1 {
        assert(q[1].0 == "vsToken"@ || q[1].0 == "showExtraInfo"@);
    }
    if q.len() > 2 {
        assert(q[2].0 == "showExtraInfo"@);
    }
}

impl PriceRequest {
    /// A request for the price of one token, with nothing else set.
    pub fn new_single(token_mint: &Pubkey) -> (request: Self)
        ensures
            request@ == (PriceRequestView {
                ids: pubkey_text(*token_mint),
                vs_token: None,
                show_extra_info: None,
            }),
    {
        Self { ids: pubkey_to_string(token_mint), vs_token: None, show_extra_info: None }
    }

    /// A request for the prices of several tokens: their addresses joined by
    /// commas, in the order given, with nothing else set.
    pub fn new_multiple(token_mints: &[Pubkey]) -> (request: Self)
        ensures
            request@ == (PriceRequestView {
                ids: join_spec(pubkey_texts(token_mints@), ","@),
                vs_token: None,
                show_extra_info: None,
            }),
    {
        let parts = pubkey_strings(token_mints);
        Self::from_ids(&parts)
    }

    /// A request for the prices of the tokens whose addresses are written in
    /// `ids`: the texts joined by commas, in the order given, with nothing else set.
    pub fn from_ids(ids: &Vec<String>) -> (request: Self)
        ensures
            request@ == (PriceRequestView {
                ids: join_spec(crate::text::texts(ids@), ","@),
                vs_token: None,
                show_extra_info: None,
            }),
    {
        Self { ids: join(ids, ","), vs_token: None, show_extra_info: None }
    }

    /// The same request, priced against `vs_token`.
    pub fn with_vs_token(self, vs_token: &Pubkey) -> (request: Self)
        ensures
            request@ == (PriceRequestView { vs_token: Some(pubkey_text(*vs_token)), ..self@ }),
    {
        let mut request = self;
        request.vs_token = Some(pubkey_to_string(vs_token));
        request
    }

    /// The same request, with the wish for extra detail set to `show_extra_info`.
    pub fn with_extra_info(self, show_extra_info: bool) -> (request: Self)
        ensures
            request@ == (PriceRequestView { show_extra_info: Some(show_extra_info), ..self@ }),
    {
        let mut request = self;
        request.show_extra_info = Some(show_extra_info);
        request
    }

    /// The query parameters of this request, in the order in which they are written.
    pub fn query_pairs(&self) -> (pairs: Vec<(String, String)>)
        ensures
            pairs_view(pairs@) == price_query(self@),
    {
        let mut pairs: Vec<(String, String)> = Vec::new();
        pairs.push(("ids".to_owned(), self.ids.clone()));
        match &self.vs_token {
            Some(token) => {
                pairs.push(("vsToken".to_owned(), token.clone()));
            },
            None => {},
        }
        match self.show_extra_info {
            Some(flag) => {
                pairs.push(("showExtraInfo".to_owned(), bool_to_str(flag).to_owned()));
            },
            None => {},
        }
        assert(pairs_view(pairs@) =~= price_query(self@));
        pairs
    }
}

/// When and at what price the token was last sold and bought.
#[derive(Debug, Clone, PartialEq, Eq)]
pub struct LastSwappedPrice {
    /// The time of the last sale, in seconds since the epoch.
    pub last_jupiter_sell_at: Option<u64>,
    /// The price of the last sale.
    pub last_jupiter_sell_price: Option<String>,
    /// The time of the last purchase, in seconds since the epoch.
    pub last_jupiter_buy_at: Option<u64>,
    /// The price of the last purchase.
    pub last_jupiter_buy_price: Option<String>,
}

/// The model of a [`LastSwappedPrice`].
pub struct LastSwappedPriceView {
    pub last_jupiter_sell_at: Option<u64>,
    pub last_jupiter_sell_price: Option<Seq<char>>,
    pub last_jupiter_buy_at: Option<u64>,
    pub last_jupiter_buy_price: Option<Seq<char>>,
}

impl View for LastSwappedPrice {
    type V = LastSwappedPriceView;

    open spec fn view(&self) -> LastSwappedPriceView {
        LastSwappedPriceView {
            last_jupiter_sell_at: self.last_jupiter_sell_at,
            last_jupiter_sell_price: optional_text_view(self.last_jupiter_sell_price),
            last_jupiter_buy_at: self.last_jupiter_buy_at,
            last_jupiter_buy_price: optional_text_view(self.last_jupiter_buy_price),
        }
    }
}

impl FromJson for LastSwappedPrice {
    open spec fn decoded(doc: JsonTree) -> Result<LastSwappedPriceView, DecodeError> {
        match members_of(doc) {
            Err(e) => Err(e),
            Ok(members) => match optional_integer(members, "lastJupiterSellAt"@) {
                Err(e) => Err(e),
                Ok(last_jupiter_sell_at) => match optional_text(members, "lastJupiterSellPrice"@) {
                    Err(e) => Err(e),
                    Ok(last_jupiter_sell_price) => match optional_integer(
                        members,
                        "lastJupiterBuyAt"@,
                    ) {
                        Err(e) => Err(e),
                        Ok(last_jupiter_buy_at) => match optional_text(
                            members,
                            "lastJupiterBuyPrice"@,
                        ) {
                            Err(e) => Err(e),
                            Ok(last_jupiter_buy_price) => Ok(
                                LastSwappedPriceView {
                                    last_jupiter_sell_at,
                                    last_jupiter_sell_price,
                                    last_jupiter_buy_at,
                                    last_jupiter_buy_price,
                                },
                            ),
                        },
                    },
                },
            },
        }
    }

    fn from_json(doc: &JsonValue) -> (r: Result<Self, DecodeError>) {
        let members = as_members(doc)?;
        let last_jupiter_sell_at = get_optional_integer(members, "lastJupiterSellAt")?;
        let last_jupiter_sell_price = get_optional_text(members, "lastJupiterSellPrice")?;
        let last_jupiter_buy_at = get_optional_integer(members, "lastJupiterBuyAt")?;
        let last_jupiter_buy_price = get_optional_text(members, "lastJupiterBuyPrice")?;
        Ok(
            LastSwappedPrice {
                last_jupiter_sell_at,
                last_jupiter_sell_price,
                last_jupiter_buy_at,
                last_jupiter_buy_price,
            },
        )
    }
}

/// The prices at which the token is quoted now, with the times of the quotes.
#[derive(Debug, Clone, PartialEq, Eq)]
pub struct QuotedPrice {
    /// The quoted price to buy at.
    pub buy_price: Option<String>,
    /// The time of the buy quote, in seconds since the epoch.
    pub buy_at: Option<u64>,
    /// The quoted price to sell at.
    pub sell_price: Option<String>,
    /// The time of the sell quote, in seconds since the epoch.
    pub sell_at: Option<u64>,
}

/// The model of a [`QuotedPrice`].
pub struct QuotedPriceView {
    pub buy_price: Option<Seq<char>>,
    pub buy_at: Option<u64>,
    pub sell_price: Option<Seq<char>>,
    pub sell_at: Option<u64>,
}

impl View for QuotedPrice {
    type V = QuotedPriceView;

    open spec fn view(&self) -> QuotedPriceView {
        QuotedPriceView {
            buy_price: optional_text_view(self.buy_price),
            buy_at: self.buy_at,
            sell_price: optional_text_view(self.sell_price),
            sell_at: self.sell_at,
        }
    }
}

impl FromJson for QuotedPrice {
    open spec fn decoded(doc: JsonTree) -> Result<QuotedPriceView, DecodeError> {
        match members_of(doc) {
            Err(e) => Err(e),
            Ok(members) => match optional_text(members, "buyPrice"@) {
                Err(e) => Err(e),
                Ok(buy_price) => match optional_integer(members, "buyAt"@) {
                    Err(e) => Err(e),
                    Ok(buy_at) => match optional_text(members, "sellPrice"@) {
                        Err(e) => Err(e),
                        Ok(sell_price) => match optional_integer(members, "sellAt"@) {
                            Err(e) => Err(e),
                            Ok(sell_at) => Ok(
                                QuotedPriceView { buy_price, buy_at, sell_price, sell_at },
                            ),
                        },
                    },
                },
            },
        }
    }

    fn from_json(doc: &JsonValue) -> (r: Result<Self, DecodeError>) {
        let members = as_members(doc)?;
        let buy_price = get_optional_text(members, "buyPrice")?;
        let buy_at = get_optional_integer(members, "buyAt")?;
        let sell_price = get_optional_text(members, "sellPrice")?;
        let sell_at = get_optional_integer(members, "sellAt")?;
        Ok(QuotedPrice { buy_price, buy_at, sell_price, sell_at })
    }
}

/// How far trades of several sizes move the price.
#[derive(Debug, Clone, PartialEq, Eq)]
pub struct PriceImpactRatio {
    /// For each trade size, named as the document names it, the ratio by which
    /// a trade of that size moves the price: the number as the document
    /// writes it. What is read holds no size twice; the sizes stand in the
    /// order in which the document that was read holds them.
    pub depth: Vec<(String, Decimal)>,
    /// The time at which the ratios were taken.
    pub timestamp: u64,
}

/// The model of a [`PriceImpactRatio`].
pub struct PriceImpactRatioView {
    pub depth: Seq<(Seq<char>, Seq<char>)>,
    pub timestamp: u64,
}

impl View for PriceImpactRatio {
    type V = PriceImpactRatioView;

    open spec fn view(&self) -> PriceImpactRatioView {
        PriceImpactRatioView { depth: entries_view(self.depth@), timestamp: self.timestamp }
    }
}

impl FromJson for PriceImpactRatio {
    open spec fn decoded(doc: JsonTree) -> Result<PriceImpactRatioView, DecodeError> {
        match members_of(doc) {
            Err(e) => Err(e),
            Ok(members) => match required_members(members, "depth"@) {
                Err(e) => Err(e),
                Ok(entries) => match map_decoded::<Decimal>(entries) {
                    Err(e) => Err(e),
                    Ok(depth) => match required_integer(members, "timestamp"@) {
                        Err(e) => Err(e),
                        Ok(timestamp) => Ok(PriceImpactRatioView { depth, timestamp }),
                    },
                },
            },
        }
    }

    fn from_json(doc: &JsonValue) -> (r: Result<Self, DecodeError>) {
        let members = as_members(doc)?;
        let entries = get_required_members(members, "depth")?;
        let depth = decode_map::<Decimal>(entries)?;
        let timestamp = get_required_integer(members, "timestamp")?;
        Ok(PriceImpactRatio { depth, timestamp })
    }
}

/// The ratios that are read hold no trade size twice; under each size they hold
/// the ratio that was read from the last member of `depth` of that name.
pub proof fn lemma_price_impact_ratio_complete(doc: JsonTree)
    requires
        PriceImpactRatio::decoded(doc) is Ok,
    ensures
        doc is Object,
        member(doc->Object_0, "depth"@) is Some,
        member(doc->Object_0, "depth"@)->Some_0 is Object,
        required_integer(doc->Object_0, "timestamp"@) == Ok::<u64, DecodeError>(
            PriceImpactRatio::decoded(doc)->Ok_0.timestamp,
        ),
        distinct_names(PriceImpactRatio::decoded(doc)->Ok_0.depth),
        forall|size: Seq<char>|
            value_of(PriceImpactRatio::decoded(doc)->Ok_0.depth, size) == #[trigger] last_put(
                member(doc->Object_0, "depth"@)->Some_0->Object_0,
                named_decoder::<Decimal>(),
                size,
            ),
{
    let entries = member(doc->Object_0, "depth"@)->Some_0->Object_0;
    lemma_try_put_all_ok(entries, named_decoder::<Decimal>());
}

impl PriceImpactRatio {
    /// The ratio for the trade size that the document names `size`.
    pub fn ratio_at(&self, size: &str) -> (found: Option<&Decimal>)
        ensures
            found_view(found) == value_of(self@.depth, size@),
    {
        entry(&self.depth, size)
    }
}

/// The price impact of buying and of selling.
#[derive(Debug, Clone, PartialEq, Eq)]
pub struct DepthInfo {
    /// The impact of purchases.
    pub buy_price_impact_ratio: Option<PriceImpactRatio>,
    /// The impact of sales.
    pub sell_price_impact_ratio: Option<PriceImpactRatio>,
}

/// The model of a [`DepthInfo`].
pub struct DepthInfoView {
    pub buy_price_impact_ratio: Option<PriceImpactRatioView>,
    pub sell_price_impact_ratio: Option<PriceImpactRatioView>,
}

impl View for DepthInfo {
    type V = DepthInfoView;

    open spec fn view(&self) -> DepthInfoView {
        DepthInfoView {
            buy_price_impact_ratio: optional_view_of(self.buy_price_impact_ratio),
            sell_price_impact_ratio: optional_view_of(self.sell_price_impact_ratio),
        }
    }
}

impl FromJson for DepthInfo {
    open spec fn decoded(doc: JsonTree) -> Result<DepthInfoView, DecodeError> {
        match members_of(doc) {
            Err(e) => Err(e),
            Ok(members) => match optional_decoded::<PriceImpactRatio>(
                present(members, "buyPriceImpactRatio"@),
            ) {
                Err(e) => Err(e),
                Ok(buy_price_impact_ratio) => match optional_decoded::<PriceImpactRatio>(
                    present(members, "sellPriceImpactRatio"@),
                ) {
                    Err(e) => Err(e),
                    Ok(sell_price_impact_ratio) => Ok(
                        DepthInfoView { buy_price_impact_ratio, sell_price_impact_ratio },
                    ),
                },
            },
        }
    }

    fn from_json(doc: &JsonValue) -> (r: Result<Self, DecodeError>) {
        let members = as_members(doc)?;
        let buy_price_impact_ratio = decode_optional::<PriceImpactRatio>(
            find_present(members, "buyPriceImpactRatio"),
        )?;
        let sell_price_impact_ratio = decode_optional::<PriceImpactRatio>(
            find_present(members, "sellPriceImpactRatio"),
        )?;
        Ok(DepthInfo { buy_price_impact_ratio, sell_price_impact_ratio })
    }
}

/// The detail that a price carries where the request asked for it.
#[derive(Debug, Clone, PartialEq, Eq)]
pub struct PriceExtraInfo {
    /// The last sale and purchase.
    pub last_swapped_price: Option<LastSwappedPrice>,
    /// The present quotes.
    pub quoted_price: Option<QuotedPrice>,
    /// How far the service trusts the price: `high`, `medium` or `low`.
    pub confidence_level: Option<String>,
    /// The price impact of trades of several sizes.
    pub depth: Option<DepthInfo>,
}

/// The model of a [`PriceExtraInfo`].
pub struct PriceExtraInfoView {
    pub last_swapped_price: Option<LastSwappedPriceView>,
    pub quoted_price: Option<QuotedPriceView>,
    pub confidence_level: Option<Seq<char>>,
    pub depth: Option<DepthInfoView>,
}

impl View for PriceExtraInfo {
    type V = PriceExtraInfoView;

    open spec fn view(&self) -> PriceExtraInfoView {
        PriceExtraInfoView {
            last_swapped_price: optional_view_of(self.last_swapped_price),
            quoted_price: optional_view_of(self.quoted_price),
            confidence_level: optional_text_view(self.confidence_level),
            depth: optional_view_of(self.depth),
        }
    }
}

impl FromJson for PriceExtraInfo {
    open spec fn decoded(doc: JsonTree) -> Result<PriceExtraInfoView, DecodeError> {
        match members_of(doc) {
            Err(e) => Err(e),
            Ok(members) => match optional_decoded::<LastSwappedPrice>(
                present(members, "lastSwappedPrice"@),
            ) {
                Err(e) => Err(e),
                Ok(last_swapped_price) => match optional_decoded::<QuotedPrice>(
                    present(members, "quotedPrice"@),
                ) {
                    Err(e) => Err(e),
                    Ok(quoted_price) => match optional_text(members, "confidenceLevel"@) {
                        Err(e) => Err(e),
                        Ok(confidence_level) => match optional_decoded::<DepthInfo>(
                            present(members, "depth"@),
                        ) {
                            Err(e) => Err(e),
                            Ok(depth) => Ok(
                                PriceExtraInfoView {
                                    last_swapped_price,
                                    quoted_price,
                                    confidence_level,
                                    depth,
                                },
                            ),
                        },
                    },
                },
            },
        }
    }

    fn from_json(doc: &JsonValue) -> (r: Result<Self, DecodeError>) {
        let members = as_members(doc)?;
        let last_swapped_price = decode_optional::<LastSwappedPrice>(
            find_present(members, "lastSwappedPrice"),
        )?;
        let quoted_price = decode_optional::<QuotedPrice>(find_present(members, "quotedPrice"))?;
        let confidence_level = get_optional_text(members, "confidenceLevel")?;
        let depth = decode_optional::<DepthInfo>(find_present(members, "depth"))?;
        Ok(PriceExtraInfo { last_swapped_price, quoted_price, confidence_level, depth })
    }
}

/// The price of one token.
#[derive(Debug, Clone, PartialEq, Eq)]
pub struct TokenPrice {
    /// The address of the token.
    pub id: String,
    /// How the price was arrived at; the wire calls this member `type`.
    pub price_type: String,
    /// The price, as the decimal text that the service sent: it is never
    /// turned into a binary fraction, so no digit is lost.
    pub price: String,
    /// The extra detail, where the request asked for it.
    pub extra_info: Option<PriceExtraInfo>,
}

/// The model of a [`TokenPrice`].
pub struct TokenPriceView {
    pub id: Seq<char>,
    pub price_type: Seq<char>,
    pub price: Seq<char>,
    pub extra_info: Option<PriceExtraInfoView>,
}

impl View for TokenPrice {
    type V = TokenPriceView;

    open spec fn view(&self) -> TokenPriceView {
        TokenPriceView {
            id: self.id@,
            price_type: self.price_type@,
            price: self.price@,
            extra_info: optional_view_of(self.extra_info),
        }
    }
}

impl FromJson for TokenPrice {
    open spec fn decoded(doc: JsonTree) -> Result<TokenPriceView, DecodeError> {
        match members_of(doc) {
            Err(e) => Err(e),
            Ok(members) => match required_text(members, "id"@) {
                Err(e) => Err(e),
                Ok(id) => match required_text(members, "type"@) {
                    Err(e) => Err(e),
                    Ok(price_type) => match required_text(members, "price"@) {
                        Err(e) => Err(e),
                        Ok(price) => match optional_decoded::<PriceExtraInfo>(
                            present(members, "extraInfo"@),
                        ) {
                            Err(e) => Err(e),
                            Ok(extra_info) => Ok(
                                TokenPriceView { id, price_type, price, extra_info },
                            ),
                        },
                    },
                },
            },
        }
    }

    fn from_json(doc: &JsonValue) -> (r: Result<Self, DecodeError>) {
        let members = as_members(doc)?;
        let id = get_required_text(members, "id")?;
        let price_type = get_required_text(members, "type")?;
        let price = get_required_text(members, "price")?;
        let extra_info = decode_optional::<PriceExtraInfo>(find_present(members, "extraInfo"))?;
        Ok(TokenPrice { id, price_type, price, extra_info })
    }
}

/// The response of a price lookup.
#[derive(Debug, Clone, PartialEq, Eq)]
pub struct PriceResponse {
    /// The price of each token, under the token's address. What is read holds
    /// no address twice; the addresses stand in the order in which the document
    /// that was read holds them.
    pub data: Vec<(String, TokenPrice)>,
    /// The time that the lookup took: the number as the document writes it.
    pub time_taken: Decimal,
}

/// The model of a [`PriceResponse`].
pub struct PriceResponseView {
    pub data: Seq<(Seq<char>, TokenPriceView)>,
    pub time_taken: Seq<char>,
}

impl View for PriceResponse {
    type V = PriceResponseView;

    open spec fn view(&self) -> PriceResponseView {
        PriceResponseView { data: entries_view(self.data@), time_taken: self.time_taken@ }
    }
}

impl FromJson for PriceResponse {
    open spec fn decoded(doc: JsonTree) -> Result<PriceResponseView, DecodeError> {
        match members_of(doc) {
            Err(e) => Err(e),
            Ok(members) => match required_members(members, "data"@) {
                Err(e) => Err(e),
                Ok(entries) => match map_decoded::<TokenPrice>(entries) {
                    Err(e) => Err(e),
                    Ok(data) => match required_number(members, "timeTaken"@) {
                        Err(e) => Err(e),
                        Ok(time_taken) => Ok(PriceResponseView { data, time_taken }),
                    },
                },
            },
        }
    }

    fn from_json(doc: &JsonValue) -> (r: Result<Self, DecodeError>) {
        let members = as_members(doc)?;
        let entries = get_required_members(members, "data")?;
        let data = decode_map::<TokenPrice>(entries)?;
        let time_taken = Decimal { text: get_required_number(members, "timeTaken")? };
        Ok(PriceResponse { data, time_taken })
    }
}

impl PriceResponse {
    /// The price that the response holds under the address `id`.
    pub fn price_of(&self, id: &str) -> (found: Option<&TokenPrice>)
        ensures
            found_view(found) == value_of(self@.data, id@),
    {
        entry(&self.data, id)
    }
}

/// A token's price is read only from an object that holds `id`, `type` and
/// `price` as text, and then each field is the text of its member: where one
/// of them is absent nothing is read.
pub proof fn lemma_token_price_complete(doc: JsonTree)
    requires
        TokenPrice::decoded(doc) is Ok,
    ensures
        doc is Object,
        member(doc->Object_0, "id"@) == Some(JsonTree::Text(TokenPrice::decoded(doc)->Ok_0.id)),
        member(doc->Object_0, "type"@) == Some(
            JsonTree::Text(TokenPrice::decoded(doc)->Ok_0.price_type),
        ),
        member(doc->Object_0, "price"@) == Some(
            JsonTree::Text(TokenPrice::decoded(doc)->Ok_0.price),
        ),
{
}

/// A price response is read only from an object that holds `data` as an
/// object and `timeTaken` as a number, and only where every member of `data`
/// reads as a token's price. It then holds no name twice, and under each name
/// the price that was read from the last member of `data` of that name.
pub proof fn lemma_price_response_complete(doc: JsonTree)
    requires
        PriceResponse::decoded(doc) is Ok,
    ensures
        doc is Object,
        member(doc->Object_0, "data"@) is Some,
        member(doc->Object_0, "data"@)->Some_0 is Object,
        member(doc->Object_0, "timeTaken"@) == Some(
            JsonTree::Number(PriceResponse::decoded(doc)->Ok_0.time_taken),
        ),
        distinct_names(PriceResponse::decoded(doc)->Ok_0.data),
        forall|i: int|
            0 <= i < member(doc->Object_0, "data"@)->Some_0->Object_0.len()
                ==> TokenPrice::decoded(
                (#[trigger] member(doc->Object_0, "data"@)->Some_0->Object_0[i]).1,
            ) is Ok,
        forall|id: Seq<char>|
            value_of(PriceResponse::decoded(doc)->Ok_0.data, id) == #[trigger] last_put(
                member(doc->Object_0, "data"@)->Some_0->Object_0,
                named_decoder::<TokenPrice>(),
                id,
            ),
{
    let entries = member(doc->Object_0, "data"@)->Some_0->Object_0;
    lemma_try_put_all_ok(entries, named_decoder::<TokenPrice>());
    assert forall|i: int| 0 <= i < entries.len() implies TokenPrice::decoded(
        (#[trigger] entries[i]).1,
    ) is Ok by {
        assert(named_decoder::<TokenPrice>()(entries[i]) is Ok);
    }
}

/// The members and parameters of the price lookup bear on the wire the names of their
/// fields in lower camel case. The one field that does not is `price_type` of a token's
/// price, whose member is named `type`.
pub proof fn lemma_price_wire_names()
    ensures
        camel_case("ids"@) == "ids"@,
        camel_case("vs_token"@) == "vsToken"@,
        camel_case("show_extra_info"@) == "showExtraInfo"@,
        camel_case("id"@) == "id"@,
        camel_case("price"@) == "price"@,
        camel_case("extra_info"@) == "extraInfo"@,
        camel_case("last_jupiter_sell_at"@) == "lastJupiterSellAt"@,
        camel_case("last_jupiter_sell_price"@) == "lastJupiterSellPrice"@,
        camel_case("last_jupiter_buy_at"@) == "lastJupiterBuyAt"@,
        camel_case("last_jupiter_buy_price"@) == "lastJupiterBuyPrice"@,
        camel_case("buy_price"@) == "buyPrice"@,
        camel_case("buy_at"@) == "buyAt"@,
        camel_case("sell_price"@) == "sellPrice"@,
        camel_case("sell_at"@) == "sellAt"@,
        camel_case("depth"@) == "depth"@,
        camel_case("timestamp"@) == "timestamp"@,
        camel_case("buy_price_impact_ratio"@) == "buyPriceImpactRatio"@,
        camel_case("sell_price_impact_ratio"@) == "sellPriceImpactRatio"@,
        camel_case("last_swapped_price"@) == "lastSwappedPrice"@,
        camel_case("quoted_price"@) == "quotedPrice"@,
        camel_case("confidence_level"@) == "confidenceLevel"@,
        camel_case("data"@) == "data"@,
        camel_case("time_taken"@) == "timeTaken"@,
{
    reveal_strlit("ids");
    reveal_strlit("vs_token");
    reveal_strlit("vsToken");
    reveal_strlit("show_extra_info");
    reveal_strlit("showExtraInfo");
    reveal_strlit("id");
    reveal_strlit("price");
    reveal_strlit("extra_info");
    reveal_strlit("extraInfo");
    reveal_strlit("last_jupiter_sell_at");
    reveal_strlit("lastJupiterSellAt");
    reveal_strlit("last_jupiter_sell_price");
    reveal_strlit("lastJupiterSellPrice");
    reveal_strlit("last_jupiter_buy_at");
    reveal_strlit("lastJupiterBuyAt");
    reveal_strlit("last_jupiter_buy_price");
    reveal_strlit("lastJupiterBuyPrice");
    reveal_strlit("buy_price");
    reveal_strlit("buyPrice");
    reveal_strlit("buy_at");
    reveal_strlit("buyAt");
    reveal_strlit("sell_price");
    reveal_strlit("sellPrice");
    reveal_strlit("sell_at");
    reveal_strlit("sellAt");
    reveal_strlit("depth");
    reveal_strlit("timestamp");
    reveal_strlit("buy_price_impact_ratio");
    reveal_strlit("buyPriceImpactRatio");
    reveal_strlit("sell_price_impact_ratio");
    reveal_strlit("sellPriceImpactRatio");
    reveal_strlit("last_swapped_price");
    reveal_strlit("lastSwappedPrice");
    reveal_strlit("quoted_price");
    reveal_strlit("quotedPrice");
    reveal_strlit("confidence_level");
    reveal_strlit("confidenceLevel");
    reveal_strlit("data");
    reveal_strlit("time_taken");
    reveal_strlit("timeTaken");
    reveal_with_fuel(camel_from, 32);
    assert(camel_case("ids"@) =~= "ids"@);
    assert(camel_case("vs_token"@) =~= "vsToken"@);
    assert(camel_case("show_extra_info"@) =~= "showExtraInfo"@);
    assert(camel_case("id"@) =~= "id"@);
    assert(camel_case("price"@) =~= "price"@);
    assert(camel_case("extra_info"@) =~= "extraInfo"@);
    assert(camel_case("last_jupiter_sell_at"@) =~= "lastJupiterSellAt"@);
    assert(camel_case("last_jupiter_sell_price"@) =~= "lastJupiterSellPrice"@);
    assert(camel_case("last_jupiter_buy_at"@) =~= "lastJupiterBuyAt"@);
    assert(camel_case("last_jupiter_buy_price"@) =~= "lastJupiterBuyPrice"@);
    assert(camel_case("buy_price"@) =~= "buyPrice"@);
    assert(camel_case("buy_at"@) =~= "buyAt"@);
    assert(camel_case("sell_price"@) =~= "sellPrice"@);
    assert(camel_case("sell_at"@) =~= "sellAt"@);
    assert(camel_case("depth"@) =~= "depth"@);
    assert(camel_case("timestamp"@) =~= "timestamp"@);
    assert(camel_case("buy_price_impact_ratio"@) =~= "buyPriceImpactRatio"@);
    assert(camel_case("sell_price_impact_ratio"@) =~= "sellPriceImpactRatio"@);
    assert(camel_case("last_swapped_price"@) =~= "lastSwappedPrice"@);
    assert(camel_case("quoted_price"@) =~= "quotedPrice"@);
    assert(camel_case("confidence_level"@) =~= "confidenceLevel"@);
    assert(camel_case("data"@) =~= "data"@);
    assert(camel_case("time_taken"@) =~= "timeTaken"@);
}

} // verus!

//! The typed core of a client for a swap-quoting and token-pricing service.
//!
//! The library turns typed requests into descriptions of HTTP calls, and raw
//! responses into typed results or typed errors. It sends nothing itself: a
//! caller performs the call that it describes and hands back what came.
//!
//! - [`quote`], [`swap`], [`price`] and [`price_v1`] hold the requests and the
//!   responses of the operations, [`route_plan_with_metadata`] the hops of a
//!   route and [`transaction_config`] the refinements of a swap.
//! - [`query`] holds query parameters and their merging, [`json`] the
//!   documents and the reading of their members, [`decode`] the reading and
//!   writing of structures, [`parse`] the way from text to a document.
//! - [`text`] holds the decimal text of integers, [`address`] the text of
//!   account addresses.
//! - This file holds the client, the calls that it describes, and the
//!   classification of responses.

use vstd::prelude::*;
use vstd::string::*;
use solana_sdk::pubkey::Pubkey;
use crate::address::{pubkey_text, pubkey_texts};
use crate::decode::{FromJson, ToJson};
use crate::json::{DecodeError, JsonTree, JsonValue, describe_spec, parsed_view};
use crate::parse::{parse_json, parsed_document};
use crate::price::{PriceRequest, PriceRequestView, price_query};
use crate::query::pairs_view;
use crate::quote::{QuoteRequest, optional_pairs_view, pairs_or_none, quote_query};
use crate::swap::{
    SwapInstructionsResponse, SwapInstructionsResponseInternal, SwapInstructionsResponseView,
    SwapRequest, normal_instructions,
};
use crate::text::{decimal, decimal_string, join_spec, optional_text_view};

pub mod address;
pub mod decode;
pub mod entries;
pub mod json;
pub mod parse;
pub mod price;
pub mod price_v1;
pub mod query;
pub mod quote;
pub mod route_plan_with_metadata;
pub mod swap;
pub mod text;
pub mod transaction_config;

verus! {

/// A client bound to one base address.
#[derive(Debug, Clone)]
pub struct JupiterSwapApiClient {
    pub base_path: String,
}

/// Why a call gave no result.
#[derive(Debug, Clone, PartialEq, Eq)]
pub enum ClientError {
    /// The service answered with a status outside the success range; `body`
    /// is the text of its answer, as it came.
    RequestFailed { status: u16, body: String },
    /// The service answered with success, but the body is not what was expected.
    DeserializationError(DecodeError),
}

/// The model of a [`ClientError`].
pub enum ClientErrorView {
    RequestFailed { status: u16, body: Seq<char> },
    DeserializationError(DecodeError),
}

impl View for ClientError {
    type V = ClientErrorView;

    open spec fn view(&self) -> ClientErrorView {
        match self {
            ClientError::RequestFailed { status, body } => ClientErrorView::RequestFailed {
                status: *status,
                body: body@,
            },
            ClientError::DeserializationError(e) => ClientErrorView::DeserializationError(*e),
        }
    }
}

/// The message of an error: for a failed request the status code and the
/// body, for a decode error what went wrong.
pub open spec fn message_spec(error: ClientErrorView) -> Seq<char> {
    match error {
        ClientErrorView::RequestFailed { status, body } => "Request failed with status "@
            + decimal(status as nat) + ": "@ + body,
        ClientErrorView::DeserializationError(e) => "Failed to deserialize response: "@
            + describe_spec(e),
    }
}

impl ClientError {
    /// The message of this error.
    pub fn message(&self) -> (text: String)
        ensures
            text@ == message_spec(self@),
    {
        match self {
            ClientError::RequestFailed { status, body } => {
                let mut text = "Request failed with status ".to_owned();
                text.append(decimal_string(*status as u64).as_str());
                text.append(": ");
                text.append(body.as_str());
                text
            },
            ClientError::DeserializationError(e) => {
                let mut text = "Failed to deserialize response: ".to_owned();
                text.append(e.describe());
                text
            },
        }
    }
}

/// A response as it came: the status, and the text of the body, or `None`
/// where the body could not be read.
#[derive(Debug, Clone, PartialEq, Eq)]
pub struct RawResponse {
    pub status: u16,
    pub body: Option<String>,
}

/// The status codes that report success: 200 to 299.
pub open spec fn is_success(status: u16) -> bool {
    200 <= status <= 299
}

/// The text of a body that may not have been read: empty where it was not.
pub open spec fn body_text(body: Option<Seq<char>>) -> Seq<char> {
    match body {
        Some(text) => text,
        None => Seq::empty(),
    }
}

/// What a response is classified as, given the document that its body holds
/// (`None` where the body is not JSON):
/// - with a status outside the success range, a failed request with the status
///   and the body's text, whatever the body holds;
/// - else, without a readable body, without a document in it, or with a
///   document that does not read as a `T`, a decode error;
/// - else the value read.
pub open spec fn classified<T: FromJson>(
    status: u16,
    body: Option<Seq<char>>,
    doc: Option<JsonTree>,
) -> Result<T::V, ClientErrorView> {
    if !is_success(status) {
        Err(ClientErrorView::RequestFailed { status, body: body_text(body) })
    } else if body is None {
        Err(ClientErrorView::DeserializationError(DecodeError::Unreadable))
    } else {
        match doc {
            None => Err(ClientErrorView::DeserializationError(DecodeError::Malformed)),
            Some(tree) => match T::decoded(tree) {
                Ok(value) => Ok(value),
                Err(e) => Err(ClientErrorView::DeserializationError(e)),
            },
        }
    }
}

/// The document in a body that may not have been read.
pub open spec fn body_document(body: Option<Seq<char>>) -> Option<JsonTree> {
    match body {
        Some(text) => parsed_document(text),
        None => None,
    }
}

/// The model of what a classification returned.
pub open spec fn classified_view<T: View>(r: Result<T, ClientError>) -> Result<
    T::V,
    ClientErrorView,
> {
    match r {
        Ok(value) => Ok(value@),
        Err(e) => Err(e@),
    }
}

/// A status outside the success range gives a failed request, with the status
/// and the text of the body, whether or not the body holds a document that
/// would read as a `T`.
pub proof fn lemma_failure_status_wins<T: FromJson>(
    status: u16,
    body: Option<Seq<char>>,
    doc: Option<JsonTree>,
)
    requires
        !is_success(status),
    ensures
        classified::<T>(status, body, doc) == Err::<T::V, ClientErrorView>(
            ClientErrorView::RequestFailed { status, body: body_text(body) },
        ),
{
}

/// A success status gives a value only where the body holds a document that
/// reads as a `T`, and then that value; a document that does not read gives
/// the decode error of its reading, never a value.
pub proof fn lemma_success_status_decodes<T: FromJson>(
    status: u16,
    body: Seq<char>,
    tree: JsonTree,
)
    requires
        is_success(status),
    ensures
        classified::<T>(status, Some(body), Some(tree)) == (match T::decoded(tree) {
            Ok(value) => Ok::<T::V, ClientErrorView>(value),
            Err(e) => Err(ClientErrorView::DeserializationError(e)),
        }),
        classified::<T>(status, Some(body), None) == Err::<T::V, ClientErrorView>(
            ClientErrorView::DeserializationError(DecodeError::Malformed),
        ),
        classified::<T>(status, None, None) == Err::<T::V, ClientErrorView>(
            ClientErrorView::DeserializationError(DecodeError::Unreadable),
        ),
{
}

/// Whether `status` reports success.
pub fn status_is_success(status: u16) -> (ok: bool)
    ensures
        ok == is_success(status),
{
    200 <= status && status <= 299
}

/// Lets a response with a success status through, unchanged; turns any other
/// into a failed request with the status and the body's text (empty where the
/// body could not be read).
pub fn check_is_success(response: RawResponse) -> (r: Result<RawResponse, ClientError>)
    ensures
        match r {
            Ok(kept) => is_success(response.status) && kept == response,
            Err(e) => !is_success(response.status) && e@ == (ClientErrorView::RequestFailed {
                status: response.status,
                body: body_text(optional_text_view(response.body)),
            }),
        },
{
    if status_is_success(response.status) {
        Ok(response)
    } else {
        let status = response.status;
        let body = match response.body {
            Some(text) => text,
            None => String::new(),
        };
        Err(ClientError::RequestFailed { status, body })
    }
}

/// Classifies a response whose body has been looked at already: `doc` is the
/// document that the body holds, or `None` where it holds none.
pub fn classify_document<T: FromJson>(response: RawResponse, doc: Option<JsonValue>) -> (r: Result<
    T,
    ClientError,
>)
    ensures
        classified_view(r) == classified::<T>(
            response.status,
            optional_text_view(response.body),
            parsed_view(doc),
        ),
{
    let response = check_is_success(response)?;
    if response.body.is_none() {
        return Err(ClientError::DeserializationError(DecodeError::Unreadable));
    }
    match doc {
        None => Err(ClientError::DeserializationError(DecodeError::Malformed)),
        Some(value) => match T::from_json(&value) {
            Ok(decoded) => Ok(decoded),
            Err(e) => Err(ClientError::DeserializationError(e)),
        },
    }
}

/// Classifies a response: a failed request, a decode error, or the value that
/// its body holds. The status is looked at first; the body of a response with
/// a status outside the success range is handed on as text and never read as
/// a document.
pub fn check_status_code_and_deserialize<T: FromJson>(response: RawResponse) -> (r: Result<
    T,
    ClientError,
>)
    ensures
        classified_view(r) == classified::<T>(
            response.status,
            optional_text_view(response.body),
            body_document(optional_text_view(response.body)),
        ),
{
    let response = check_is_success(response)?;
    let doc = match &response.body {
        Some(text) => parse_json(text.as_str()),
        None => None,
    };
    classify_document(response, doc)
}

/// How a call is made.
#[derive(Debug, Clone, Copy, PartialEq, Eq, Structural)]
pub enum Method {
    Get,
    Post,
}

/// One HTTP call, described: the caller makes it as it stands.
#[derive(Debug, PartialEq, Eq)]
pub struct HttpCall {
    pub method: Method,
    /// The address to call: the base address with the path of the operation.
    pub url: String,
    /// The query parameters, in the order in which they are written.
    pub query: Vec<(String, String)>,
    /// The JSON body, for a call that has one.
    pub body: Option<JsonValue>,
}

impl JupiterSwapApiClient {
    /// Binds a client to `base_path`; nothing is contacted.
    pub fn new(base_path: String) -> (client: Self)
        ensures
            client.base_path == base_path,
    {
        Self { base_path }
    }

    /// The address of the operation at `path`: the base address, then `path`.
    pub fn endpoint(&self, path: &str) -> (url: String)
        ensures
            url@ == self.base_path@ + path@,
    {
        self.base_path.clone().concat(path)
    }

    /// The call that asks for a quote: a GET of `/quote` with the parameters of
    /// the request's fields and its further parameters applied to them, and no body.
    pub fn quote_call(&self, quote_request: &QuoteRequest) -> (call: HttpCall)
        ensures
            call.method == Method::Get,
            call.url@ == self.base_path@ + "/quote"@,
            pairs_view(call.query@) == quote_query(quote_request@),
            call.body is None,
    {
        HttpCall {
            method: Method::Get,
            url: self.endpoint("/quote"),
            query: quote_request.query_pairs(),
            body: None,
        }
    }

    /// The call that asks for the transaction of a swap: a POST of `/swap`
    /// with `extra_args` as its query and the request as its JSON body.
    pub fn swap_call(
        &self,
        swap_request: &SwapRequest,
        extra_args: Option<Vec<(String, String)>>,
    ) -> (call: HttpCall)
        ensures
            call.method == Method::Post,
            call.url@ == self.base_path@ + "/swap"@,
            pairs_view(call.query@) == pairs_or_none(optional_pairs_view(extra_args)),
            parsed_view(call.body) == Some(SwapRequest::encoded(swap_request@)),
    {
        let query = match extra_args {
            Some(pairs) => pairs,
            None => {
                let none: Vec<(String, String)> = Vec::new();
                assert(pairs_view(none@) =~= Seq::empty());
                none
            },
        };
        HttpCall {
            method: Method::Post,
            url: self.endpoint("/swap"),
            query,
            body: Some(swap_request.to_json()),
        }
    }

    /// The call that asks for the instructions of a swap: a POST of
    /// `/swap-instructions` with no query and the request as its JSON body.
    pub fn swap_instructions_call(&self, swap_request: &SwapRequest) -> (call: HttpCall)
        ensures
            call.method == Method::Post,
            call.url@ == self.base_path@ + "/swap-instructions"@,
            call.query@.len() == 0,
            parsed_view(call.body) == Some(SwapRequest::encoded(swap_request@)),
    {
        HttpCall {
            method: Method::Post,
            url: self.endpoint("/swap-instructions"),
            query: Vec::new(),
            body: Some(swap_request.to_json()),
        }
    }

    /// The call that looks up the prices that `price_request` asks for: a GET
    /// of `/price/v2` with the request's parameters and no body.
    pub fn get_prices_call(&self, price_request: &PriceRequest) -> (call: HttpCall)
        ensures
            call.method == Method::Get,
            call.url@ == self.base_path@ + "/price/v2"@,
            pairs_view(call.query@) == price_query(price_request@),
            call.body is None,
    {
        HttpCall {
            method: Method::Get,
            url: self.endpoint("/price/v2"),
            query: price_request.query_pairs(),
            body: None,
        }
    }

    /// The call that looks up the price of one token against the service's
    /// reference token: the lookup of a request for that token with nothing else set.
    pub fn get_token_price_call(&self, token_mint: &Pubkey) -> (call: HttpCall)
        ensures
            call.method == Method::Get,
            call.url@ == self.base_path@ + "/price/v2"@,
            pairs_view(call.query@) == price_query(
                PriceRequestView {
                    ids: pubkey_text(*token_mint),
                    vs_token: None,
                    show_extra_info: None,
                },
            ),
            call.body is None,
    {
        let request = PriceRequest::new_single(token_mint);
        self.get_prices_call(&request)
    }

    /// The call that looks up the prices of several tokens against the
    /// service's reference token.
    pub fn get_token_prices_call(&self, token_mints: &[Pubkey]) -> (call: HttpCall)
        ensures
            call.method == Method::Get,
            call.url@ == self.base_path@ + "/price/v2"@,
            pairs_view(call.query@) == price_query(
                PriceRequestView {
                    ids: join_spec(pubkey_texts(token_mints@), ","@),
                    vs_token: None,
                    show_extra_info: None,
                },
            ),
            call.body is None,
    {
        let request = PriceRequest::new_multiple(token_mints);
        self.get_prices_call(&request)
    }

    /// The call that looks up the price of one token against another.
    pub fn get_token_pair_price_call(&self, token_mint: &Pubkey, vs_token: &Pubkey) -> (call:
        HttpCall)
        ensures
            call.method == Method::Get,
            call.url@ == self.base_path@ + "/price/v2"@,
            pairs_view(call.query@) == price_query(
                PriceRequestView {
                    ids: pubkey_text(*token_mint),
                    vs_token: Some(pubkey_text(*vs_token)),
                    show_extra_info: None,
                },
            ),
            call.body is None,
    {
        let request = PriceRequest::new_single(token_mint).with_vs_token(vs_token);
        self.get_prices_call(&request)
    }

    /// The call that looks up the price of one token with the extra detail.
    pub fn get_detailed_price_call(&self, token_mint: &Pubkey) -> (call: HttpCall)
        ensures
            call.method == Method::Get,
            call.url@ == self.base_path@ + "/price/v2"@,
            pairs_view(call.query@) == price_query(
                PriceRequestView {
                    ids: pubkey_text(*token_mint),
                    vs_token: None,
                    show_extra_info: Some(true),
                },
            ),
            call.body is None,
    {
        let request = PriceRequest::new_single(token_mint).with_extra_info(true);
        self.get_prices_call(&request)
    }
}

/// What a response to a request for the instructions of a swap is classified
/// as: the response is classified as the wire shape of the instructions, and a
/// value that was read is put into the public shape.
pub open spec fn classified_instructions(
    status: u16,
    body: Option<Seq<char>>,
    doc: Option<JsonTree>,
) -> Result<SwapInstructionsResponseView, ClientErrorView> {
    match classified::<SwapInstructionsResponseInternal>(status, body, doc) {
        Ok(internal) => Ok(normal_instructions(internal)),
        Err(e) => Err(e),
    }
}

/// Classifies the response to a request for the instructions of a swap.
pub fn classify_swap_instructions(response: RawResponse) -> (r: Result<
    SwapInstructionsResponse,
    ClientError,
>)
    ensures
        classified_view(r) == classified_instructions(
            response.status,
            optional_text_view(response.body),
            body_document(optional_text_view(response.body)),
        ),
{
    match check_status_code_and_deserialize::<SwapInstructionsResponseInternal>(response) {
        Ok(internal) => Ok(SwapInstructionsResponse::from_internal(internal)),
        Err(e) => Err(e),
    }
}

} // verus!

//! The quote: the request for one, and the quote that comes back.
//!
//! A quote is read from a response and written again into the body of the
//! swap that executes it, so it has both a reader and a writer, and the two
//! are proved to be inverse to each other.

use vstd::prelude::*;
use vstd::string::*;
use solana_sdk::pubkey::Pubkey;
use crate::address::{pubkey_text, pubkey_to_string};
use crate::decode::{FromJson, ToJson, decode_items, item_decoder, lemma_try_map_ok, try_map, views};
use crate::json::{
    DecodeError, JsonTree, JsonValue, as_members, find, get_required_items, get_required_text,
    get_required_text_integer, items_view, lemma_member_concat, lemma_view_parts, member,
    members_of, members_view, required_items, required_text, required_text_integer,
};
use crate::price::field_as_string_option;
use crate::entries::{
    has_key, last_value_of, lemma_position_of, lemma_value_of_has_key, value_of,
};
use crate::query::{lemma_merge_value, merge, merge_spec, pairs_view};
use crate::route_plan_with_metadata::{
    RoutePlanStep, RoutePlanStepView, lemma_step_keys_differ, lemma_step_roundtrip, step_members,
    step_wf,
};
use crate::text::{camel_case, camel_from, decimal, decimal_string, lemma_decimal_roundtrip};

verus! {

/// The parameters of a quote.
#[derive(Debug, Clone)]
pub struct QuoteRequest {
    /// The address of the token to give.
    pub input_mint: Pubkey,
    /// The address of the token to get.
    pub output_mint: Pubkey,
    /// The amount to give, in the smallest unit of the token.
    pub amount: u64,
    /// How far the price may slip, in hundredths of a percent; the service
    /// takes its own tolerance where this is unset.
    pub slippage_bps: Option<u16>,
    /// Further query parameters, by name. They are written after the
    /// parameters above and win over them where a name is the same.
    pub quote_args: Option<Vec<(String, String)>>,
}

/// The model of a [`QuoteRequest`].
pub struct QuoteRequestView {
    pub input_mint: Seq<char>,
    pub output_mint: Seq<char>,
    pub amount: u64,
    pub slippage_bps: Option<u16>,
    pub quote_args: Option<Seq<(Seq<char>, Seq<char>)>>,
}

/// The model of further parameters that may be there.
pub open spec fn optional_pairs_view(pairs: Option<Vec<(String, String)>>) -> Option<
    Seq<(Seq<char>, Seq<char>)>,
> {
    match pairs {
        Some(list) => Some(pairs_view(list@)),
        None => None,
    }
}

/// Further parameters that may be there, as a list: empty where there are none.
pub open spec fn pairs_or_none(pairs: Option<Seq<(Seq<char>, Seq<char>)>>) -> Seq<
    (Seq<char>, Seq<char>),
> {
    match pairs {
        Some(list) => list,
        None => Seq::empty(),
    }
}

impl View for QuoteRequest {
    type V = QuoteRequestView;

    open spec fn view(&self) -> QuoteRequestView {
        QuoteRequestView {
            input_mint: pubkey_text(self.input_mint),
            output_mint: pubkey_text(self.output_mint),
            amount: self.amount,
            slippage_bps: self.slippage_bps,
            quote_args: optional_pairs_view(self.quote_args),
        }
    }
}

/// The parameters that are written for the fields of a quote request, without
/// the further ones: `inputMint`, `outputMint`, `amount`, then `slippageBps`
/// where it is set.
pub open spec fn quote_fields(request: QuoteRequestView) -> Seq<(Seq<char>, Seq<char>)> {
    seq![
        ("inputMint"@, request.input_mint),
        ("outputMint"@, request.output_mint),
        ("amount"@, decimal(request.amount as nat)),
    ] + (match request.slippage_bps {
        Some(bps) => seq![("slippageBps"@, decimal(bps as nat))],
        None => seq![],
    })
}

/// The query of a quote request: the parameters of its fields, with the
/// further ones applied to them.
pub open spec fn quote_query(request: QuoteRequestView) -> Seq<(Seq<char>, Seq<char>)> {
    merge_spec(quote_fields(request), pairs_or_none(request.quote_args))
}

/// The four parameter names of a quote request differ from one another.
pub proof fn lemma_quote_keys_differ()
    ensures
        "inputMint"@ != "outputMint"@,
        "inputMint"@ != "amount"@,
        "inputMint"@ != "slippageBps"@,
        "outputMint"@ != "amount"@,
        "outputMint"@ != "slippageBps"@,
        "amount"@ != "slippageBps"@,
{
    reveal_strlit("inputMint");
    reveal_strlit("outputMint");
    reveal_strlit("amount");
    reveal_strlit("slippageBps");
    assert("inputMint"@.len() == 9);
    assert("outputMint"@.len() == 10);
    assert("amount"@.len() == 6);
    assert("slippageBps"@.len() == 11);
}

/// Among the parameters of the fields, an unset `slippage_bps` has none, and
/// a set one has its decimal text.
pub proof fn lemma_quote_fields(request: QuoteRequestView)
    ensures
        value_of(quote_fields(request), "inputMint"@) == Some(request.input_mint),
        value_of(quote_fields(request), "outputMint"@) == Some(request.output_mint),
        value_of(quote_fields(request), "amount"@) == Some(decimal(request.amount as nat)),
        value_of(quote_fields(request), "slippageBps"@) == (match request.slippage_bps {
            Some(bps) => Some(decimal(bps as nat)),
            None => None,
        }),
        request.slippage_bps is None ==> !has_key(quote_fields(request), "slippageBps"@),
{
    lemma_quote_keys_differ();
    let q = quote_fields(request);
    lemma_value_of_has_key(q, "slippageBps"@);
    lemma_position_of(q, "inputMint"@);
    lemma_position_of(q, "outputMint"@);
    lemma_position_of(q, "amount"@);
    lemma_position_of(q, "slippageBps"@);
    assert(q[0].0 == "inputMint"@);
    assert(q[1].0 == "outputMint"@);
    assert(q[2].0 == "amount"@);
    if q.len() > 3 {
        assert(q[3].0 == "slippageBps"@);
    }
}

/// In the query of a quote request, a name that the further parameters hold
/// has the value that they gave it last; any other name has the value of its
/// field, and none where that field is unset.
pub proof fn lemma_quote_query_precedence(request: QuoteRequestView, key: Seq<char>)
    ensures
        value_of(quote_query(request), key) == (match last_value_of(
            pairs_or_none(request.quote_args),
            key,
        ) {
            Some(value) => Some(value),
            None => value_of(quote_fields(request), key),
        }),
{
    lemma_merge_value(quote_fields(request), pairs_or_none(request.quote_args), key);
}

impl QuoteRequest {
    /// A request to quote `amount` of the token at `input_mint` in the token
    /// at `output_mint`, with nothing else set.
    pub fn new(input_mint: Pubkey, output_mint: Pubkey, amount: u64) -> (request: Self)
        ensures
            request@ == (QuoteRequestView {
                input_mint: pubkey_text(input_mint),
                output_mint: pubkey_text(output_mint),
                amount,
                slippage_bps: None,
                quote_args: None,
            }),
    {
        Self { input_mint, output_mint, amount, slippage_bps: None, quote_args: None }
    }

    /// The same request, with the slippage tolerance set.
    pub fn with_slippage_bps(self, slippage_bps: u16) -> (request: Self)
        ensures
            request@ == (QuoteRequestView { slippage_bps: Some(slippage_bps), ..self@ }),
    {
        let mut request = self;
        request.slippage_bps = Some(slippage_bps);
        request
    }

    /// The same request, with `quote_args` as its further parameters.
    pub fn with_quote_args(self, quote_args: Vec<(String, String)>) -> (request: Self)
        ensures
            request@ == (QuoteRequestView { quote_args: Some(pairs_view(quote_args@)), ..self@ }),
    {
        let mut request = self;
        request.quote_args = Some(quote_args);
        request
    }

    /// The parameters of the fields of this request, without the further ones.
    pub fn field_pairs(&self) -> (pairs: Vec<(String, String)>)
        ensures
            pairs_view(pairs@) == quote_fields(self@),
    {
        let mut pairs: Vec<(String, String)> = Vec::new();
        pairs.push(("inputMint".to_owned(), pubkey_to_string(&self.input_mint)));
        pairs.push(("outputMint".to_owned(), pubkey_to_string(&self.output_mint)));
        pairs.push(("amount".to_owned(), decimal_string(self.amount)));
        match self.slippage_bps {
            Some(bps) => {
                pairs.push(("slippageBps".to_owned(), decimal_string(bps as u64)));
            },
            None => {},
        }
        assert(pairs_view(pairs@) =~= quote_fields(self@));
        pairs
    }

    /// The query of this request: the parameters of its fields, with the
    /// further ones applied to them.
    pub fn query_pairs(&self) -> (pairs: Vec<(String, String)>)
        ensures
            pairs_view(pairs@) == quote_query(self@),
    {
        let fields = self.field_pairs();
        match &self.quote_args {
            Some(extra) => merge(fields, extra),
            None => fields,
        }
    }
}

/// A quote: what the service offers for a swap, and by what route.
#[derive(Debug, Clone, PartialEq, Eq)]
pub struct QuoteResponse {
    /// The address of the token to give.
    pub input_mint: String,
    /// The amount to give.
    pub in_amount: u64,
    /// The address of the token to get.
    pub output_mint: String,
    /// The amount to get.
    pub out_amount: u64,
    /// The least amount to get once slippage is taken off, where the service states it.
    pub other_amount_threshold: Option<u64>,
    /// How far the swap moves the price: the decimal text that the service sent.
    pub price_impact_pct: String,
    /// The hops of the route, in the order in which they are executed.
    pub route_plan: Vec<RoutePlanStep>,
}

/// The model of a [`QuoteResponse`].
pub struct QuoteResponseView {
    pub input_mint: Seq<char>,
    pub in_amount: u64,
    pub output_mint: Seq<char>,
    pub out_amount: u64,
    pub other_amount_threshold: Option<u64>,
    pub price_impact_pct: Seq<char>,
    pub route_plan: Seq<RoutePlanStepView>,
}

impl View for QuoteResponse {
    type V = QuoteResponseView;

    open spec fn view(&self) -> QuoteResponseView {
        QuoteResponseView {
            input_mint: self.input_mint@,
            in_amount: self.in_amount,
            output_mint: self.output_mint@,
            out_amount: self.out_amount,
            other_amount_threshold: self.other_amount_threshold,
            price_impact_pct: self.price_impact_pct@,
            route_plan: views(self.route_plan@),
        }
    }
}

/// A quote is well formed where each of its hops is.
pub open spec fn quote_wf(quote: QuoteResponseView) -> bool {
    forall|i: int| 0 <= i < quote.route_plan.len() ==> step_wf(#[trigger] quote.route_plan[i])
}

/// What an object with the members `members` holds, read as a quote.
pub open spec fn quote_of(members: Seq<(Seq<char>, JsonTree)>) -> Result<
    QuoteResponseView,
    DecodeError,
> {
    match required_text(members, "inputMint"@) {
        Err(e) => Err(e),
        Ok(input_mint) => match required_text_integer(members, "inAmount"@) {
            Err(e) => Err(e),
            Ok(in_amount) => match required_text(members, "outputMint"@) {
                Err(e) => Err(e),
                Ok(output_mint) => match required_text_integer(members, "outAmount"@) {
                    Err(e) => Err(e),
                    Ok(out_amount) => match field_as_string_option::decoded(
                        member(members, "otherAmountThreshold"@),
                    ) {
                        Err(e) => Err(e),
                        Ok(other_amount_threshold) => match required_text(
                            members,
                            "priceImpactPct"@,
                        ) {
                            Err(e) => Err(e),
                            Ok(price_impact_pct) => match required_items(members, "routePlan"@) {
                                Err(e) => Err(e),
                                Ok(items) => match try_map(
                                    items,
                                    item_decoder::<RoutePlanStep>(),
                                ) {
                                    Err(e) => Err(e),
                                    Ok(route_plan) => Ok(
                                        QuoteResponseView {
                                            input_mint,
                                            in_amount,
                                            output_mint,
                                            out_amount,
                                            other_amount_threshold,
                                            price_impact_pct,
                                            route_plan,
                                        },
                                    ),
                                },
                            },
                        },
                    },
                },
            },
        },
    }
}

/// The documents that are written for the hops `steps`, in order.
pub open spec fn encoded_steps(steps: Seq<RoutePlanStepView>) -> Seq<JsonTree> {
    Seq::new(steps.len(), |i: int| JsonTree::Object(step_members(steps[i])))
}

/// The first members of a quote, as they are written.
pub open spec fn quote_head(quote: QuoteResponseView) -> Seq<(Seq<char>, JsonTree)> {
    seq![
        ("inputMint"@, JsonTree::Text(quote.input_mint)),
        ("inAmount"@, JsonTree::Text(decimal(quote.in_amount as nat))),
        ("outputMint"@, JsonTree::Text(quote.output_mint)),
        ("outAmount"@, JsonTree::Text(decimal(quote.out_amount as nat))),
    ]
}

/// The member that is written for the threshold: none where it is unset.
pub open spec fn quote_threshold(quote: QuoteResponseView) -> Seq<(Seq<char>, JsonTree)> {
    match field_as_string_option::encoded(quote.other_amount_threshold) {
        Some(text) => seq![("otherAmountThreshold"@, text)],
        None => seq![],
    }
}

/// The last members of a quote, as they are written.
pub open spec fn quote_tail(quote: QuoteResponseView) -> Seq<(Seq<char>, JsonTree)> {
    seq![
        ("priceImpactPct"@, JsonTree::Text(quote.price_impact_pct)),
        ("routePlan"@, JsonTree::Array(encoded_steps(quote.route_plan))),
    ]
}

/// The members that are written for a quote, in order.
pub open spec fn quote_members(quote: QuoteResponseView) -> Seq<(Seq<char>, JsonTree)> {
    quote_head(quote) + quote_threshold(quote) + quote_tail(quote)
}

/// The names of the members of a quote differ from one another.
pub proof fn lemma_quote_member_keys_differ()
    ensures
        "otherAmountThreshold"@ != "inputMint"@,
        "otherAmountThreshold"@ != "inAmount"@,
        "otherAmountThreshold"@ != "outputMint"@,
        "otherAmountThreshold"@ != "outAmount"@,
        "otherAmountThreshold"@ != "priceImpactPct"@,
        "otherAmountThreshold"@ != "routePlan"@,
        "priceImpactPct"@ != "inputMint"@,
        "priceImpactPct"@ != "inAmount"@,
        "priceImpactPct"@ != "outputMint"@,
        "priceImpactPct"@ != "outAmount"@,
        "priceImpactPct"@ != "routePlan"@,
        "routePlan"@ != "inputMint"@,
        "routePlan"@ != "inAmount"@,
        "routePlan"@ != "outputMint"@,
        "routePlan"@ != "outAmount"@,
{
    reveal_strlit("inputMint");
    reveal_strlit("inAmount");
    reveal_strlit("outputMint");
    reveal_strlit("outAmount");
    reveal_strlit("otherAmountThreshold");
    reveal_strlit("priceImpactPct");
    reveal_strlit("routePlan");
    assert("inputMint"@.len() == 9 && "inputMint"@[0] == 'i');
    assert("inAmount"@.len() == 8);
    assert("outputMint"@.len() == 10);
    assert("outAmount"@.len() == 9 && "outAmount"@[0] == 'o');
    assert("otherAmountThreshold"@.len() == 20);
    assert("priceImpactPct"@.len() == 14);
    assert("routePlan"@.len() == 9 && "routePlan"@[0] == 'r');
}

/// The members of a quote are found under their names in what is written for it.
pub proof fn lemma_quote_members_found(quote: QuoteResponseView)
    ensures
        member(quote_members(quote), "inputMint"@) == Some(JsonTree::Text(quote.input_mint)),
        member(quote_members(quote), "inAmount"@) == Some(
            JsonTree::Text(decimal(quote.in_amount as nat)),
        ),
        member(quote_members(quote), "outputMint"@) == Some(JsonTree::Text(quote.output_mint)),
        member(quote_members(quote), "outAmount"@) == Some(
            JsonTree::Text(decimal(quote.out_amount as nat)),
        ),
        member(quote_members(quote), "otherAmountThreshold"@) == field_as_string_option::encoded(
            quote.other_amount_threshold,
        ),
        member(quote_members(quote), "priceImpactPct"@) == Some(
            JsonTree::Text(quote.price_impact_pct),
        ),
        member(quote_members(quote), "routePlan"@) == Some(
            JsonTree::Array(encoded_steps(quote.route_plan)),
        ),
{
    lemma_step_keys_differ();
    lemma_quote_member_keys_differ();
    let head = quote_head(quote);
    let mid = quote_threshold(quote);
    let tail = quote_tail(quote);
    reveal_with_fuel(member, 5);
    let h1 = head.subrange(1, head.len() as int);
    let h2 = h1.subrange(1, h1.len() as int);
    let h3 = h2.subrange(1, h2.len() as int);
    assert(head[0].0 == "inputMint"@);
    assert(h1[0] == head[1]);
    assert(h2[0] == head[2]);
    assert(h3[0] == head[3]);
    assert(h3.subrange(1, h3.len() as int).len() == 0);
    let t1 = tail.subrange(1, tail.len() as int);
    assert(tail[0].0 == "priceImpactPct"@);
    assert(t1[0] == tail[1]);
    assert(t1.subrange(1, t1.len() as int).len() == 0);
    if mid.len() > 0 {
        assert(mid[0].0 == "otherAmountThreshold"@);
        assert(mid.subrange(1, mid.len() as int).len() == 0);
    }
    assert forall|key: Seq<char>| true implies member(quote_members(quote), key) == (match member(
        head,
        key,
    ) {
        Some(value) => Some(value),
        None => match member(mid, key) {
            Some(value) => Some(value),
            None => member(tail, key),
        },
    }) by {
        lemma_member_concat(head + mid, tail, key);
        lemma_member_concat(head, mid, key);
    }
}

/// The hops that are written for well-formed hops are read back as they were, in order.
pub proof fn lemma_steps_roundtrip(steps: Seq<RoutePlanStepView>)
    requires
        forall|i: int| 0 <= i < steps.len() ==> step_wf(#[trigger] steps[i]),
    ensures
        try_map(encoded_steps(steps), item_decoder::<RoutePlanStep>()) == Ok::<
            Seq<RoutePlanStepView>,
            DecodeError,
        >(steps),
    decreases steps.len(),
{
    let docs = encoded_steps(steps);
    if steps.len() == 0 {
        assert(steps =~= Seq::empty());
    } else {
        let fewer = steps.drop_last();
        assert forall|i: int| 0 <= i < fewer.len() implies step_wf(#[trigger] fewer[i]) by {
            assert(fewer[i] == steps[i]);
        }
        lemma_steps_roundtrip(fewer);
        assert(docs.drop_last() =~= encoded_steps(fewer));
        assert(docs.last() == JsonTree::Object(step_members(steps.last())));
        assert(step_wf(steps[steps.len() - 1]));
        lemma_step_roundtrip(steps.last());
        assert(fewer.push(steps.last()) =~= steps);
    }
}

/// A well-formed quote that is written and read again is the same quote:
/// every field has the value that it had.
pub proof fn lemma_quote_roundtrip(quote: QuoteResponseView)
    requires
        quote_wf(quote),
    ensures
        QuoteResponse::decoded(QuoteResponse::encoded(quote)) == Ok::<
            QuoteResponseView,
            DecodeError,
        >(quote),
{
    lemma_quote_members_found(quote);
    lemma_steps_roundtrip(quote.route_plan);
    lemma_decimal_roundtrip(quote.in_amount);
    lemma_decimal_roundtrip(quote.out_amount);
    field_as_string_option::lemma_roundtrip(quote.other_amount_threshold);
}

/// The hops of a quote that was read stand in the order of the array that
/// they were read from: the hop at each position is what the item at that
/// position holds, and there are as many hops as items.
pub proof fn lemma_route_plan_order(members: Seq<(Seq<char>, JsonTree)>)
    requires
        quote_of(members) is Ok,
    ensures
        required_items(members, "routePlan"@) is Ok,
        quote_of(members)->Ok_0.route_plan.len() == required_items(
            members,
            "routePlan"@,
        )->Ok_0.len(),
        forall|i: int|
            0 <= i < quote_of(members)->Ok_0.route_plan.len() ==> RoutePlanStep::decoded(
                required_items(members, "routePlan"@)->Ok_0[i],
            ) == Ok::<RoutePlanStepView, DecodeError>(
                #[trigger] quote_of(members)->Ok_0.route_plan[i],
            ),
{
    let items = required_items(members, "routePlan"@)->Ok_0;
    lemma_try_map_ok(items, item_decoder::<RoutePlanStep>());
}

impl FromJson for QuoteResponse {
    open spec fn decoded(doc: JsonTree) -> Result<QuoteResponseView, DecodeError> {
        match members_of(doc) {
            Err(e) => Err(e),
            Ok(members) => quote_of(members),
        }
    }

    fn from_json(doc: &JsonValue) -> (r: Result<Self, DecodeError>) {
        let members = as_members(doc)?;
        let input_mint = get_required_text(members, "inputMint")?;
        let in_amount = get_required_text_integer(members, "inAmount")?;
        let output_mint = get_required_text(members, "outputMint")?;
        let out_amount = get_required_text_integer(members, "outAmount")?;
        let other_amount_threshold = field_as_string_option::deserialize(
            find(members, "otherAmountThreshold"),
        )?;
        let price_impact_pct = get_required_text(members, "priceImpactPct")?;
        let items = get_required_items(members, "routePlan")?;
        let route_plan = decode_items::<RoutePlanStep>(items)?;
        Ok(
            QuoteResponse {
                input_mint,
                in_amount,
                output_mint,
                out_amount,
                other_amount_threshold,
                price_impact_pct,
                route_plan,
            },
        )
    }
}

impl ToJson for QuoteResponse {
    open spec fn encoded(value: QuoteResponseView) -> JsonTree {
        JsonTree::Object(quote_members(value))
    }

    fn to_json(&self) -> (doc: JsonValue) {
        let mut items: Vec<JsonValue> = Vec::new();
        let mut i: usize = 0;
        let ghost docs = encoded_steps(self@.route_plan);
        assert(docs.subrange(0, 0) =~= Seq::empty());
        assert(items_view(items@) =~= Seq::empty());
        while i < self.route_plan.len()
            invariant
                i <= self.route_plan.len(),
                docs == encoded_steps(self@.route_plan),
                docs.len() == self.route_plan.len(),
                items_view(items@) == docs.subrange(0, i as int),
            decreases self.route_plan.len() - i,
        {
            let ghost before = items_view(items@);
            let item = self.route_plan[i].to_json();
            items.push(item);
            assert(items_view(items@) =~= before.push(item@));
            assert(docs.subrange(0, i + 1) =~= docs.subrange(0, i as int).push(docs[i as int]));
            i = i + 1;
        }
        assert(docs.subrange(0, docs.len() as int) =~= docs);
        let array = JsonValue::Array(items);
        proof {
            lemma_view_parts(array);
        }
        let mut members: Vec<(String, JsonValue)> = Vec::new();
        members.push(("inputMint".to_owned(), JsonValue::Text(self.input_mint.clone())));
        members.push(("inAmount".to_owned(), JsonValue::Text(decimal_string(self.in_amount))));
        members.push(("outputMint".to_owned(), JsonValue::Text(self.output_mint.clone())));
        members.push(("outAmount".to_owned(), JsonValue::Text(decimal_string(self.out_amount))));
        match field_as_string_option::serialize(&self.other_amount_threshold) {
            Some(text) => {
                members.push(("otherAmountThreshold".to_owned(), text));
            },
            None => {},
        }
        members.push(
            ("priceImpactPct".to_owned(), JsonValue::Text(self.price_impact_pct.clone())),
        );
        members.push(("routePlan".to_owned(), array));
        assert(members_view(members@) =~= quote_members(self@));
        let doc = JsonValue::Object(members);
        proof {
            lemma_view_parts(doc);
        }
        doc
    }
}

/// What is read from any object as a quote is well formed.
pub proof fn lemma_quote_of_wf(members: Seq<(Seq<char>, JsonTree)>)
    requires
        quote_of(members) is Ok,
    ensures
        quote_wf(quote_of(members)->Ok_0),
{
    let quote = quote_of(members)->Ok_0;
    let items = required_items(members, "routePlan"@)->Ok_0;
    lemma_try_map_ok(items, item_decoder::<RoutePlanStep>());
    assert forall|i: int| 0 <= i < quote.route_plan.len() implies step_wf(
        #[trigger] quote.route_plan[i],
    ) by {
        assert(RoutePlanStep::decoded(items[i]) == Ok::<RoutePlanStepView, DecodeError>(
            quote.route_plan[i],
        ));
        crate::route_plan_with_metadata::lemma_step_of_wf(items[i]->Object_0);
    }
}

/// A quote that was read from a document, written again and read again, is
/// the quote that was read first: writing loses no field that is modelled.
pub proof fn lemma_quote_reencode(doc: JsonTree)
    requires
        QuoteResponse::decoded(doc) is Ok,
    ensures
        QuoteResponse::decoded(QuoteResponse::encoded(QuoteResponse::decoded(doc)->Ok_0))
            == QuoteResponse::decoded(doc),
{
    lemma_quote_of_wf(doc->Object_0);
    lemma_quote_roundtrip(QuoteResponse::decoded(doc)->Ok_0);
}

/// A quote is read only from an object that holds all of `inputMint`,
/// `inAmount`, `outputMint`, `outAmount`, `priceImpactPct` and `routePlan`,
/// each with a value of its type, and then each field is what its member
/// holds: where one of them is absent nothing is read.
pub proof fn lemma_quote_complete(members: Seq<(Seq<char>, JsonTree)>)
    requires
        quote_of(members) is Ok,
    ensures
        member(members, "inputMint"@) == Some(JsonTree::Text(quote_of(members)->Ok_0.input_mint)),
        required_text_integer(members, "inAmount"@) == Ok::<u64, DecodeError>(
            quote_of(members)->Ok_0.in_amount,
        ),
        member(members, "outputMint"@) == Some(
            JsonTree::Text(quote_of(members)->Ok_0.output_mint),
        ),
        required_text_integer(members, "outAmount"@) == Ok::<u64, DecodeError>(
            quote_of(members)->Ok_0.out_amount,
        ),
        member(members, "priceImpactPct"@) == Some(
            JsonTree::Text(quote_of(members)->Ok_0.price_impact_pct),
        ),
        member(members, "routePlan"@) is Some,
        member(members, "routePlan"@)->Some_0 is Array,
{
}

/// The parameters of a quote request and the members of a quote bear on the wire the
/// names of their fields in lower camel case.
pub proof fn lemma_quote_wire_names()
    ensures
        camel_case("input_mint"@) == "inputMint"@,
        camel_case("output_mint"@) == "outputMint"@,
        camel_case("amount"@) == "amount"@,
        camel_case("slippage_bps"@) == "slippageBps"@,
        camel_case("in_amount"@) == "inAmount"@,
        camel_case("out_amount"@) == "outAmount"@,
        camel_case("other_amount_threshold"@) == "otherAmountThreshold"@,
        camel_case("price_impact_pct"@) == "priceImpactPct"@,
        camel_case("route_plan"@) == "routePlan"@,
{
    reveal_strlit("input_mint");
    reveal_strlit("inputMint");
    reveal_strlit("output_mint");
    reveal_strlit("outputMint");
    reveal_strlit("amount");
    reveal_strlit("slippage_bps");
    reveal_strlit("slippageBps");
    reveal_strlit("in_amount");
    reveal_strlit("inAmount");
    reveal_strlit("out_amount");
    reveal_strlit("outAmount");
    reveal_strlit("other_amount_threshold");
    reveal_strlit("otherAmountThreshold");
    reveal_strlit("price_impact_pct");
    reveal_strlit("priceImpactPct");
    reveal_strlit("route_plan");
    reveal_strlit("routePlan");
    reveal_with_fuel(camel_from, 32);
    assert(camel_case("input_mint"@) =~= "inputMint"@);
    assert(camel_case("output_mint"@) =~= "outputMint"@);
    assert(camel_case("amount"@) =~= "amount"@);
    assert(camel_case("slippage_bps"@) =~= "slippageBps"@);
    assert(camel_case("in_amount"@) =~= "inAmount"@);
    assert(camel_case("out_amount"@) =~= "outAmount"@);
    assert(camel_case("other_amount_threshold"@) =~= "otherAmountThreshold"@);
    assert(camel_case("price_impact_pct"@) =~= "priceImpactPct"@);
    assert(camel_case("route_plan"@) =~= "routePlan"@);
}

} // verus!

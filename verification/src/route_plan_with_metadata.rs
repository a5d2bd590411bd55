//! The route of a swap: its hops, in the order in which they are executed.
//!
//! A hop has seven members that this library knows by name. A venue may add
//! members of its own; those are kept, by name and in order, so that a hop
//! that was read can be written back without loss.

use vstd::prelude::*;
use vstd::string::*;
use crate::decode::{
    FromJson, ToJson, lemma_try_put_all_ok, lemma_try_put_all_prefix_error, lemma_try_put_all_step,
    try_put_all,
};
use crate::entries::{distinct_names, lemma_position_of, lemma_put_new, put};
use crate::json::{
    DecodeError, JsonTree, JsonValue, as_members, get_required_text, get_required_text_integer,
    lemma_member_concat, lemma_view_parts, member, members_of, members_view, required_text,
    required_text_integer,
};
use crate::query::pairs_view;
use crate::text::{camel_case, camel_from, decimal, decimal_string, lemma_decimal_roundtrip, str_eq};

verus! {

/// One hop of a route.
#[derive(Debug, Clone, PartialEq, Eq)]
pub struct RoutePlanStep {
    /// The name of the venue that trades this hop.
    pub label: String,
    /// The address of the token that goes in.
    pub input_mint: String,
    /// The address of the token that comes out.
    pub output_mint: String,
    /// The amount that goes in.
    pub in_amount: u64,
    /// The amount that comes out.
    pub out_amount: u64,
    /// The address of the token in which the fee is paid.
    pub fee_mint: String,
    /// The fee.
    pub fee_amount: u64,
    /// What the venue says besides, by name, in the order in which the
    /// document that was read holds it.
    pub extra: Vec<(String, String)>,
}

/// The model of a [`RoutePlanStep`].
pub struct RoutePlanStepView {
    pub label: Seq<char>,
    pub input_mint: Seq<char>,
    pub output_mint: Seq<char>,
    pub in_amount: u64,
    pub out_amount: u64,
    pub fee_mint: Seq<char>,
    pub fee_amount: u64,
    pub extra: Seq<(Seq<char>, Seq<char>)>,
}

impl View for RoutePlanStep {
    type V = RoutePlanStepView;

    open spec fn view(&self) -> RoutePlanStepView {
        RoutePlanStepView {
            label: self.label@,
            input_mint: self.input_mint@,
            output_mint: self.output_mint@,
            in_amount: self.in_amount,
            out_amount: self.out_amount,
            fee_mint: self.fee_mint@,
            fee_amount: self.fee_amount,
            extra: pairs_view(self.extra@),
        }
    }
}

/// `key` names one of the seven members of a hop that this library knows.
pub open spec fn is_step_key(key: Seq<char>) -> bool {
    ||| key == "label"@
    ||| key == "inputMint"@
    ||| key == "outputMint"@
    ||| key == "inAmount"@
    ||| key == "outAmount"@
    ||| key == "feeMint"@
    ||| key == "feeAmount"@
}

/// A hop is well formed where its extra members are a map beside the known
/// ones: none of them bears the name of a known member, and no two bear the
/// same name.
pub open spec fn step_wf(step: RoutePlanStepView) -> bool {
    &&& forall|i: int| 0 <= i < step.extra.len() ==> !is_step_key(#[trigger] step.extra[i].0)
    &&& distinct_names(step.extra)
}

/// What one member of a hop adds to the extra members: nothing where it is a
/// known member, its name and text where it holds text; any other value is an error.
pub open spec fn extra_of_member(m: (Seq<char>, JsonTree)) -> Result<
    Option<(Seq<char>, Seq<char>)>,
    DecodeError,
> {
    if is_step_key(m.0) {
        Ok(None)
    } else {
        match m.1 {
            JsonTree::Text(text) => Ok(Some((m.0, text))),
            _ => Err(DecodeError::UnexpectedType),
        }
    }
}

/// The reader of the extra members of a hop.
pub open spec fn extra_reader() -> spec_fn((Seq<char>, JsonTree)) -> Result<
    Option<(Seq<char>, Seq<char>)>,
    DecodeError,
> {
    |m: (Seq<char>, JsonTree)| extra_of_member(m)
}

/// What an object with the members `members` holds, read as a hop.
pub open spec fn step_of(members: Seq<(Seq<char>, JsonTree)>) -> Result<
    RoutePlanStepView,
    DecodeError,
> {
    match required_text(members, "label"@) {
        Err(e) => Err(e),
        Ok(label) => match required_text(members, "inputMint"@) {
            Err(e) => Err(e),
            Ok(input_mint) => match required_text(members, "outputMint"@) {
                Err(e) => Err(e),
                Ok(output_mint) => match required_text_integer(members, "inAmount"@) {
                    Err(e) => Err(e),
                    Ok(in_amount) => match required_text_integer(members, "outAmount"@) {
                        Err(e) => Err(e),
                        Ok(out_amount) => match required_text(members, "feeMint"@) {
                            Err(e) => Err(e),
                            Ok(fee_mint) => match required_text_integer(members, "feeAmount"@) {
                                Err(e) => Err(e),
                                Ok(fee_amount) => match try_put_all(members, extra_reader()) {
                                    Err(e) => Err(e),
                                    Ok(extra) => Ok(
                                        RoutePlanStepView {
                                            label,
                                            input_mint,
                                            output_mint,
                                            in_amount,
                                            out_amount,
                                            fee_mint,
                                            fee_amount,
                                            extra,
                                        },
                                    ),
                                },
                            },
                        },
                    },
                },
            },
        },
    }
}

/// The seven known members of a hop, as they are written.
pub open spec fn known_members(step: RoutePlanStepView) -> Seq<(Seq<char>, JsonTree)> {
    seq![
        ("label"@, JsonTree::Text(step.label)),
        ("inputMint"@, JsonTree::Text(step.input_mint)),
        ("outputMint"@, JsonTree::Text(step.output_mint)),
        ("inAmount"@, JsonTree::Text(decimal(step.in_amount as nat))),
        ("outAmount"@, JsonTree::Text(decimal(step.out_amount as nat))),
        ("feeMint"@, JsonTree::Text(step.fee_mint)),
        ("feeAmount"@, JsonTree::Text(decimal(step.fee_amount as nat))),
    ]
}

/// Named texts as members of an object, in order.
pub open spec fn text_members(pairs: Seq<(Seq<char>, Seq<char>)>) -> Seq<(Seq<char>, JsonTree)> {
    Seq::new(pairs.len(), |i: int| (pairs[i].0, JsonTree::Text(pairs[i].1)))
}

/// The members that are written for a hop: the seven known ones, then the
/// extra ones beside them, in order.
pub open spec fn step_members(step: RoutePlanStepView) -> Seq<(Seq<char>, JsonTree)> {
    known_members(step) + text_members(step.extra)
}

/// The seven names of the known members differ from one another.
pub proof fn lemma_step_keys_differ()
    ensures
        "label"@ != "inputMint"@,
        "label"@ != "outputMint"@,
        "label"@ != "inAmount"@,
        "label"@ != "outAmount"@,
        "label"@ != "feeMint"@,
        "label"@ != "feeAmount"@,
        "inputMint"@ != "outputMint"@,
        "inputMint"@ != "inAmount"@,
        "inputMint"@ != "outAmount"@,
        "inputMint"@ != "feeMint"@,
        "inputMint"@ != "feeAmount"@,
        "outputMint"@ != "inAmount"@,
        "outputMint"@ != "outAmount"@,
        "outputMint"@ != "feeMint"@,
        "outputMint"@ != "feeAmount"@,
        "inAmount"@ != "outAmount"@,
        "inAmount"@ != "feeMint"@,
        "inAmount"@ != "feeAmount"@,
        "outAmount"@ != "feeMint"@,
        "outAmount"@ != "feeAmount"@,
        "feeMint"@ != "feeAmount"@,
{
    reveal_strlit("label");
    reveal_strlit("inputMint");
    reveal_strlit("outputMint");
    reveal_strlit("inAmount");
    reveal_strlit("outAmount");
    reveal_strlit("feeMint");
    reveal_strlit("feeAmount");
    assert("label"@.len() == 5);
    assert("inputMint"@.len() == 9 && "inputMint"@[0] == 'i');
    assert("outputMint"@.len() == 10);
    assert("inAmount"@.len() == 8);
    assert("outAmount"@.len() == 9 && "outAmount"@[0] == 'o');
    assert("feeMint"@.len() == 7);
    assert("feeAmount"@.len() == 9 && "feeAmount"@[0] == 'f');
}

/// The known members of a hop are found under their names, also with extra
/// members written after them.
pub proof fn lemma_known_members_found(step: RoutePlanStepView, rest: Seq<(Seq<char>, JsonTree)>)
    ensures
        member(known_members(step) + rest, "label"@) == Some(JsonTree::Text(step.label)),
        member(known_members(step) + rest, "inputMint"@) == Some(
            JsonTree::Text(step.input_mint),
        ),
        member(known_members(step) + rest, "outputMint"@) == Some(
            JsonTree::Text(step.output_mint),
        ),
        member(known_members(step) + rest, "inAmount"@) == Some(
            JsonTree::Text(decimal(step.in_amount as nat)),
        ),
        member(known_members(step) + rest, "outAmount"@) == Some(
            JsonTree::Text(decimal(step.out_amount as nat)),
        ),
        member(known_members(step) + rest, "feeMint"@) == Some(JsonTree::Text(step.fee_mint)),
        member(known_members(step) + rest, "feeAmount"@) == Some(
            JsonTree::Text(decimal(step.fee_amount as nat)),
        ),
{
    lemma_step_keys_differ();
    let known = known_members(step);
    lemma_member_concat(known, rest, "label"@);
    lemma_member_concat(known, rest, "inputMint"@);
    lemma_member_concat(known, rest, "outputMint"@);
    lemma_member_concat(known, rest, "inAmount"@);
    lemma_member_concat(known, rest, "outAmount"@);
    lemma_member_concat(known, rest, "feeMint"@);
    lemma_member_concat(known, rest, "feeAmount"@);
    reveal_with_fuel(member, 8);
    let k1 = known.subrange(1, known.len() as int);
    let k2 = k1.subrange(1, k1.len() as int);
    let k3 = k2.subrange(1, k2.len() as int);
    let k4 = k3.subrange(1, k3.len() as int);
    let k5 = k4.subrange(1, k4.len() as int);
    let k6 = k5.subrange(1, k5.len() as int);
    assert(known[0].0 == "label"@);
    assert(k1[0] == known[1]);
    assert(k2[0] == known[2]);
    assert(k3[0] == known[3]);
    assert(k4[0] == known[4]);
    assert(k5[0] == known[5]);
    assert(k6[0] == known[6]);
}

/// Of the members written for a well-formed hop, the extra ones are read back as they were.
pub proof fn lemma_extras_read_back(step: RoutePlanStepView, n: int)
    requires
        step_wf(step),
        0 <= n <= step.extra.len(),
    ensures
        try_put_all(
            known_members(step) + text_members(step.extra.subrange(0, n)),
            extra_reader(),
        ) == Ok::<Seq<(Seq<char>, Seq<char>)>, DecodeError>(step.extra.subrange(0, n)),
    decreases n,
{
    let f = extra_reader();
    let known = known_members(step);
    if n == 0 {
        let all = known + text_members(step.extra.subrange(0, 0));
        assert(all =~= known);
        assert(step.extra.subrange(0, 0) =~= Seq::empty());
        let k6 = known.drop_last();
        let k5 = k6.drop_last();
        let k4 = k5.drop_last();
        let k3 = k4.drop_last();
        let k2 = k3.drop_last();
        let k1 = k2.drop_last();
        let k0 = k1.drop_last();
        assert(k0.len() == 0);
        assert(try_put_all(k0, f) == Ok::<Seq<(Seq<char>, Seq<char>)>, DecodeError>(
            Seq::empty(),
        ));
        assert(k1.last() == known[0]);
        assert(try_put_all(k1, f) == Ok::<Seq<(Seq<char>, Seq<char>)>, DecodeError>(
            Seq::empty(),
        ));
        assert(k2.last() == known[1]);
        assert(try_put_all(k2, f) == Ok::<Seq<(Seq<char>, Seq<char>)>, DecodeError>(
            Seq::empty(),
        ));
        assert(k3.last() == known[2]);
        assert(try_put_all(k3, f) == Ok::<Seq<(Seq<char>, Seq<char>)>, DecodeError>(
            Seq::empty(),
        ));
        assert(k4.last() == known[3]);
        assert(try_put_all(k4, f) == Ok::<Seq<(Seq<char>, Seq<char>)>, DecodeError>(
            Seq::empty(),
        ));
        assert(k5.last() == known[4]);
        assert(try_put_all(k5, f) == Ok::<Seq<(Seq<char>, Seq<char>)>, DecodeError>(
            Seq::empty(),
        ));
        assert(k6.last() == known[5]);
        assert(try_put_all(k6, f) == Ok::<Seq<(Seq<char>, Seq<char>)>, DecodeError>(
            Seq::empty(),
        ));
        assert(known.last() == known[6]);
    } else {
        lemma_extras_read_back(step, n - 1);
        let all = known + text_members(step.extra.subrange(0, n));
        let before = known + text_members(step.extra.subrange(0, n - 1));
        assert(all.drop_last() =~= before);
        assert(all.last() == (step.extra[n - 1].0, JsonTree::Text(step.extra[n - 1].1)));
        assert(!is_step_key(step.extra[n - 1].0));
        let earlier = step.extra.subrange(0, n - 1);
        assert forall|j: int| 0 <= j < earlier.len() implies (#[trigger] earlier[j]).0
            != step.extra[n - 1].0 by {
            assert(earlier[j] == step.extra[j]);
        }
        lemma_put_new(earlier, step.extra[n - 1].0, step.extra[n - 1].1);
        assert(step.extra.subrange(0, n) =~= earlier.push(step.extra[n - 1]));
    }
}

/// A well-formed hop that is written and read again is the same hop.
pub proof fn lemma_step_roundtrip(step: RoutePlanStepView)
    requires
        step_wf(step),
    ensures
        step_of(step_members(step)) == Ok::<RoutePlanStepView, DecodeError>(step),
{
    lemma_known_members_found(step, text_members(step.extra));
    lemma_extras_read_back(step, step.extra.len() as int);
    assert(step.extra.subrange(0, step.extra.len() as int) =~= step.extra);
    lemma_decimal_roundtrip(step.in_amount);
    lemma_decimal_roundtrip(step.out_amount);
    lemma_decimal_roundtrip(step.fee_amount);
}

/// What is read from any object as a hop is well formed.
pub proof fn lemma_step_of_wf(members: Seq<(Seq<char>, JsonTree)>)
    requires
        step_of(members) is Ok,
    ensures
        step_wf(step_of(members)->Ok_0),
{
    lemma_extras_not_known(members);
    lemma_try_put_all_ok(members, extra_reader());
}

/// The extra members that are read from any members bear no known name.
proof fn lemma_extras_not_known(members: Seq<(Seq<char>, JsonTree)>)
    requires
        try_put_all(members, extra_reader()) is Ok,
    ensures
        forall|i: int|
            0 <= i < try_put_all(members, extra_reader())->Ok_0.len() ==> !is_step_key(
                (#[trigger] try_put_all(members, extra_reader())->Ok_0[i]).0,
            ),
    decreases members.len(),
{
    if members.len() > 0 {
        lemma_extras_not_known(members.drop_last());
        let prefix = try_put_all(members.drop_last(), extra_reader())->Ok_0;
        let all = try_put_all(members, extra_reader())->Ok_0;
        match extra_of_member(members.last()) {
            Ok(Some(named)) => {
                lemma_position_of(prefix, named.0);
                assert forall|i: int| 0 <= i < all.len() implies !is_step_key(
                    (#[trigger] all[i]).0,
                ) by {
                    if i < prefix.len() {
                        assert(all[i].0 == prefix[i].0);
                    }
                }
            },
            _ => {},
        }
    }
}

/// Whether `key` names one of the seven known members of a hop.
pub fn is_known_step_key(key: &str) -> (known: bool)
    ensures
        known == is_step_key(key@),
{
    str_eq(key, "label") || str_eq(key, "inputMint") || str_eq(key, "outputMint") || str_eq(
        key,
        "inAmount",
    ) || str_eq(key, "outAmount") || str_eq(key, "feeMint") || str_eq(key, "feeAmount")
}

/// The model of what the reader of the extra members returned.
pub open spec fn extras_view(r: Result<Vec<(String, String)>, DecodeError>) -> Result<
    Seq<(Seq<char>, Seq<char>)>,
    DecodeError,
> {
    match r {
        Ok(pairs) => Ok(pairs_view(pairs@)),
        Err(e) => Err(e),
    }
}

/// Reads the extra members of a hop: every member that is not a known one, in
/// order, each name once, with the text that the last member of that name holds.
pub fn read_extras(members: &Vec<(String, JsonValue)>) -> (r: Result<
    Vec<(String, String)>,
    DecodeError,
>)
    ensures
        extras_view(r) == try_put_all(members_view(members@), extra_reader()),
{
    let ghost all = members_view(members@);
    let ghost f = extra_reader();
    let mut out: Vec<(String, String)> = Vec::new();
    let mut i: usize = 0;
    assert(all.subrange(0, 0) =~= Seq::empty());
    assert(pairs_view(out@) =~= Seq::empty());
    while i < members.len()
        invariant
            i <= members.len(),
            all == members_view(members@),
            f == extra_reader(),
            try_put_all(all.subrange(0, i as int), f) == Ok::<
                Seq<(Seq<char>, Seq<char>)>,
                DecodeError,
            >(pairs_view(out@)),
        decreases members.len() - i,
    {
        proof {
            lemma_try_put_all_step(all, f, i as int);
        }
        if !is_known_step_key(members[i].0.as_str()) {
            match &members[i].1 {
                JsonValue::Text(text) => {
                    put(&mut out, members[i].0.clone(), text.clone());
                },
                _ => {
                    proof {
                        lemma_try_put_all_prefix_error(all, f, i + 1);
                    }
                    return Err(DecodeError::UnexpectedType);
                },
            }
        }
        i = i + 1;
    }
    assert(all.subrange(0, all.len() as int) =~= all);
    Ok(out)
}

/// Writes named texts as members of an object, in order.
pub fn write_text_members(pairs: &Vec<(String, String)>, members: &mut Vec<(String, JsonValue)>)
    ensures
        members_view(final(members)@) == members_view(old(members)@) + text_members(
            pairs_view(pairs@),
        ),
{
    let ghost start = members_view(members@);
    let ghost added = text_members(pairs_view(pairs@));
    let mut i: usize = 0;
    assert(start + added.subrange(0, 0) =~= start);
    while i < pairs.len()
        invariant
            i <= pairs.len(),
            added == text_members(pairs_view(pairs@)),
            members_view(members@) == start + added.subrange(0, i as int),
        decreases pairs.len() - i,
    {
        let ghost before = members_view(members@);
        members.push((pairs[i].0.clone(), JsonValue::Text(pairs[i].1.clone())));
        assert(members_view(members@) =~= before.push(added[i as int]));
        assert(start + added.subrange(0, i + 1) =~= (start + added.subrange(0, i as int)).push(
            added[i as int],
        ));
        i = i + 1;
    }
    assert(added.subrange(0, added.len() as int) =~= added);
}

impl FromJson for RoutePlanStep {
    open spec fn decoded(doc: JsonTree) -> Result<RoutePlanStepView, DecodeError> {
        match members_of(doc) {
            Err(e) => Err(e),
            Ok(members) => step_of(members),
        }
    }

    fn from_json(doc: &JsonValue) -> (r: Result<Self, DecodeError>) {
        let members = as_members(doc)?;
        let label = get_required_text(members, "label")?;
        let input_mint = get_required_text(members, "inputMint")?;
        let output_mint = get_required_text(members, "outputMint")?;
        let in_amount = get_required_text_integer(members, "inAmount")?;
        let out_amount = get_required_text_integer(members, "outAmount")?;
        let fee_mint = get_required_text(members, "feeMint")?;
        let fee_amount = get_required_text_integer(members, "feeAmount")?;
        let extra = read_extras(members)?;
        Ok(
            RoutePlanStep {
                label,
                input_mint,
                output_mint,
                in_amount,
                out_amount,
                fee_mint,
                fee_amount,
                extra,
            },
        )
    }
}

impl ToJson for RoutePlanStep {
    open spec fn encoded(value: RoutePlanStepView) -> JsonTree {
        JsonTree::Object(step_members(value))
    }

    fn to_json(&self) -> (doc: JsonValue) {
        let mut members: Vec<(String, JsonValue)> = Vec::new();
        members.push(("label".to_owned(), JsonValue::Text(self.label.clone())));
        members.push(("inputMint".to_owned(), JsonValue::Text(self.input_mint.clone())));
        members.push(("outputMint".to_owned(), JsonValue::Text(self.output_mint.clone())));
        members.push(("inAmount".to_owned(), JsonValue::Text(decimal_string(self.in_amount))));
        members.push(("outAmount".to_owned(), JsonValue::Text(decimal_string(self.out_amount))));
        members.push(("feeMint".to_owned(), JsonValue::Text(self.fee_mint.clone())));
        members.push(("feeAmount".to_owned(), JsonValue::Text(decimal_string(self.fee_amount))));
        assert(members_view(members@) =~= known_members(self@));
        write_text_members(&self.extra, &mut members);
        let doc = JsonValue::Object(members);
        proof {
            lemma_view_parts(doc);
        }
        doc
    }
}

/// A hop is read only from an object that holds all seven known members,
/// each with a value of its type, and then each field is what its member holds.
pub proof fn lemma_step_complete(members: Seq<(Seq<char>, JsonTree)>)
    requires
        step_of(members) is Ok,
    ensures
        member(members, "label"@) == Some(JsonTree::Text(step_of(members)->Ok_0.label)),
        member(members, "inputMint"@) == Some(JsonTree::Text(step_of(members)->Ok_0.input_mint)),
        member(members, "outputMint"@) == Some(
            JsonTree::Text(step_of(members)->Ok_0.output_mint),
        ),
        required_text_integer(members, "inAmount"@) == Ok::<u64, DecodeError>(
            step_of(members)->Ok_0.in_amount,
        ),
        required_text_integer(members, "outAmount"@) == Ok::<u64, DecodeError>(
            step_of(members)->Ok_0.out_amount,
        ),
        member(members, "feeMint"@) == Some(JsonTree::Text(step_of(members)->Ok_0.fee_mint)),
        required_text_integer(members, "feeAmount"@) == Ok::<u64, DecodeError>(
            step_of(members)->Ok_0.fee_amount,
        ),
{
}

/// The known members of a hop bear on the wire the names of their fields in lower camel case.
pub proof fn lemma_step_wire_names()
    ensures
        camel_case("label"@) == "label"@,
        camel_case("input_mint"@) == "inputMint"@,
        camel_case("output_mint"@) == "outputMint"@,
        camel_case("in_amount"@) == "inAmount"@,
        camel_case("out_amount"@) == "outAmount"@,
        camel_case("fee_mint"@) == "feeMint"@,
        camel_case("fee_amount"@) == "feeAmount"@,
{
    reveal_strlit("label");
    reveal_strlit("input_mint");
    reveal_strlit("inputMint");
    reveal_strlit("output_mint");
    reveal_strlit("outputMint");
    reveal_strlit("in_amount");
    reveal_strlit("inAmount");
    reveal_strlit("out_amount");
    reveal_strlit("outAmount");
    reveal_strlit("fee_mint");
    reveal_strlit("feeMint");
    reveal_strlit("fee_amount");
    reveal_strlit("feeAmount");
    reveal_with_fuel(camel_from, 32);
    assert(camel_case("label"@) =~= "label"@);
    assert(camel_case("input_mint"@) =~= "inputMint"@);
    assert(camel_case("output_mint"@) =~= "outputMint"@);
    assert(camel_case("in_amount"@) =~= "inAmount"@);
    assert(camel_case("out_amount"@) =~= "outAmount"@);
    assert(camel_case("fee_mint"@) =~= "feeMint"@);
    assert(camel_case("fee_amount"@) =~= "feeAmount"@);
}

} // verus!

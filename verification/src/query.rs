//! Query parameters: an ordered list of key and value, and the merging of two
//! such lists where the second one wins on a key that both hold.

use vstd::prelude::*;
use crate::entries::{
    entries_view, last_value_of, lemma_put_keeps_order, lemma_put_value, put, put_spec, value_of,
};

verus! {

/// The model of a list of parameters.
pub open spec fn pairs_view(pairs: Seq<(String, String)>) -> Seq<(Seq<char>, Seq<char>)> {
    entries_view::<String>(pairs)
}

/// The parameters `structured` with those of `extra` applied to them one
/// after another, so that `extra` wins wherever both name a key: the key
/// keeps its place and gets the value of `extra`. A key that only `extra`
/// names is added at the end.
pub open spec fn merge_spec(
    structured: Seq<(Seq<char>, Seq<char>)>,
    extra: Seq<(Seq<char>, Seq<char>)>,
) -> Seq<(Seq<char>, Seq<char>)>
    decreases extra.len(),
{
    if extra.len() == 0 {
        structured
    } else {
        put_spec(merge_spec(structured, extra.drop_last()), extra.last().0, extra.last().1)
    }
}

/// In a merged list a key has the value that the second list gave it last;
/// a key that the second list does not name keeps the value of the first.
pub proof fn lemma_merge_value(
    structured: Seq<(Seq<char>, Seq<char>)>,
    extra: Seq<(Seq<char>, Seq<char>)>,
    asked: Seq<char>,
)
    ensures
        value_of(merge_spec(structured, extra), asked) == (match last_value_of(extra, asked) {
            Some(value) => Some(value),
            None => value_of(structured, asked),
        }),
    decreases extra.len(),
{
    if extra.len() > 0 {
        lemma_merge_value(structured, extra.drop_last(), asked);
        lemma_put_value(
            merge_spec(structured, extra.drop_last()),
            extra.last().0,
            extra.last().1,
            asked,
        );
    }
}

/// Merging keeps the parameters of the first list in their places, by name.
pub proof fn lemma_merge_keeps_order(
    structured: Seq<(Seq<char>, Seq<char>)>,
    extra: Seq<(Seq<char>, Seq<char>)>,
)
    ensures
        merge_spec(structured, extra).len() >= structured.len(),
        forall|i: int|
            0 <= i < structured.len() ==> (#[trigger] merge_spec(structured, extra)[i]).0
                == structured[i].0,
    decreases extra.len(),
{
    if extra.len() > 0 {
        let before = merge_spec(structured, extra.drop_last());
        lemma_merge_keeps_order(structured, extra.drop_last());
        lemma_put_keeps_order(before, extra.last().0, extra.last().1);
        assert forall|i: int| 0 <= i < structured.len() implies (#[trigger] merge_spec(
            structured,
            extra,
        )[i]).0 == structured[i].0 by {
            assert(put_spec(before, extra.last().0, extra.last().1)[i].0 == before[i].0);
        }
    }
}

/// Applies the parameters of `extra` to `structured`, one after another.
pub fn merge(structured: Vec<(String, String)>, extra: &Vec<(String, String)>) -> (out: Vec<
    (String, String),
>)
    ensures
        pairs_view(out@) == merge_spec(pairs_view(structured@), pairs_view(extra@)),
{
    let ghost first = pairs_view(structured@);
    let ghost second = pairs_view(extra@);
    let mut out = structured;
    let mut i: usize = 0;
    assert(second.subrange(0, 0) =~= Seq::empty());
    while i < extra.len()
        invariant
            i <= extra.len(),
            second == pairs_view(extra@),
            pairs_view(out@) == merge_spec(first, second.subrange(0, i as int)),
        decreases extra.len() - i,
    {
        let ghost upto = second.subrange(0, i + 1);
        assert(upto.drop_last() =~= second.subrange(0, i as int));
        assert(upto.last() == (extra@[i as int].0@, extra@[i as int].1@));
        put(&mut out, extra[i].0.clone(), extra[i].1.clone());
        i = i + 1;
    }
    assert(second.subrange(0, second.len() as int) =~= second);
    out
}

} // verus!

//! Reading structures from JSON documents and writing them back.
//!
//! A structure says, as a function of the document's model, what it reads
//! from a document; the executable reader is proved to compute just that.
//! Sequences are read element by element, in order, and the first element
//! that cannot be read decides the error.

use vstd::prelude::*;
use crate::entries::{
    distinct_names, entries_view, lemma_position_of, lemma_put_distinct, lemma_put_value, put,
    put_spec, value_of,
};
use crate::json::{DecodeError, JsonTree, JsonValue, items_view, lemma_view_parts, members_view};

verus! {

/// Applies `f` to every element of `items`, in order. The outcome is the
/// sequence of the results, in the same order, or the error of the first
/// element on which `f` fails.
pub open spec fn try_map<A, B>(items: Seq<A>, f: spec_fn(A) -> Result<B, DecodeError>) -> Result<
    Seq<B>,
    DecodeError,
>
    decreases items.len(),
{
    if items.len() == 0 {
        Ok(Seq::empty())
    } else {
        match try_map(items.drop_last(), f) {
            Err(e) => Err(e),
            Ok(prefix) => match f(items.last()) {
                Err(e) => Err(e),
                Ok(b) => Ok(prefix.push(b)),
            },
        }
    }
}

/// An error among the first `k` elements is the error of the whole sequence.
pub proof fn lemma_try_map_prefix_error<A, B>(
    items: Seq<A>,
    f: spec_fn(A) -> Result<B, DecodeError>,
    k: int,
)
    requires
        0 <= k <= items.len(),
        try_map(items.subrange(0, k), f) is Err,
    ensures
        try_map(items, f) is Err,
        try_map(items, f)->Err_0 == try_map(items.subrange(0, k), f)->Err_0,
    decreases items.len() - k,
{
    if k == items.len() {
        assert(items.subrange(0, k) =~= items);
    } else {
        assert(items.drop_last().subrange(0, k) =~= items.subrange(0, k));
        lemma_try_map_prefix_error(items.drop_last(), f, k);
    }
}

/// Where every element is read, there is one result for each element, at the
/// element's own position.
pub proof fn lemma_try_map_ok<A, B>(items: Seq<A>, f: spec_fn(A) -> Result<B, DecodeError>)
    requires
        try_map(items, f) is Ok,
    ensures
        try_map(items, f)->Ok_0.len() == items.len(),
        forall|i: int|
            0 <= i < items.len() ==> f(#[trigger] items[i]) == Ok::<B, DecodeError>(
                try_map(items, f)->Ok_0[i],
            ),
    decreases items.len(),
{
    if items.len() > 0 {
        lemma_try_map_ok(items.drop_last(), f);
        let out = try_map(items, f)->Ok_0;
        let prefix = try_map(items.drop_last(), f)->Ok_0;
        assert forall|i: int| 0 <= i < items.len() implies f(#[trigger] items[i]) == Ok::<
            B,
            DecodeError,
        >(out[i]) by {
            if i < items.len() - 1 {
                assert(items.drop_last()[i] == items[i]);
                assert(out[i] == prefix[i]);
            }
        }
    }
}

/// One more element read after a prefix that was read.
pub proof fn lemma_try_map_step<A, B>(
    items: Seq<A>,
    f: spec_fn(A) -> Result<B, DecodeError>,
    k: int,
)
    requires
        0 <= k < items.len(),
        try_map(items.subrange(0, k), f) is Ok,
    ensures
        try_map(items.subrange(0, k + 1), f) == (match f(items[k]) {
            Err(e) => Err::<Seq<B>, DecodeError>(e),
            Ok(b) => Ok(try_map(items.subrange(0, k), f)->Ok_0.push(b)),
        }),
{
    let next = items.subrange(0, k + 1);
    assert(next.drop_last() =~= items.subrange(0, k));
    assert(next.last() == items[k]);
}

/// Looks at every element of `items`, in order, and sets the name that `f`
/// reads from it to the value that `f` reads; an element of which `f` reads
/// nothing is passed over. The outcome is the named values, each name once and
/// in the order in which the names first came, or the error of the first
/// element on which `f` fails.
pub open spec fn try_put_all<A, V>(
    items: Seq<A>,
    f: spec_fn(A) -> Result<Option<(Seq<char>, V)>, DecodeError>,
) -> Result<Seq<(Seq<char>, V)>, DecodeError>
    decreases items.len(),
{
    if items.len() == 0 {
        Ok(Seq::empty())
    } else {
        match try_put_all(items.drop_last(), f) {
            Err(e) => Err(e),
            Ok(prefix) => match f(items.last()) {
                Err(e) => Err(e),
                Ok(Some(named)) => Ok(put_spec(prefix, named.0, named.1)),
                Ok(None) => Ok(prefix),
            },
        }
    }
}

/// The value that `f` reads under the name `key` from the last element of
/// `items` from which it reads that name.
pub open spec fn last_put<A, V>(
    items: Seq<A>,
    f: spec_fn(A) -> Result<Option<(Seq<char>, V)>, DecodeError>,
    key: Seq<char>,
) -> Option<V>
    decreases items.len(),
{
    if items.len() == 0 {
        None
    } else {
        match f(items.last()) {
            Ok(Some(named)) if named.0 == key => Some(named.1),
            _ => last_put(items.drop_last(), f, key),
        }
    }
}

/// An error among the first `k` elements is the error of the whole sequence.
pub proof fn lemma_try_put_all_prefix_error<A, V>(
    items: Seq<A>,
    f: spec_fn(A) -> Result<Option<(Seq<char>, V)>, DecodeError>,
    k: int,
)
    requires
        0 <= k <= items.len(),
        try_put_all(items.subrange(0, k), f) is Err,
    ensures
        try_put_all(items, f) is Err,
        try_put_all(items, f)->Err_0 == try_put_all(items.subrange(0, k), f)->Err_0,
    decreases items.len() - k,
{
    if k == items.len() {
        assert(items.subrange(0, k) =~= items);
    } else {
        assert(items.drop_last().subrange(0, k) =~= items.subrange(0, k));
        lemma_try_put_all_prefix_error(items.drop_last(), f, k);
    }
}

/// One more element looked at after a prefix that was read.
pub proof fn lemma_try_put_all_step<A, V>(
    items: Seq<A>,
    f: spec_fn(A) -> Result<Option<(Seq<char>, V)>, DecodeError>,
    k: int,
)
    requires
        0 <= k < items.len(),
        try_put_all(items.subrange(0, k), f) is Ok,
    ensures
        try_put_all(items.subrange(0, k + 1), f) == (match f(items[k]) {
            Err(e) => Err::<Seq<(Seq<char>, V)>, DecodeError>(e),
            Ok(Some(named)) => Ok(
                put_spec(try_put_all(items.subrange(0, k), f)->Ok_0, named.0, named.1),
            ),
            Ok(None) => Ok(try_put_all(items.subrange(0, k), f)->Ok_0),
        }),
{
    let next = items.subrange(0, k + 1);
    assert(next.drop_last() =~= items.subrange(0, k));
    assert(next.last() == items[k]);
}

/// What is read holds no name twice; under each name it holds the value that
/// was read last for that name, and `f` fails on no element.
pub proof fn lemma_try_put_all_ok<A, V>(
    items: Seq<A>,
    f: spec_fn(A) -> Result<Option<(Seq<char>, V)>, DecodeError>,
)
    requires
        try_put_all(items, f) is Ok,
    ensures
        distinct_names(try_put_all(items, f)->Ok_0),
        forall|key: Seq<char>|
            value_of(try_put_all(items, f)->Ok_0, key) == #[trigger] last_put(items, f, key),
        forall|i: int| 0 <= i < items.len() ==> f(#[trigger] items[i]) is Ok,
    decreases items.len(),
{
    if items.len() == 0 {
        assert forall|key: Seq<char>|
            value_of(try_put_all(items, f)->Ok_0, key) == #[trigger] last_put(
                items,
                f,
                key,
            ) by {
            lemma_position_of(try_put_all(items, f)->Ok_0, key);
        }
    } else {
        let fewer = items.drop_last();
        let prefix = try_put_all(fewer, f)->Ok_0;
        lemma_try_put_all_ok(fewer, f);
        assert forall|i: int| 0 <= i < items.len() implies f(#[trigger] items[i]) is Ok by {
            if i < items.len() - 1 {
                assert(fewer[i] == items[i]);
            }
        }
        match f(items.last()) {
            Ok(Some(named)) => {
                lemma_put_distinct(prefix, named.0, named.1);
                assert forall|key: Seq<char>|
                    value_of(try_put_all(items, f)->Ok_0, key) == #[trigger] last_put(
                        items,
                        f,
                        key,
                    ) by {
                    lemma_put_value(prefix, named.0, named.1, key);
                    assert(value_of(prefix, key) == last_put(fewer, f, key));
                }
            },
            _ => {
                assert forall|key: Seq<char>|
                    value_of(try_put_all(items, f)->Ok_0, key) == #[trigger] last_put(
                        items,
                        f,
                        key,
                    ) by {
                    assert(value_of(prefix, key) == last_put(fewer, f, key));
                }
            },
        }
    }
}

/// The models of the values `items`, in order.
pub open spec fn views<T: View>(items: Seq<T>) -> Seq<T::V> {
    Seq::new(items.len(), |i: int| items[i]@)
}

/// The model of what a decoder returned.
pub open spec fn decode_view<T: View>(r: Result<T, DecodeError>) -> Result<T::V, DecodeError> {
    match r {
        Ok(value) => Ok(value@),
        Err(e) => Err(e),
    }
}

/// A structure that is read from a JSON document.
pub trait FromJson: View + Sized {
    /// What the document `doc` holds, read as this structure: the model of the
    /// value, or the first error in the order in which the members are read.
    spec fn decoded(doc: JsonTree) -> Result<Self::V, DecodeError>;

    /// Reads `doc` as this structure.
    fn from_json(doc: &JsonValue) -> (r: Result<Self, DecodeError>)
        ensures
            decode_view(r) == Self::decoded(doc@),
    ;
}

/// A structure that is written as a JSON document.
pub trait ToJson: View + Sized {
    /// The document that is written for a value with the model `value`.
    spec fn encoded(value: Self::V) -> JsonTree;

    /// Writes this value as a document.
    fn to_json(&self) -> (doc: JsonValue)
        ensures
            doc@ == Self::encoded(self@),
    ;
}

/// The reader of the items of an array whose items are all of one structure.
pub open spec fn item_decoder<T: FromJson>() -> spec_fn(JsonTree) -> Result<T::V, DecodeError> {
    |item: JsonTree| T::decoded(item)
}

/// The reader of the members of an object that is a map to values of one
/// structure: each member gives its name and what its value holds.
pub open spec fn named_decoder<T: FromJson>() -> spec_fn((Seq<char>, JsonTree)) -> Result<
    Option<(Seq<char>, T::V)>,
    DecodeError,
> {
    |member: (Seq<char>, JsonTree)|
        match T::decoded(member.1) {
            Ok(value) => Ok(Some((member.0, value))),
            Err(e) => Err(e),
        }
}

/// What an object with the members `members` holds, read as a map to values
/// of one structure: each name once, with the value that was read last for it.
pub open spec fn map_decoded<T: FromJson>(members: Seq<(Seq<char>, JsonTree)>) -> Result<
    Seq<(Seq<char>, T::V)>,
    DecodeError,
> {
    try_put_all(members, named_decoder::<T>())
}

/// The model of what a reader of an array returned.
pub open spec fn items_decode_view<T: View>(r: Result<Vec<T>, DecodeError>) -> Result<
    Seq<T::V>,
    DecodeError,
> {
    match r {
        Ok(values) => Ok(views(values@)),
        Err(e) => Err(e),
    }
}

/// The model of what a reader of an object's members returned.
pub open spec fn entries_decode_view<T: View>(r: Result<Vec<(String, T)>, DecodeError>) -> Result<
    Seq<(Seq<char>, T::V)>,
    DecodeError,
> {
    match r {
        Ok(entries) => Ok(entries_view(entries@)),
        Err(e) => Err(e),
    }
}

/// Reads every item of an array as a `T`, in order.
pub fn decode_items<T: FromJson>(items: &Vec<JsonValue>) -> (r: Result<Vec<T>, DecodeError>)
    ensures
        items_decode_view(r) == try_map(items_view(items@), item_decoder::<T>()),
{
    let ghost all = items_view(items@);
    let ghost f = item_decoder::<T>();
    let mut out: Vec<T> = Vec::new();
    let mut i: usize = 0;
    assert(all.subrange(0, 0) =~= Seq::empty());
    assert(views(out@) =~= Seq::empty());
    while i < items.len()
        invariant
            i <= items.len(),
            all == items_view(items@),
            f == item_decoder::<T>(),
            try_map(all.subrange(0, i as int), f) == Ok::<Seq<T::V>, DecodeError>(views(out@)),
        decreases items.len() - i,
    {
        proof {
            lemma_try_map_step(all, f, i as int);
        }
        let ghost before = views(out@);
        match T::from_json(&items[i]) {
            Err(e) => {
                proof {
                    lemma_try_map_prefix_error(all, f, i + 1);
                }
                return Err(e);
            },
            Ok(value) => {
                out.push(value);
                assert(views(out@) =~= before.push(value@));
            },
        }
        i = i + 1;
    }
    assert(all.subrange(0, all.len() as int) =~= all);
    Ok(out)
}

/// Reads an object as a map to values of one structure: the value of every
/// member is read as a `T`, in order, and set under the member's name.
pub fn decode_map<T: FromJson>(members: &Vec<(String, JsonValue)>) -> (r: Result<
    Vec<(String, T)>,
    DecodeError,
>)
    ensures
        entries_decode_view(r) == map_decoded::<T>(members_view(members@)),
{
    let ghost all = members_view(members@);
    let ghost f = named_decoder::<T>();
    let mut out: Vec<(String, T)> = Vec::new();
    let mut i: usize = 0;
    assert(all.subrange(0, 0) =~= Seq::empty());
    assert(entries_view(out@) =~= Seq::empty());
    while i < members.len()
        invariant
            i <= members.len(),
            all == members_view(members@),
            f == named_decoder::<T>(),
            try_put_all(all.subrange(0, i as int), f) == Ok::<
                Seq<(Seq<char>, T::V)>,
                DecodeError,
            >(entries_view(out@)),
        decreases members.len() - i,
    {
        proof {
            lemma_try_put_all_step(all, f, i as int);
        }
        match T::from_json(&members[i].1) {
            Err(e) => {
                proof {
                    lemma_try_put_all_prefix_error(all, f, i + 1);
                }
                return Err(e);
            },
            Ok(value) => {
                put(&mut out, members[i].0.clone(), value);
            },
        }
        i = i + 1;
    }
    assert(all.subrange(0, all.len() as int) =~= all);
    Ok(out)
}

/// A JSON number, kept as the text that the document writes for it.
#[derive(Debug, Clone, PartialEq, Eq)]
pub struct Decimal {
    pub text: String,
}

impl View for Decimal {
    type V = Seq<char>;

    open spec fn view(&self) -> Seq<char> {
        self.text@
    }
}

impl FromJson for Decimal {
    open spec fn decoded(doc: JsonTree) -> Result<Seq<char>, DecodeError> {
        match doc {
            JsonTree::Number(text) => Ok(text),
            _ => Err(DecodeError::UnexpectedType),
        }
    }

    fn from_json(doc: &JsonValue) -> (r: Result<Self, DecodeError>) {
        match doc {
            JsonValue::Number(text) => Ok(Decimal { text: text.clone() }),
            _ => Err(DecodeError::UnexpectedType),
        }
    }
}

impl FromJson for String {
    open spec fn decoded(doc: JsonTree) -> Result<Seq<char>, DecodeError> {
        match doc {
            JsonTree::Text(text) => Ok(text),
            _ => Err(DecodeError::UnexpectedType),
        }
    }

    fn from_json(doc: &JsonValue) -> (r: Result<Self, DecodeError>) {
        match doc {
            JsonValue::Text(text) => Ok(text.clone()),
            _ => Err(DecodeError::UnexpectedType),
        }
    }
}

/// The model of a value that may be there.
pub open spec fn optional_view_of<T: View>(value: Option<T>) -> Option<T::V> {
    match value {
        Some(v) => Some(v@),
        None => None,
    }
}

/// The model of what a reader of an optional structure returned.
pub open spec fn optional_decode_view<T: View>(r: Result<Option<T>, DecodeError>) -> Result<
    Option<T::V>,
    DecodeError,
> {
    match r {
        Ok(value) => Ok(optional_view_of(value)),
        Err(e) => Err(e),
    }
}

/// What a document that may be there holds, read as a `T`: nothing where
/// there is no document.
pub open spec fn optional_decoded<T: FromJson>(doc: Option<JsonTree>) -> Result<
    Option<T::V>,
    DecodeError,
> {
    match doc {
        None => Ok(None),
        Some(tree) => match T::decoded(tree) {
            Ok(value) => Ok(Some(value)),
            Err(e) => Err(e),
        },
    }
}

/// Reads a document that may be there as a `T`.
pub fn decode_optional<T: FromJson>(doc: Option<&JsonValue>) -> (r: Result<Option<T>, DecodeError>)
    ensures
        optional_decode_view(r) == optional_decoded::<T>(crate::json::optional_view(doc)),
{
    match doc {
        None => Ok(None),
        Some(value) => match T::from_json(value) {
            Ok(v) => Ok(Some(v)),
            Err(e) => Err(e),
        },
    }
}

/// What a document that may be there holds, read as an array of `T`:
/// nothing where there is no document.
pub open spec fn optional_items_decoded<T: FromJson>(doc: Option<JsonTree>) -> Result<
    Option<Seq<T::V>>,
    DecodeError,
> {
    match doc {
        None => Ok(None),
        Some(JsonTree::Array(items)) => match try_map(items, item_decoder::<T>()) {
            Ok(values) => Ok(Some(values)),
            Err(e) => Err(e),
        },
        Some(_) => Err(DecodeError::UnexpectedType),
    }
}

/// The model of what a reader of an optional array returned.
pub open spec fn optional_items_view<T: View>(r: Result<Option<Vec<T>>, DecodeError>) -> Result<
    Option<Seq<T::V>>,
    DecodeError,
> {
    match r {
        Ok(Some(values)) => Ok(Some(views(values@))),
        Ok(None) => Ok(None),
        Err(e) => Err(e),
    }
}

/// Reads a document that may be there as an array of `T`.
pub fn decode_optional_items<T: FromJson>(doc: Option<&JsonValue>) -> (r: Result<
    Option<Vec<T>>,
    DecodeError,
>)
    ensures
        optional_items_view(r) == optional_items_decoded::<T>(crate::json::optional_view(doc)),
{
    match doc {
        None => Ok(None),
        Some(value) => {
            proof {
                lemma_view_parts(*value);
            }
            match value {
                JsonValue::Array(items) => match decode_items::<T>(items) {
                    Ok(values) => Ok(Some(values)),
                    Err(e) => Err(e),
                },
                _ => Err(DecodeError::UnexpectedType),
            }
        },
    }
}

} // verus!

//! A JSON document as a value of this library, and the reading of its members.
//!
//! A document is a tree of values. This module says what a document holds,
//! how a member is found by its name, and what a member of each kind reads
//! as; the executable readers are proved to compute just that.

use vstd::prelude::*;
use vstd::string::*;
use crate::text::{parse_u64, parse_u64_spec, str_eq};

verus! {

/// The mathematical model of a JSON document.
///
/// A number is kept as its decimal text, so no precision is lost. An object is
/// the sequence of its members, in the order in which the document holds them;
/// an array is the sequence of its items.
pub enum JsonTree {
    Null,
    Bool(bool),
    Number(Seq<char>),
    Text(Seq<char>),
    Array(Seq<JsonTree>),
    Object(Seq<(Seq<char>, JsonTree)>),
}

/// A JSON document in memory.
#[derive(Debug, PartialEq, Eq)]
pub enum JsonValue {
    Null,
    Bool(bool),
    Number(String),
    Text(String),
    Array(Vec<JsonValue>),
    Object(Vec<(String, JsonValue)>),
}

/// Why a document could not be read as the expected structure.
#[derive(Clone, Copy, Debug, PartialEq, Eq, Structural)]
pub enum DecodeError {
    /// The body could not be read at all.
    Unreadable,
    /// The body is not a JSON document.
    Malformed,
    /// A required member is absent.
    MissingField,
    /// A member, or the document itself, holds a value of another JSON type.
    UnexpectedType,
    /// A member holds a number, or the text of one, that is no unsigned 64-bit integer.
    InvalidInteger,
}

/// What is said of a decode error in a message.
pub open spec fn describe_spec(error: DecodeError) -> Seq<char> {
    match error {
        DecodeError::Unreadable => "the body could not be read"@,
        DecodeError::Malformed => "the body is not a JSON document"@,
        DecodeError::MissingField => "a required member is missing"@,
        DecodeError::UnexpectedType => "a value has another type than expected"@,
        DecodeError::InvalidInteger => "a number is not an unsigned 64-bit integer"@,
    }
}

impl DecodeError {
    /// What is said of this error in a message.
    pub fn describe(&self) -> (text: &'static str)
        ensures
            text@ == describe_spec(*self),
    {
        match self {
            DecodeError::Unreadable => "the body could not be read",
            DecodeError::Malformed => "the body is not a JSON document",
            DecodeError::MissingField => "a required member is missing",
            DecodeError::UnexpectedType => "a value has another type than expected",
            DecodeError::InvalidInteger => "a number is not an unsigned 64-bit integer",
        }
    }
}

/// The model of the document `doc`.
pub open spec fn tree_of(doc: JsonValue) -> JsonTree
    decreases doc,
{
    match doc {
        JsonValue::Null => JsonTree::Null,
        JsonValue::Bool(b) => JsonTree::Bool(b),
        JsonValue::Number(text) => JsonTree::Number(text@),
        JsonValue::Text(text) => JsonTree::Text(text@),
        JsonValue::Array(items) => JsonTree::Array(
            Seq::new(
                items@.len(),
                |i: int|
                    if 0 <= i < items@.len() {
                        tree_of(items@[i])
                    } else {
                        JsonTree::Null
                    },
            ),
        ),
        JsonValue::Object(members) => JsonTree::Object(
            Seq::new(
                members@.len(),
                |i: int|
                    if 0 <= i < members@.len() {
                        (members@[i].0@, tree_of(members@[i].1))
                    } else {
                        (Seq::empty(), JsonTree::Null)
                    },
            ),
        ),
    }
}

impl View for JsonValue {
    type V = JsonTree;

    open spec fn view(&self) -> JsonTree {
        tree_of(*self)
    }
}

/// The models of the documents `items`, in order.
pub open spec fn items_view(items: Seq<JsonValue>) -> Seq<JsonTree> {
    Seq::new(items.len(), |i: int| items[i]@)
}

/// The models of the members `members`, in order.
pub open spec fn members_view(members: Seq<(String, JsonValue)>) -> Seq<(Seq<char>, JsonTree)> {
    Seq::new(members.len(), |i: int| (members[i].0@, members[i].1@))
}

/// The model of an array is the models of its items; that of an object, the models of its members.
pub proof fn lemma_view_parts(doc: JsonValue)
    ensures
        doc matches JsonValue::Array(items) ==> doc@ == JsonTree::Array(items_view(items@)),
        doc matches JsonValue::Object(members) ==> doc@ == JsonTree::Object(
            members_view(members@),
        ),
{
    match doc {
        JsonValue::Array(items) => {
            assert(doc@->Array_0 =~= items_view(items@));
        },
        JsonValue::Object(members) => {
            assert(doc@ is Object);
            let left = match doc@ { JsonTree::Object(m) => m, _ => Seq::empty() };
            
            assert(left.len() == members@.len());
            let right = members_view(members@);
            assert(left.len() == right.len());
            assert forall|i: int| 0 <= i < left.len() implies left[i] == right[i] by {
                assert(left[i].0 == members@[i].0@);
                assert(left[i].1 == members@[i].1@);
            }
            assert(left =~= right);
        },
        _ => {},
    }
}

/// The value of the first member named `key`, if there is one.
pub open spec fn member(members: Seq<(Seq<char>, JsonTree)>, key: Seq<char>) -> Option<JsonTree>
    decreases members.len(),
{
    if members.len() == 0 {
        None
    } else if members[0].0 == key {
        Some(members[0].1)
    } else {
        member(members.subrange(1, members.len() as int), key)
    }
}

/// In two lists of members written one after the other, a name is looked up
/// in the first list, and in the second only where the first does not hold it.
pub proof fn lemma_member_concat(
    first: Seq<(Seq<char>, JsonTree)>,
    second: Seq<(Seq<char>, JsonTree)>,
    key: Seq<char>,
)
    ensures
        member(first + second, key) == (match member(first, key) {
            Some(value) => Some(value),
            None => member(second, key),
        }),
    decreases first.len(),
{
    let all = first + second;
    if first.len() == 0 {
        assert(all =~= second);
    } else {
        assert(all[0] == first[0]);
        assert(all.subrange(1, all.len() as int) =~= first.subrange(1, first.len() as int)
            + second);
        lemma_member_concat(first.subrange(1, first.len() as int), second, key);
    }
}

/// The value of the member named `key`, where an absent member and `null` are the same.
pub open spec fn present(members: Seq<(Seq<char>, JsonTree)>, key: Seq<char>) -> Option<JsonTree> {
    match member(members, key) {
        Some(JsonTree::Null) => None,
        other => other,
    }
}

/// The integer that a JSON number with the text `text` is: digits only, within 64 bits.
pub open spec fn integer_of_number(text: Seq<char>) -> Result<u64, DecodeError> {
    if text.len() > 0 && text[0] != '+' && parse_u64_spec(text) is Some {
        Ok(parse_u64_spec(text)->0)
    } else {
        Err(DecodeError::InvalidInteger)
    }
}

/// The integer that the text `text` stands for.
pub open spec fn integer_of_text(text: Seq<char>) -> Result<u64, DecodeError> {
    match parse_u64_spec(text) {
        Some(v) => Ok(v),
        None => Err(DecodeError::InvalidInteger),
    }
}

/// A member that must be there and hold text.
pub open spec fn required_text(members: Seq<(Seq<char>, JsonTree)>, key: Seq<char>) -> Result<
    Seq<char>,
    DecodeError,
> {
    match member(members, key) {
        None => Err(DecodeError::MissingField),
        Some(JsonTree::Text(text)) => Ok(text),
        Some(_) => Err(DecodeError::UnexpectedType),
    }
}

/// A member that holds text, or is absent or `null`.
pub open spec fn optional_text(members: Seq<(Seq<char>, JsonTree)>, key: Seq<char>) -> Result<
    Option<Seq<char>>,
    DecodeError,
> {
    match present(members, key) {
        None => Ok(None),
        Some(JsonTree::Text(text)) => Ok(Some(text)),
        Some(_) => Err(DecodeError::UnexpectedType),
    }
}

/// A member that holds text if it is there at all; an absent member reads as empty text.
pub open spec fn defaulted_text(members: Seq<(Seq<char>, JsonTree)>, key: Seq<char>) -> Result<
    Seq<char>,
    DecodeError,
> {
    match member(members, key) {
        None => Ok(Seq::empty()),
        Some(JsonTree::Text(text)) => Ok(text),
        Some(_) => Err(DecodeError::UnexpectedType),
    }
}

/// A member that must be there and hold a number, which is kept as its text.
pub open spec fn required_number(members: Seq<(Seq<char>, JsonTree)>, key: Seq<char>) -> Result<
    Seq<char>,
    DecodeError,
> {
    match member(members, key) {
        None => Err(DecodeError::MissingField),
        Some(JsonTree::Number(text)) => Ok(text),
        Some(_) => Err(DecodeError::UnexpectedType),
    }
}

/// A member that must be there and hold a number that is an unsigned 64-bit integer.
pub open spec fn required_integer(members: Seq<(Seq<char>, JsonTree)>, key: Seq<char>) -> Result<
    u64,
    DecodeError,
> {
    match member(members, key) {
        None => Err(DecodeError::MissingField),
        Some(JsonTree::Number(text)) => integer_of_number(text),
        Some(_) => Err(DecodeError::UnexpectedType),
    }
}

/// A member that holds an unsigned 64-bit integer as a number, or is absent or `null`.
pub open spec fn optional_integer(members: Seq<(Seq<char>, JsonTree)>, key: Seq<char>) -> Result<
    Option<u64>,
    DecodeError,
> {
    match present(members, key) {
        None => Ok(None),
        Some(JsonTree::Number(text)) => match integer_of_number(text) {
            Ok(v) => Ok(Some(v)),
            Err(e) => Err(e),
        },
        Some(_) => Err(DecodeError::UnexpectedType),
    }
}

/// A member that must be there and hold the decimal text of an unsigned 64-bit integer.
pub open spec fn required_text_integer(
    members: Seq<(Seq<char>, JsonTree)>,
    key: Seq<char>,
) -> Result<u64, DecodeError> {
    match member(members, key) {
        None => Err(DecodeError::MissingField),
        Some(JsonTree::Text(text)) => integer_of_text(text),
        Some(_) => Err(DecodeError::UnexpectedType),
    }
}

/// A member that must be there and hold a truth value.
pub open spec fn required_bool(members: Seq<(Seq<char>, JsonTree)>, key: Seq<char>) -> Result<
    bool,
    DecodeError,
> {
    match member(members, key) {
        None => Err(DecodeError::MissingField),
        Some(JsonTree::Bool(flag)) => Ok(flag),
        Some(_) => Err(DecodeError::UnexpectedType),
    }
}

/// A member that must be there and hold an array.
pub open spec fn required_items(members: Seq<(Seq<char>, JsonTree)>, key: Seq<char>) -> Result<
    Seq<JsonTree>,
    DecodeError,
> {
    match member(members, key) {
        None => Err(DecodeError::MissingField),
        Some(JsonTree::Array(items)) => Ok(items),
        Some(_) => Err(DecodeError::UnexpectedType),
    }
}

/// A member that must be there and hold an object.
pub open spec fn required_members(members: Seq<(Seq<char>, JsonTree)>, key: Seq<char>) -> Result<
    Seq<(Seq<char>, JsonTree)>,
    DecodeError,
> {
    match member(members, key) {
        None => Err(DecodeError::MissingField),
        Some(JsonTree::Object(inner)) => Ok(inner),
        Some(_) => Err(DecodeError::UnexpectedType),
    }
}

/// The members of a document that must be an object.
pub open spec fn members_of(doc: JsonTree) -> Result<Seq<(Seq<char>, JsonTree)>, DecodeError> {
    match doc {
        JsonTree::Object(members) => Ok(members),
        _ => Err(DecodeError::UnexpectedType),
    }
}

/// The model of what a text getter returned.
pub open spec fn text_result(r: Result<String, DecodeError>) -> Result<Seq<char>, DecodeError> {
    match r {
        Ok(text) => Ok(text@),
        Err(e) => Err(e),
    }
}

/// The model of what a getter of optional text returned.
pub open spec fn optional_text_result(r: Result<Option<String>, DecodeError>) -> Result<
    Option<Seq<char>>,
    DecodeError,
> {
    match r {
        Ok(Some(text)) => Ok(Some(text@)),
        Ok(None) => Ok(None),
        Err(e) => Err(e),
    }
}

/// The model of what a getter of an array returned.
pub open spec fn items_result(r: Result<&Vec<JsonValue>, DecodeError>) -> Result<
    Seq<JsonTree>,
    DecodeError,
> {
    match r {
        Ok(items) => Ok(items_view(items@)),
        Err(e) => Err(e),
    }
}

/// The model of what a getter of an object returned.
pub open spec fn members_result(r: Result<&Vec<(String, JsonValue)>, DecodeError>) -> Result<
    Seq<(Seq<char>, JsonTree)>,
    DecodeError,
> {
    match r {
        Ok(members) => Ok(members_view(members@)),
        Err(e) => Err(e),
    }
}

/// The model of a document that may be there.
pub open spec fn optional_view(found: Option<&JsonValue>) -> Option<JsonTree> {
    match found {
        Some(value) => Some(value@),
        None => None,
    }
}

/// The members of `doc`, which must be an object.
pub fn as_members(doc: &JsonValue) -> (r: Result<&Vec<(String, JsonValue)>, DecodeError>)
    ensures
        members_result(r) == members_of(doc@),
{
    proof {
        lemma_view_parts(*doc);
    }
    match doc {
        JsonValue::Object(members) => Ok(members),
        _ => Err(DecodeError::UnexpectedType),
    }
}

/// The value of the first member named `key`.
pub fn find<'a>(members: &'a Vec<(String, JsonValue)>, key: &str) -> (found: Option<&'a JsonValue>)
    ensures
        optional_view(found) == member(members_view(members@), key@),
{
    let ghost all = members_view(members@);
    let mut i: usize = 0;
    assert(all.subrange(0, all.len() as int) =~= all);
    while i < members.len()
        invariant
            i <= members.len(),
            all == members_view(members@),
            member(all, key@) == member(all.subrange(i as int, all.len() as int), key@),
        decreases members.len() - i,
    {
        let ghost rest = all.subrange(i as int, all.len() as int);
        assert(rest[0] == all[i as int]);
        assert(rest.subrange(1, rest.len() as int) =~= all.subrange(i + 1, all.len() as int));
        if str_eq(members[i].0.as_str(), key) {
            return Some(&members[i].1);
        }
        i = i + 1;
    }
    None
}

/// The value of the member named `key`, where an absent member and `null` are the same.
pub fn find_present<'a>(members: &'a Vec<(String, JsonValue)>, key: &str) -> (found: Option<
    &'a JsonValue,
>)
    ensures
        optional_view(found) == present(members_view(members@), key@),
{
    match find(members, key) {
        Some(JsonValue::Null) => None,
        other => other,
    }
}

/// Reads a member that must be there and hold text.
pub fn get_required_text(members: &Vec<(String, JsonValue)>, key: &str) -> (r: Result<
    String,
    DecodeError,
>)
    ensures
        text_result(r) == required_text(members_view(members@), key@),
{
    match find(members, key) {
        None => Err(DecodeError::MissingField),
        Some(JsonValue::Text(text)) => Ok(text.clone()),
        Some(_) => Err(DecodeError::UnexpectedType),
    }
}

/// Reads a member that holds text, or is absent or `null`.
pub fn get_optional_text(members: &Vec<(String, JsonValue)>, key: &str) -> (r: Result<
    Option<String>,
    DecodeError,
>)
    ensures
        optional_text_result(r) == optional_text(members_view(members@), key@),
{
    match find_present(members, key) {
        None => Ok(None),
        Some(JsonValue::Text(text)) => Ok(Some(text.clone())),
        Some(_) => Err(DecodeError::UnexpectedType),
    }
}

/// Reads a member that holds text if it is there at all.
pub fn get_defaulted_text(members: &Vec<(String, JsonValue)>, key: &str) -> (r: Result<
    String,
    DecodeError,
>)
    ensures
        text_result(r) == defaulted_text(members_view(members@), key@),
{
    match find(members, key) {
        None => Ok(String::new()),
        Some(JsonValue::Text(text)) => Ok(text.clone()),
        Some(_) => Err(DecodeError::UnexpectedType),
    }
}

/// Reads a member that must be there and hold a number, and keeps the number's text.
pub fn get_required_number(members: &Vec<(String, JsonValue)>, key: &str) -> (r: Result<
    String,
    DecodeError,
>)
    ensures
        text_result(r) == required_number(members_view(members@), key@),
{
    match find(members, key) {
        None => Err(DecodeError::MissingField),
        Some(JsonValue::Number(text)) => Ok(text.clone()),
        Some(_) => Err(DecodeError::UnexpectedType),
    }
}

/// Reads the text of a JSON number as an unsigned 64-bit integer.
pub fn number_to_integer(text: &str) -> (r: Result<u64, DecodeError>)
    ensures
        r == integer_of_number(text@),
{
    match parse_u64(text) {
        Some(v) => {
            if text.get_char(0) == '+' {
                Err(DecodeError::InvalidInteger)
            } else {
                Ok(v)
            }
        },
        None => Err(DecodeError::InvalidInteger),
    }
}

/// Reads text as an unsigned 64-bit integer.
pub fn text_to_integer(text: &str) -> (r: Result<u64, DecodeError>)
    ensures
        r == integer_of_text(text@),
{
    match parse_u64(text) {
        Some(v) => Ok(v),
        None => Err(DecodeError::InvalidInteger),
    }
}

/// Reads a member that must be there and hold a number that is an unsigned 64-bit integer.
pub fn get_required_integer(members: &Vec<(String, JsonValue)>, key: &str) -> (r: Result<
    u64,
    DecodeError,
>)
    ensures
        r == required_integer(members_view(members@), key@),
{
    match find(members, key) {
        None => Err(DecodeError::MissingField),
        Some(JsonValue::Number(text)) => number_to_integer(text.as_str()),
        Some(_) => Err(DecodeError::UnexpectedType),
    }
}

/// Reads a member that holds an unsigned 64-bit integer as a number, or is absent or `null`.
pub fn get_optional_integer(members: &Vec<(String, JsonValue)>, key: &str) -> (r: Result<
    Option<u64>,
    DecodeError,
>)
    ensures
        r == optional_integer(members_view(members@), key@),
{
    match find_present(members, key) {
        None => Ok(None),
        Some(JsonValue::Number(text)) => match number_to_integer(text.as_str()) {
            Ok(v) => Ok(Some(v)),
            Err(e) => Err(e),
        },
        Some(_) => Err(DecodeError::UnexpectedType),
    }
}

/// Reads a member that must be there and hold the decimal text of an unsigned 64-bit integer.
pub fn get_required_text_integer(members: &Vec<(String, JsonValue)>, key: &str) -> (r: Result<
    u64,
    DecodeError,
>)
    ensures
        r == required_text_integer(members_view(members@), key@),
{
    match find(members, key) {
        None => Err(DecodeError::MissingField),
        Some(JsonValue::Text(text)) => text_to_integer(text.as_str()),
        Some(_) => Err(DecodeError::UnexpectedType),
    }
}

/// Reads a member that must be there and hold a truth value.
pub fn get_required_bool(members: &Vec<(String, JsonValue)>, key: &str) -> (r: Result<
    bool,
    DecodeError,
>)
    ensures
        r == required_bool(members_view(members@), key@),
{
    match find(members, key) {
        None => Err(DecodeError::MissingField),
        Some(JsonValue::Bool(flag)) => Ok(*flag),
        Some(_) => Err(DecodeError::UnexpectedType),
    }
}

/// Reads a member that must be there and hold an array.
pub fn get_required_items<'a>(members: &'a Vec<(String, JsonValue)>, key: &str) -> (r: Result<
    &'a Vec<JsonValue>,
    DecodeError,
>)
    ensures
        items_result(r) == required_items(members_view(members@), key@),
{
    match find(members, key) {
        None => Err(DecodeError::MissingField),
        Some(value) => {
            proof {
                lemma_view_parts(*value);
            }
            match value {
                JsonValue::Array(items) => Ok(items),
                _ => Err(DecodeError::UnexpectedType),
            }
        },
    }
}

/// Reads a member that must be there and hold an object.
pub fn get_required_members<'a>(members: &'a Vec<(String, JsonValue)>, key: &str) -> (r: Result<
    &'a Vec<(String, JsonValue)>,
    DecodeError,
>)
    ensures
        members_result(r) == required_members(members_view(members@), key@),
{
    match find(members, key) {
        None => Err(DecodeError::MissingField),
        Some(value) => {
            proof {
                lemma_view_parts(*value);
            }
            match value {
                JsonValue::Object(inner) => Ok(inner),
                _ => Err(DecodeError::UnexpectedType),
            }
        },
    }
}


/// The model of a document that may have been read.
pub open spec fn parsed_view(doc: Option<JsonValue>) -> Option<JsonTree> {
    match doc {
        Some(value) => Some(value@),
        None => None,
    }
}

} // verus!

//! An optional unsigned 64-bit integer that travels as text.
//!
//! On the wire such a field holds the decimal text of the number; where it has
//! no value the member is left out altogether.

use vstd::prelude::*;
use crate::json::{
    DecodeError, JsonTree, JsonValue, integer_of_text, optional_view, text_to_integer,
};
use crate::text::{
    decimal, decimal_string, digits_value, is_canonical, lemma_canonical_roundtrip,
    lemma_decimal_roundtrip,
};

verus! {

/// What is written for `value`: its decimal text, or nothing where there is no value.
pub open spec fn encoded(value: Option<u64>) -> Option<JsonTree> {
    match value {
        Some(v) => Some(JsonTree::Text(decimal(v as nat))),
        None => None,
    }
}

/// What is read from a member that may be there: no value where it is absent
/// or `null`; the number that its text stands for; an error for any other
/// text and for a value that is no text.
pub open spec fn decoded(member: Option<JsonTree>) -> Result<Option<u64>, DecodeError> {
    match member {
        None => Ok(None),
        Some(JsonTree::Null) => Ok(None),
        Some(JsonTree::Text(text)) => match integer_of_text(text) {
            Ok(v) => Ok(Some(v)),
            Err(e) => Err(e),
        },
        Some(_) => Err(DecodeError::UnexpectedType),
    }
}

/// What was written for a value reads back as that value, and what was
/// written for no value, nothing, reads back as no value.
pub proof fn lemma_roundtrip(value: Option<u64>)
    ensures
        decoded(encoded(value)) == Ok::<Option<u64>, DecodeError>(value),
{
    match value {
        Some(v) => {
            lemma_decimal_roundtrip(v);
        },
        None => {},
    }
}

/// A member that holds the canonical text of a 64-bit number is written
/// back, after it was read, letter for letter as it was. (A text with a plus
/// sign or a leading zero reads as the same number, and is written back
/// without them.)
pub proof fn lemma_text_roundtrip(text: Seq<char>)
    requires
        is_canonical(text),
        digits_value(text) <= u64::MAX,
    ensures
        decoded(Some(JsonTree::Text(text))) is Ok,
        encoded(decoded(Some(JsonTree::Text(text)))->Ok_0) == Some(JsonTree::Text(text)),
{
    lemma_canonical_roundtrip(text);
    assert(crate::text::is_digit(text[0]));
    assert(crate::text::unsigned_part(text) == text);
}

/// The member to write for `value`, or `None` where the member is to be left out.
pub fn serialize(value: &Option<u64>) -> (member: Option<JsonValue>)
    ensures
        crate::json::parsed_view(member) == encoded(*value),
{
    match value {
        Some(v) => Some(JsonValue::Text(decimal_string(*v))),
        None => None,
    }
}

/// The value of a member that may be there.
pub fn deserialize(member: Option<&JsonValue>) -> (value: Result<Option<u64>, DecodeError>)
    ensures
        value == decoded(optional_view(member)),
{
    match member {
        None => Ok(None),
        Some(JsonValue::Null) => Ok(None),
        Some(JsonValue::Text(text)) => match text_to_integer(text.as_str()) {
            Ok(v) => Ok(Some(v)),
            Err(e) => Err(e),
        },
        Some(_) => Err(DecodeError::UnexpectedType),
    }
}

} // verus!

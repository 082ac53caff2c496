//! Typed decoding of one function's answer: a hash digest.
use vstd::prelude::*;
use crate::json::{Json, JsonView, i64_of, member_of, parse_i64, str_member_of};
use crate::protocol::{Answer, ClientError};

verus! {

/// The value that a hash function's call answers: the digest's digits, how
/// they are encoded, the kind of expression, and the digest's width in bits.
#[derive(Debug)]
pub struct HashValue {
    pub data: String,
    pub encoding: String,
    pub expression: String,
    pub width: i64,
}

pub struct HashValueView {
    pub data: Seq<char>,
    pub encoding: Seq<char>,
    pub expression: Seq<char>,
    pub width: i64,
}

impl View for HashValue {
    type V = HashValueView;

    open spec fn view(&self) -> HashValueView {
        HashValueView {
            data: self.data@,
            encoding: self.encoding@,
            expression: self.expression@,
            width: self.width,
        }
    }
}

/// The width that a `width` field holds: a number that is an integer in
/// the range of `i64`.
pub open spec fn width_of(v: Option<JsonView>) -> Option<i64> {
    match v {
        Some(JsonView::Number(t)) => i64_of(t),
        _ => None,
    }
}

/// The hash value that an answer's value holds: an object with the texts
/// `data`, `encoding` and `expression` and an integer `width`.
pub open spec fn hash_value_of(v: JsonView) -> Option<HashValueView> {
    match (
        str_member_of(v, "data"@),
        str_member_of(v, "encoding"@),
        str_member_of(v, "expression"@),
        width_of(member_of(v, "width"@)),
    ) {
        (Some(data), Some(encoding), Some(expression), Some(width)) => Some(
            HashValueView { data, encoding, expression, width },
        ),
        _ => None,
    }
}

/// The digest as the caller reads it: its hex digits after `0x`.
pub open spec fn digest_text(data: Seq<char>) -> Seq<char> {
    "0x"@ + data
}

/// Decodes a hash function's value.
pub fn decode_hash_value(v: &Json) -> (r: Result<HashValue, ClientError>)
    ensures
        match hash_value_of(v@) {
            Some(h) => r matches Ok(x) && x@ == h,
            None => r matches Err(ClientError::DecodeError(_)),
        },
{
    let data = match v.text_member("data") {
        Some(t) => t,
        None => return Err(ClientError::DecodeError(String::from_str("the value has no text `data`"))),
    };
    let encoding = match v.text_member("encoding") {
        Some(t) => t,
        None => return Err(ClientError::DecodeError(String::from_str("the value has no text `encoding`"))),
    };
    let expression = match v.text_member("expression") {
        Some(t) => t,
        None => return Err(ClientError::DecodeError(String::from_str("the value has no text `expression`"))),
    };
    let width = match v.member("width") {
        Some(Json::Number(t)) => parse_i64(t.as_str()),
        _ => None,
    };
    match width {
        Some(width) => Ok(HashValue { data, encoding, expression, width }),
        None => Err(ClientError::DecodeError(String::from_str("the value has no integer `width`"))),
    }
}

impl HashValue {
    /// The digest's hex digits after the radix marker `0x`.
    pub fn to_hex_string(&self) -> (r: String)
        ensures
            r@ == digest_text(self.data@),
    {
        let prefix = String::from_str("0x");
        prefix.concat(self.data.as_str())
    }
}

/// The digest that a hash function's answer holds, written after `0x`.
pub fn hash_digest(answer: &Answer) -> (r: Result<String, ClientError>)
    ensures
        match hash_value_of(answer.value@) {
            Some(h) => r matches Ok(s) && s@ == digest_text(h.data),
            None => r matches Err(ClientError::DecodeError(_)),
        },
{
    match decode_hash_value(&answer.value) {
        Ok(h) => Ok(h.to_hex_string()),
        Err(e) => Err(e),
    }
}

} // verus!

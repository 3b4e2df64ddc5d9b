//! Calls into other crates.
//!
//! Every item here is taken on trust: the verifier reads the contract and
//! never the body. Each contract says only what the called crate documents.

use vstd::arithmetic::power::pow;
use vstd::prelude::*;

verus! {

/// `serde_json::Value`, the payload of a job. The library carries it and
/// never looks inside.
#[verifier::external_type_specification]
#[verifier::external_body]
pub struct ExJsonValue(serde_json::Value);

/// `serde_json::Error`, raised when a stored record cannot be read or written.
#[verifier::external_type_specification]
#[verifier::external_body]
pub struct ExJsonError(serde_json::Error);

/// `redis::RedisError`, raised by the connection to the store.
#[verifier::external_type_specification]
#[verifier::external_body]
pub struct ExRedisError(redis::RedisError);

/// `uuid::Error`, raised when a text is not an identifier.
#[verifier::external_type_specification]
#[verifier::external_body]
pub struct ExUuidError(uuid::Error);

/// The bits that every random (version 4, RFC 4122 variant) identifier has
/// in common: the version nibble is 4 and the variant bits are `10`.
pub open spec fn is_random_id(id: u128) -> bool {
    id & 0x0000_0000_0000_f000_c000_0000_0000_0000u128
        == 0x0000_0000_0000_4000_8000_0000_0000_0000u128
}

/// `uuid::Uuid::new_v4`, as its 128-bit value. The value is random; what is
/// known of it is the version and variant that `new_v4` stamps on it.
#[verifier::external_body]
pub(crate) fn fresh_id() -> (id: u128)
    ensures
        is_random_id(id),
{
    uuid::Uuid::new_v4().as_u128()
}

/// `chrono::Utc::now`, in milliseconds since the Unix epoch. `now` measures
/// from the epoch, so the count is never negative. (On a machine whose
/// clock stands before the epoch `now` does not return.)
#[verifier::external_body]
pub(crate) fn now_millis() -> (ms: i64)
    ensures
        ms >= 0,
{
    chrono::Utc::now().timestamp_millis()
}

/// `Clone::clone` of `serde_json::Value`: the copy equals the value copied.
#[verifier::external_body]
pub(crate) fn clone_payload(payload: &serde_json::Value) -> (copy: serde_json::Value)
    ensures
        copy == *payload,
{
    payload.clone()
}

/// The lower-case hexadecimal digit of `value`, for `value` in `0..16`.
pub open spec fn hex_digit(value: int) -> char {
    seq!['0', '1', '2', '3', '4', '5', '6', '7', '8', '9', 'a', 'b', 'c', 'd', 'e', 'f'][value]
}

/// The character at place `at` of the hyphenated form of `id`: a hyphen at
/// places 8, 13, 18 and 23, else the next hexadecimal digit of `id`, the
/// most significant first.
pub open spec fn hyphenated_char(id: u128, at: int) -> char {
    if at == 8 || at == 13 || at == 18 || at == 23 {
        '-'
    } else {
        let hyphens_before: int = if at > 23 {
            4
        } else if at > 18 {
            3
        } else if at > 13 {
            2
        } else if at > 8 {
            1
        } else {
            0
        };
        let digit = at - hyphens_before;
        hex_digit((id as int / pow(16, (31 - digit) as nat)) % 16)
    }
}

/// The text of an identifier: 32 lower-case hexadecimal digits in groups
/// of 8, 4, 4, 4 and 12, with hyphens between the groups.
pub open spec fn hyphenated(id: u128) -> Seq<char> {
    Seq::new(36, |at: int| hyphenated_char(id, at))
}

/// `uuid::Uuid`'s `Display`, on the identifier with the bits of `id`: the
/// hyphenated lower-case form.
#[verifier::external_body]
pub(crate) fn id_text(id: u128) -> (text: String)
    ensures
        text@ == hyphenated(id),
{
    uuid::Uuid::from_u128(id).to_string()
}

/// What `uuid::Uuid::parse_str` makes of `text`: the bits of the
/// identifier, or `None` where it finds none. The parser takes the
/// hyphenated form and several others.
pub uninterp spec fn uuid_parse(text: Seq<char>) -> Option<u128>;

/// `uuid::Uuid::parse_str`, with the identifier as its 128-bit value.
#[verifier::external_body]
pub(crate) fn parse_id(text: &str) -> (parsed: Result<u128, uuid::Error>)
    ensures
        match parsed {
            Ok(id) => uuid_parse(text@) == Some(id),
            Err(_) => uuid_parse(text@) is None,
        },
{
    match uuid::Uuid::parse_str(text) {
        Ok(id) => Ok(id.as_u128()),
        Err(error) => Err(error),
    }
}

} // verus!

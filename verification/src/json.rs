//! JSON objects and signed tokens, as the `serde_json` and `jsonwebtoken`
//! crates provide them.
//!
//! An object is held in `serde_json::Map` and known here by its members,
//! [`json_members`]. Signing and verifying are known by name:
//! [`signed_token`] and [`verified_payload`].

use vstd::prelude::*;

verus! {

#[verifier::external_type_specification]
#[verifier::external_body]
pub struct ExJsonValue(serde_json::Value);

#[verifier::external_type_specification]
#[verifier::external_body]
#[verifier::reject_recursive_types(K)]
#[verifier::reject_recursive_types(V)]
pub struct ExJsonMap<K, V>(serde_json::Map<K, V>);

#[verifier::external_type_specification]
#[verifier::external_body]
pub struct ExTokenError(jsonwebtoken::errors::Error);

/// A JSON object as `serde_json` holds it.
pub type JsonObject = serde_json::Map<String, serde_json::Value>;

/// A member of a JSON object, as far as this library reads it: a string, an
/// integer that fits 64 signed bits, or anything else.
pub enum JsonValue {
    Text(Seq<char>),
    Int(int),
    Other,
}

/// The members of a JSON object, by key.
pub uninterp spec fn json_members(object: JsonObject) -> Map<
    Seq<char>,
    JsonValue,
>;

/// The compact token that signing a payload with HMAC-SHA256 under a secret
/// yields; `None` where signing fails.
pub uninterp spec fn signed_token(payload: Map<Seq<char>, JsonValue>, secret: Seq<char>) -> Option<
    Seq<char>,
>;

/// The payload of a token whose structure and signature hold under a secret,
/// which has an `exp` claim and no audience; `None` for every other text.
/// Whether the expiry has passed plays no part.
pub uninterp spec fn verified_payload(token: Seq<char>, secret: Seq<char>) -> Option<
    Map<Seq<char>, JsonValue>,
>;

/// The string under a key, if the object has a string there.
pub open spec fn text_member(members: Map<Seq<char>, JsonValue>, key: Seq<char>) -> Option<
    Seq<char>,
> {
    if members.contains_key(key) {
        match members[key] {
            JsonValue::Text(t) => Some(t),
            _ => None,
        }
    } else {
        None
    }
}

/// The integer under a key, if the object has an integer there.
pub open spec fn int_member(members: Map<Seq<char>, JsonValue>, key: Seq<char>) -> Option<int> {
    if members.contains_key(key) {
        match members[key] {
            JsonValue::Int(n) => Some(n),
            _ => None,
        }
    } else {
        None
    }
}

/// Whether every member is a string or an integer.
pub open spec fn plain_members(members: Map<Seq<char>, JsonValue>) -> bool {
    forall|k: Seq<char>| members.contains_key(k) ==> !(#[trigger] members[k] is Other)
}

/// Whether the default validation of `jsonwebtoken` accepts a payload that
/// was signed here: it asks for a non-negative integer `exp` and, no audience
/// being configured, for no `aud` claim.
pub open spec fn passes_validation(members: Map<Seq<char>, JsonValue>) -> bool {
    &&& int_member(members, "exp"@) matches Some(exp) && exp >= 0
    &&& !members.contains_key("aud"@)
}

/// Calls `serde_json::Map::new`: an object without members.
#[verifier::external_body]
pub(crate) fn json_object() -> (r: JsonObject)
    ensures
        json_members(r) =~= Map::empty(),
{
    serde_json::Map::new()
}

/// Calls `serde_json::Map::insert` with a string value: the member under the
/// key is set, the others stay.
#[verifier::external_body]
pub(crate) fn json_put_text(
    object: &mut JsonObject,
    key: &str,
    text: &str,
)
    ensures
        json_members(*final(object)) == json_members(*old(object)).insert(
            key@,
            JsonValue::Text(text@),
        ),
{
    object.insert(key.to_owned(), serde_json::Value::String(text.to_owned()));
}

/// Calls `serde_json::Map::insert` with an integer value: the member under the
/// key is set, the others stay.
#[verifier::external_body]
pub(crate) fn json_put_int(
    object: &mut JsonObject,
    key: &str,
    number: i64,
)
    ensures
        json_members(*final(object)) == json_members(*old(object)).insert(
            key@,
            JsonValue::Int(number as int),
        ),
{
    object.insert(key.to_owned(), serde_json::Value::from(number));
}

/// Calls `serde_json::Map::get` and copies the string found there, if the
/// member is a string.
#[verifier::external_body]
pub(crate) fn json_text(object: &JsonObject, key: &str) -> (r: Option<String>)
    ensures
        match r {
            Some(t) => text_member(json_members(*object), key@) == Some(t@),
            None => text_member(json_members(*object), key@) is None,
        },
{
    match object.get(key) {
        Some(serde_json::Value::String(s)) => Some(s.clone()),
        _ => None,
    }
}

/// Calls `serde_json::Map::get` and `Value::as_i64`, which gives the member
/// if it is an integer that fits 64 signed bits.
#[verifier::external_body]
pub(crate) fn json_int(object: &JsonObject, key: &str) -> (r: Option<i64>)
    ensures
        match r {
            Some(n) => int_member(json_members(*object), key@) == Some(n as int),
            None => int_member(json_members(*object), key@) is None,
        },
{
    match object.get(key) {
        Some(v) => v.as_i64(),
        None => None,
    }
}

/// Calls `jsonwebtoken::encode` with the default header (HMAC-SHA256) and the
/// secret as key. Claimed: on an object of strings and integers the call is a
/// function of the members and the secret, named [`signed_token`]; and a token
/// it returns verifies under the same secret and carries the members that were
/// signed, where they pass the default validation, since verification signs
/// the same bytes again and compares.
#[verifier::external_body]
pub(crate) fn jwt_sign(payload: &JsonObject, secret: &str) -> (r: Result<
    String,
    jsonwebtoken::errors::Error,
>)
    requires
        plain_members(json_members(*payload)),
    ensures
        match r {
            Ok(t) => signed_token(json_members(*payload), secret@) == Some(t@) && (
            passes_validation(json_members(*payload)) ==> verified_payload(t@, secret@) == Some(
                json_members(*payload),
            )),
            Err(_) => signed_token(json_members(*payload), secret@) is None,
        },
{
    let key = jsonwebtoken::EncodingKey::from_secret(secret.as_bytes());
    jsonwebtoken::encode(&jsonwebtoken::Header::default(), payload, &key)
}

/// Calls `jsonwebtoken::decode` with the secret as key and the default
/// validation, but for the comparison of `exp` with the clock, which is
/// switched off. Claimed: the call is then a function of token and secret,
/// named [`verified_payload`].
#[verifier::external_body]
pub(crate) fn jwt_verify(token: &str, secret: &str) -> (r: Result<
    JsonObject,
    jsonwebtoken::errors::Error,
>)
    ensures
        match r {
            Ok(object) => verified_payload(token@, secret@) == Some(json_members(object)),
            Err(_) => verified_payload(token@, secret@) is None,
        },
{
    let key = jsonwebtoken::DecodingKey::from_secret(secret.as_bytes());
    let mut validation = jsonwebtoken::Validation::default();
    validation.validate_exp = false;
    let data = jsonwebtoken::decode::<JsonObject>(
        token,
        &key,
        &validation,
    )?;
    Ok(data.claims)
}

} // verus!

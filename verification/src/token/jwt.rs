//! The signing scheme: compact HMAC-SHA256 signed tokens, made and opened by
//! the `jsonwebtoken` crate. Nothing in this file is proved; each contract
//! says what the outside function is trusted to do.
use jsonwebtoken::errors::ErrorKind;
use jsonwebtoken::{Algorithm, DecodingKey, EncodingKey, Header, Validation};
use serde_json::Value;
use vstd::prelude::*;

verus! {

/// Why the signing scheme turned a token down, by the kind of error that
/// it reports. `Other` stands for every kind not named here: a claim that
/// it requires and does not find, an algorithm, audience, issuer or subject
/// that it does not admit, a token not yet valid, a key that it cannot use.
#[derive(Debug, Clone, Copy, PartialEq, Eq, Structural)]
pub enum JwtFault {
    InvalidToken,
    InvalidSignature,
    ExpiredSignature,
    Base64,
    Json,
    Utf8,
    Other,
}

/// The members of a claims object that are JSON strings, and those that are
/// unsigned integers, by member name.
pub struct ClaimsDoc {
    pub text: Map<Seq<char>, Seq<char>>,
    pub numbers: Map<Seq<char>, u64>,
}

/// A JSON value of `serde_json`.
#[verifier::external_type_specification]
#[verifier::external_body]
pub struct ExJsonValue(serde_json::Value);

/// The members of a JSON object whose value is a string: member name to
/// string. Empty for a value that is not an object.
pub uninterp spec fn json_text_members(v: serde_json::Value) -> Map<Seq<char>, Seq<char>>;

/// The members of a JSON object whose value is an integer that fits `u64`.
/// Empty for a value that is not an object.
pub uninterp spec fn json_number_members(v: serde_json::Value) -> Map<Seq<char>, u64>;

/// How many dots a text holds.
pub open spec fn dot_count(s: Seq<char>) -> nat
    decreases s.len(),
{
    if s.len() == 0 {
        0
    } else {
        dot_count(s.drop_last()) + if s.last() == '.' {
            1nat
        } else {
            0nat
        }
    }
}

/// What `jsonwebtoken::decode` makes of `token` under the HMAC secret
/// `secret`, with algorithm HS256 and the expiry check switched off: the
/// claims object of a token whose signature verifies, or the fault.
pub uninterp spec fn jwt_decoded(token: Seq<char>, secret: Seq<u8>) -> Result<ClaimsDoc, JwtFault>;

/// The token that `jsonwebtoken::encode` makes of the five claims under the
/// HMAC secret `secret`, with the default (HS256) header.
pub uninterp spec fn jwt_encoded(
    sub: Seq<char>,
    iat: u64,
    exp: u64,
    salt: Seq<char>,
    typ: Seq<char>,
    secret: Seq<u8>,
) -> Result<Seq<char>, JwtFault>;

/// The claims object that `jwt_encode` signs.
pub open spec fn claims_doc(
    sub: Seq<char>,
    iat: u64,
    exp: u64,
    salt: Seq<char>,
    typ: Seq<char>,
) -> ClaimsDoc {
    ClaimsDoc {
        text: Map::empty().insert("sub"@, sub).insert("salt"@, salt).insert("typ"@, typ),
        numbers: Map::empty().insert("iat"@, iat).insert("exp"@, exp),
    }
}

/// `Value::get` with a member name, then `Value::as_str`: the string held by
/// the member `key` of the object `doc`, if `doc` is an object with such a
/// member and the member is a string.
#[verifier::external_body]
pub(crate) fn json_text(doc: &serde_json::Value, key: &str) -> (r: Option<String>)
    ensures
        match r {
            Some(s) => json_text_members(*doc).contains_key(key@) && json_text_members(*doc)[key@]
                == s@,
            None => !json_text_members(*doc).contains_key(key@),
        },
{
    doc.get(key).and_then(|member| member.as_str()).map(|s| s.to_owned())
}

/// `Value::get` with a member name, then `Value::as_u64`: the number held by
/// the member `key` of the object `doc`, if there is such a member and it is
/// an integer that fits `u64`.
#[verifier::external_body]
pub(crate) fn json_number(doc: &serde_json::Value, key: &str) -> (r: Option<u64>)
    ensures
        match r {
            Some(n) => json_number_members(*doc).contains_key(key@) && json_number_members(
                *doc,
            )[key@] == n,
            None => !json_number_members(*doc).contains_key(key@),
        },
{
    doc.get(key).and_then(|member| member.as_u64())
}

/// `jsonwebtoken::decode` with an HMAC secret, algorithm HS256 and the expiry
/// check switched off (the caller compares `exp` with its own clock). The
/// crate splits the token, checks the header's algorithm and the signature,
/// and parses the claims; none of that reads the clock, so the outcome is a
/// function of token and secret. A part that is no base64, no UTF-8 or no
/// JSON is the kind of that name. The second clause is the crate's first
/// step: it splits the text at its last two dots, and where it does not
/// find both, the kind is `InvalidToken`.
#[verifier::external_body]
pub(crate) fn jwt_decode(token: &str, secret: &[u8]) -> (r: Result<serde_json::Value, JwtFault>)
    ensures
        match r {
            Ok(doc) => jwt_decoded(token@, secret@) == Ok::<ClaimsDoc, JwtFault>(
                (ClaimsDoc { text: json_text_members(doc), numbers: json_number_members(doc) }),
            ),
            Err(fault) => jwt_decoded(token@, secret@) == Err::<ClaimsDoc, JwtFault>(fault),
        },
        dot_count(token@) < 2 ==> r matches Err(JwtFault::InvalidToken),
{
    let mut rules = Validation::new(Algorithm::HS256);
    rules.validate_exp = false;
    match jsonwebtoken::decode::<Value>(token, &DecodingKey::from_secret(secret), &rules) {
        Ok(data) => Ok(data.claims),
        Err(e) => Err(match e.kind() {
            ErrorKind::InvalidToken => JwtFault::InvalidToken,
            ErrorKind::InvalidSignature => JwtFault::InvalidSignature,
            ErrorKind::ExpiredSignature => JwtFault::ExpiredSignature,
            ErrorKind::Base64(_) => JwtFault::Base64,
            ErrorKind::Json(_) => JwtFault::Json,
            ErrorKind::Utf8(_) => JwtFault::Utf8,
            _ => JwtFault::Other,
        }),
    }
}

/// `jsonwebtoken::encode` with the default header and an HMAC secret, on a
/// claims object with the members `sub`, `iat`, `exp`, `salt`, `typ`.
///
/// The first clause names the token. The second is the crate's round trip:
/// a token that it signs verifies under the same secret and carries the
/// claims it was given. Encoding signs the base64 of header and claims with
/// HMAC-SHA256; decoding recomputes that signature over the same bytes and
/// parses the same claims; the default header's algorithm is the one that
/// `jwt_decode` admits, and `exp`, the one claim it requires, is there.
#[verifier::external_body]
pub(crate) fn jwt_encode(
    sub: &str,
    iat: u64,
    exp: u64,
    salt: &str,
    typ: &str,
    secret: &[u8],
) -> (r: Result<String, JwtFault>)
    ensures
        match r {
            Ok(token) => {
                &&& jwt_encoded(sub@, iat, exp, salt@, typ@, secret@) == Ok::<Seq<char>, JwtFault>(
                    token@,
                )
                &&& jwt_decoded(token@, secret@) == Ok::<ClaimsDoc, JwtFault>(
                    claims_doc(sub@, iat, exp, salt@, typ@),
                )
            },
            Err(fault) => jwt_encoded(sub@, iat, exp, salt@, typ@, secret@) == Err::<
                Seq<char>,
                JwtFault,
            >(fault),
        },
{
    let claims: Value = [
        ("sub", Value::from(sub)), ("iat", iat.into()), ("exp", exp.into()),
        ("salt", salt.into()), ("typ", typ.into()),
    ].into_iter().collect();
    let key = EncodingKey::from_secret(secret);
    jsonwebtoken::encode(&Header::default(), &claims, &key).map_err(|e| match e.kind() {
        ErrorKind::InvalidToken => JwtFault::InvalidToken,
        ErrorKind::InvalidSignature => JwtFault::InvalidSignature,
        ErrorKind::ExpiredSignature => JwtFault::ExpiredSignature,
        ErrorKind::Base64(_) => JwtFault::Base64,
        ErrorKind::Json(_) => JwtFault::Json,
        ErrorKind::Utf8(_) => JwtFault::Utf8,
        _ => JwtFault::Other,
    })
}

/// `chrono::Utc::now().timestamp()`: the system clock, in seconds since the
/// Unix epoch. The crate takes the time that has passed since the epoch, so
/// the value is never negative; nothing else is known of it.
#[verifier::external_body]
pub(crate) fn unix_now() -> (now: i64)
    ensures
        now >= 0,
{
    chrono::Utc::now().timestamp()
}

} // verus!

//! The session token: a compact signed token that names the subject and its expiry.

use hmac::NewMac;
use jwt::{SignWithKey, VerifyWithKey};
use vstd::prelude::*;

verus! {

/// How long a session token is valid, in seconds: 24 hours.
pub const SESSION_LIFETIME: i64 = 86_400;

/// The claims of a session token.
#[derive(Debug, Clone, Copy, PartialEq, Eq, Structural)]
pub struct JwtRaw {
    /// The subject: who is logged in.
    pub sub: u32,
    /// The expiry, in seconds since the Unix epoch.
    pub exp: i64,
}

/// Why a token was not issued or not accepted.
#[derive(Debug, Clone, Copy, PartialEq, Eq, Structural)]
pub enum TokenError {
    /// The signing key is not an even number of hexadecimal digits.
    InvalidSigningKey,
    /// The signer made no token. The HMAC signer that is called always makes one.
    Signing,
    /// The token is malformed, is signed with another key or lacks a claim.
    InvalidToken,
    /// The token's expiry has passed.
    Expired,
}

pub open spec fn is_hex_digit(c: char) -> bool {
    ||| '0' <= c <= '9'
    ||| 'a' <= c <= 'f'
    ||| 'A' <= c <= 'F'
}

/// The value of a hexadecimal digit, in either case.
pub open spec fn hex_digit_value(c: char) -> int
    recommends
        is_hex_digit(c),
{
    if '0' <= c <= '9' {
        c as int - 0x30
    } else if 'a' <= c <= 'f' {
        c as int - 0x61 + 10
    } else {
        c as int - 0x41 + 10
    }
}

/// An even number of hexadecimal digits, and nothing else.
pub open spec fn is_hex_text(text: Seq<char>) -> bool {
    &&& text.len() % 2 == 0
    &&& forall|i: int| 0 <= i < text.len() ==> is_hex_digit(#[trigger] text[i])
}

/// The bytes that a hexadecimal text stands for: one for each pair of digits.
pub open spec fn hex_decoded(text: Seq<char>) -> Seq<u8>
    recommends
        is_hex_text(text),
{
    Seq::new(
        text.len() / 2,
        |i: int| (16 * hex_digit_value(text[2 * i]) + hex_digit_value(text[2 * i + 1])) as u8,
    )
}

#[verifier::external_type_specification]
#[verifier::external_body]
pub struct ExFromHexError(hex::FromHexError);

/// Calls `hex::decode`. It reads the text's bytes two by two, each pair as the high and
/// the low digit of one byte, in either case, and fails on an odd number of bytes or on
/// a byte that is no hexadecimal digit. A text of hexadecimal digits has one byte for
/// each character, and a character that is none has no byte that is one.
#[verifier::external_body]
fn hex_decode(text: &str) -> (decoded: Result<Vec<u8>, hex::FromHexError>)
    ensures
        decoded is Ok <==> is_hex_text(text@),
        decoded matches Ok(bytes) ==> bytes@ == hex_decoded(text@),
{
    hex::decode(text)
}

/// The compact HS256 token that the signer makes of a key and the two claims, if it
/// makes one.
pub uninterp spec fn signed_token(key: Seq<u8>, sub: u32, exp: i64) -> Option<Seq<char>>;

/// The `sub` and `exp` claims that the verifier reads out of a token under a key, if it
/// accepts the token.
pub uninterp spec fn verified_claims(key: Seq<u8>, token: Seq<char>) -> Option<(i64, i64)>;

/// Calls `jwt::Token::sign_with_key` with an HMAC-SHA256 key made of `key` by
/// `Hmac::new_from_slice`, a header that names HS256 and nothing else, and the claims
/// `sub` and `exp`. The token is the base64url of the header's JSON, of the claims' JSON
/// and of the HMAC over both, joined by dots. None of the steps can fail here: an HMAC
/// key may have any length, the header's algorithm is the key's, and a header and two
/// integers always have a JSON. `verify_with_key` recomputes that HMAC and parses the
/// same JSON, so it accepts the token under the same key and reads the same two claims.
#[verifier::external_body]
fn sign_hs256(key: &[u8], sub: u32, exp: i64) -> (token: Option<String>)
    ensures
        token is Some,
        token.deep_view() == signed_token(key@, sub, exp),
        token matches Some(text) ==> verified_claims(key@, text@) == Some((sub as i64, exp)),
{
    let key: hmac::Hmac<sha2::Sha256> = hmac::Hmac::new_from_slice(key).ok()?;
    let header = jwt::Header { algorithm: jwt::AlgorithmType::Hs256, ..Default::default() };
    let mut claims = std::collections::BTreeMap::new();
    claims.insert("sub", i64::from(sub));
    claims.insert("exp", exp);
    let signed = jwt::Token::new(header, claims).sign_with_key(&key).ok()?;
    Some(signed.as_str().to_string())
}

/// Calls `jwt::VerifyWithKey::verify_with_key` on the token's text with an HMAC-SHA256
/// key made of `key`, and hands out the `sub` and `exp` claims of a token that it
/// accepts: one of three base64url parts whose header names HS256, whose signature is
/// the HMAC of the first two parts under the key, and whose claims are a JSON object
/// of integers.
#[verifier::external_body]
fn verify_hs256(key: &[u8], token: &str) -> (claims: Option<(i64, i64)>)
    ensures
        claims == verified_claims(key@, token@),
{
    let key: hmac::Hmac<sha2::Sha256> = hmac::Hmac::new_from_slice(key).ok()?;
    let claims: std::collections::BTreeMap<String, i64> = token.verify_with_key(&key).ok()?;
    Some((*claims.get("sub")?, *claims.get("exp")?))
}

/// Calls `chrono::Utc::now` and `DateTime::timestamp`: the system clock's seconds since
/// the Unix epoch. `now` takes the clock's time since the epoch and keeps it only within
/// chrono's range of years, which ends before 2^43 seconds.
#[verifier::external_body]
pub(crate) fn unix_now() -> (now: i64)
    ensures
        0 <= now < 0x800_0000_0000,
{
    chrono::Utc::now().timestamp()
}

/// The signing key that a hexadecimal text stands for.
pub fn decode_key(secret: &str) -> (key: Result<Vec<u8>, TokenError>)
    ensures
        key is Ok <==> is_hex_text(secret@),
        key matches Ok(bytes) ==> bytes@ == hex_decoded(secret@),
        key matches Err(e) ==> e == TokenError::InvalidSigningKey,
{
    match hex_decode(secret) {
        Ok(bytes) => Ok(bytes),
        Err(_) => Err(TokenError::InvalidSigningKey),
    }
}

/// What issuing a token gives: for a subject, at an instant, under a key in hexadecimal.
pub open spec fn issued(secret: Seq<char>, subject: u32, now: i64) -> Result<Seq<char>, TokenError> {
    if !is_hex_text(secret) {
        Err(TokenError::InvalidSigningKey)
    } else {
        match signed_token(hex_decoded(secret), subject, (now + SESSION_LIFETIME) as i64) {
            Some(token) => Ok(token),
            None => Err(TokenError::Signing),
        }
    }
}

/// What validating a token gives: at an instant, under a key in hexadecimal.
pub open spec fn validated(secret: Seq<char>, token: Seq<char>, now: i64) -> Result<
    JwtRaw,
    TokenError,
> {
    if !is_hex_text(secret) {
        Err(TokenError::InvalidSigningKey)
    } else {
        match verified_claims(hex_decoded(secret), token) {
            None => Err(TokenError::InvalidToken),
            Some((sub, exp)) => {
                if sub < 0 || sub > u32::MAX {
                    Err(TokenError::InvalidToken)
                } else if exp <= now {
                    Err(TokenError::Expired)
                } else {
                    Ok(JwtRaw { sub: sub as u32, exp })
                }
            },
        }
    }
}

/// Whether a token validates under the key as the session token of `subject` issued at
/// `now`, at every instant before its expiry.
pub open spec fn valid_session_token(
    secret: Seq<char>,
    token: Seq<char>,
    subject: u32,
    now: i64,
) -> bool {
    forall|at: i64|
        at < now + SESSION_LIFETIME ==> #[trigger] validated(secret, token, at) == Ok::<
            JwtRaw,
            TokenError,
        >(JwtRaw { sub: subject, exp: (now + SESSION_LIFETIME) as i64 })
}

/// A result with its token as plain text.
pub open spec fn token_view(result: Result<String, TokenError>) -> Result<Seq<char>, TokenError> {
    match result {
        Ok(token) => Ok(token@),
        Err(e) => Err(e),
    }
}

/// Issues a session token for `subject` at the instant `now`: signed with the key that
/// `secret` stands for, expiring 24 hours later.
///
/// A token is issued under every key of hexadecimal digits, and under no other. It
/// depends on the key, the subject and the instant alone, so two tokens issued for one
/// subject at one instant are the same text. Until it expires, the token validates
/// under the same key and reports the same subject.
pub fn issue_token(secret: &str, subject: u32, now: i64) -> (token: Result<String, TokenError>)
    requires
        now + SESSION_LIFETIME <= i64::MAX,
    ensures
        token_view(token) == issued(secret@, subject, now),
        token is Ok <==> is_hex_text(secret@),
        token matches Err(e) ==> e == TokenError::InvalidSigningKey,
        token matches Ok(text) ==> valid_session_token(secret@, text@, subject, now),
{
    let key = decode_key(secret)?;
    let exp: i64 = now + SESSION_LIFETIME;
    match sign_hs256(key.as_slice(), subject, exp) {
        Some(text) => Ok(text),
        None => Err(TokenError::Signing),
    }
}

/// Issues a session token for `subject` at the present instant: the token that
/// `issue_token` gives for some instant of the clock's range, which validates under the
/// key with the subject until 24 hours after that instant.
pub fn generate_jwt(secret: &str, subject: u32) -> (token: Result<String, TokenError>)
    ensures
        exists|now: i64|
            {
                &&& 0 <= now < 0x800_0000_0000
                &&& token_view(token) == #[trigger] issued(secret@, subject, now)
                &&& token matches Ok(text) ==> valid_session_token(secret@, text@, subject, now)
            },
        token is Ok <==> is_hex_text(secret@),
        token matches Err(e) ==> e == TokenError::InvalidSigningKey,
{
    let now = unix_now();
    issue_token(secret, subject, now)
}

/// Checks a session token at the instant `now` under the key that `secret` stands for,
/// and reads its claims.
pub fn validate_jwt(secret: &str, token: &str, now: i64) -> (claims: Result<JwtRaw, TokenError>)
    ensures
        claims == validated(secret@, token@, now),
{
    let key = decode_key(secret)?;
    match verify_hs256(key.as_slice(), token) {
        None => Err(TokenError::InvalidToken),
        Some((sub, exp)) => {
            if sub < 0 || sub > 0xffff_ffff {
                Err(TokenError::InvalidToken)
            } else if exp <= now {
                Err(TokenError::Expired)
            } else {
                Ok(JwtRaw { sub: sub as u32, exp })
            }
        },
    }
}

/// Two results of issuing under one key, for one subject and at one instant are the
/// same, token for token.
pub proof fn lemma_same_instant_same_token(
    secret: Seq<char>,
    subject: u32,
    now: i64,
    first: Result<Seq<char>, TokenError>,
    second: Result<Seq<char>, TokenError>,
)
    requires
        first == issued(secret, subject, now),
        second == issued(secret, subject, now),
    ensures
        first == second,
{
}

/// Two tokens issued under one key for one subject differ only if their instants differ.
pub proof fn lemma_tokens_differ_only_by_instant(
    secret: Seq<char>,
    subject: u32,
    first: i64,
    second: i64,
)
    ensures
        issued(secret, subject, first) != issued(secret, subject, second) ==> first != second,
{
}

} // verus!

//! The token authority and password-credential handling.
//!
//! Tokens are signed bearer tokens carrying a subject (the user identifier),
//! an issued-at instant and an expiry, with a fixed time-to-live. Signing and
//! signature checking are done by an outside crate behind trusted wrappers;
//! everything decided from the decoded claims — in particular the expiry
//! check — is verified code.

use vstd::prelude::*;

use argon2::password_hash::{PasswordHasher, PasswordVerifier};

verus! {

/// Seconds an issued token stays valid.
pub const TOKEN_TTL_SECS: u64 = 3600;

/// The decoded, verified payload of a bearer token: subject (user
/// identifier), issued-at and expiry instants, in seconds. For every issued
/// token the expiry lies strictly after the issued-at instant.
#[derive(Debug, Clone, Copy, PartialEq, Eq, Structural)]
pub struct Claims {
    pub sub: u64,
    pub iat: u64,
    pub exp: u64,
}

/// How verification of a bearer token fails: a bad signature or malformed
/// structure, or a well-signed token whose expiry has passed.
#[derive(Debug, Clone, Copy, PartialEq, Eq, Structural)]
pub enum TokenError {
    InvalidToken,
    TokenExpired,
}

/// The signed token that the outside signer produces for these claims and
/// this secret: a deterministic function of its arguments alone.
pub uninterp spec fn token_of(sub: u64, iat: u64, exp: u64, secret: Seq<char>) -> Seq<char>;

/// Relies on jsonwebtoken::encode with the default HS256 header: the token is
/// computed from the claims and the secret alone. The subject travels as its
/// decimal string, the two instants as integers. The call cannot fail here —
/// its only error exits are an algorithm-family mismatch (the header and the
/// key are both HMAC), serialization of the claims (total for a string-keyed
/// map of strings and integers) and HMAC signing (infallible) — so a token is
/// always returned.
#[verifier::external_body]
fn encode_token(sub: u64, iat: u64, exp: u64, secret: &str) -> (r: String)
    ensures
        r@ == token_of(sub, iat, exp, secret@),
{
    let mut claims = serde_json::Map::new();
    claims.insert("sub".to_string(), serde_json::Value::String(sub.to_string()));
    claims.insert("iat".to_string(), serde_json::Value::from(iat));
    claims.insert("exp".to_string(), serde_json::Value::from(exp));
    jsonwebtoken::encode(
        &jsonwebtoken::Header::default(),
        &serde_json::Value::Object(claims),
        &jsonwebtoken::EncodingKey::from_secret(secret.as_bytes()),
    )
    .expect("signing an HMAC token over plain claims has no failure path")
}

/// What the outside decoder makes of a token under a secret. Expiry and
/// every other clock-dependent check are off in the wrapper below, so the
/// outcome is a function of the two arguments alone.
pub uninterp spec fn decode_of(token: Seq<char>, secret: Seq<char>) -> Option<Claims>;

/// Relies on jsonwebtoken::decode with HS256: a token signed with this secret
/// decodes to exactly the claims it was signed over (the documented round
/// trip with jsonwebtoken::encode). Expiry is deliberately not checked here —
/// the verified caller decides it — so of other inputs only this is assumed:
/// the outcome depends on the token and the secret alone.
#[verifier::external_body]
fn decode_token(token: &str, secret: &str) -> (r: Option<Claims>)
    ensures
        r == decode_of(token@, secret@),
        forall|s: u64, i: u64, e: u64|
            token@ == token_of(s, i, e, secret@) ==> r == Some(Claims { sub: s, iat: i, exp: e }),
{
    let mut validation = jsonwebtoken::Validation::new(jsonwebtoken::Algorithm::HS256);
    validation.validate_exp = false;
    validation.required_spec_claims = std::collections::HashSet::new();
    let key = jsonwebtoken::DecodingKey::from_secret(secret.as_bytes());
    let data = jsonwebtoken::decode::<serde_json::Value>(token, &key, &validation).ok()?;
    let sub = data.claims.get("sub")?.as_str()?.parse::<u64>().ok()?;
    let iat = data.claims.get("iat")?.as_u64()?;
    let exp = data.claims.get("exp")?.as_u64()?;
    Some(Claims { sub, iat, exp })
}

/// What verification returns once the signature check has spoken: a malformed
/// or badly signed token is `InvalidToken`; well-signed claims whose expiry
/// lies in the past are `TokenExpired`, whatever the signature said; anything
/// else is accepted.
pub open spec fn claims_outcome(decoded: Option<Claims>, now: u64) -> Result<Claims, TokenError> {
    match decoded {
        None => Err(TokenError::InvalidToken),
        Some(c) => if now > c.exp {
            Err(TokenError::TokenExpired)
        } else {
            Ok(c)
        },
    }
}

/// The decision taken on a decoding outcome, exact for every value of it.
pub fn accept_claims(decoded: Option<Claims>, now: u64) -> (r: Result<Claims, TokenError>)
    ensures
        r == claims_outcome(decoded, now),
{
    match decoded {
        None => Err(TokenError::InvalidToken),
        Some(c) => {
            if now > c.exp {
                Err(TokenError::TokenExpired)
            } else {
                Ok(c)
            }
        },
    }
}

/// The token authority: holds the process-wide signing secret, supplied once
/// at startup and never mutated.
#[derive(Clone)]
pub struct JwtKeys {
    secret: String,
}

impl JwtKeys {
    /// The signing secret, visible to specifications only.
    pub closed spec fn spec_secret(&self) -> Seq<char> {
        self.secret@
    }

    pub fn new(secret: String) -> (r: Self)
        ensures
            r.spec_secret() == secret@,
    {
        JwtKeys { secret }
    }

    /// Issues a signed token for this user: issued now, expiring a fixed
    /// time-to-live later. Issuance always succeeds — the outside signer has
    /// no failure path for this shape of claims — and the expiry lies
    /// strictly after the issued-at instant.
    pub fn generate_token(&self, user_id: u64, now: u64) -> (r: String)
        requires
            now + TOKEN_TTL_SECS <= u64::MAX,
        ensures
            r@ == token_of(user_id, now, (now + TOKEN_TTL_SECS) as u64, self.spec_secret()),
    {
        encode_token(user_id, now, now + TOKEN_TTL_SECS, self.secret.as_str())
    }

    /// Verifies a bearer token at the instant `now`. A token that does not
    /// carry this authority's signature, or is malformed, fails with
    /// `InvalidToken`; a well-signed token whose expiry has passed fails with
    /// `TokenExpired`; no accepted claim is ever expired. Pure, stateless and
    /// deterministic: on every input the result is exactly the decision taken
    /// on what the decoder makes of the token under this secret.
    pub fn verify_token(&self, token: &str, now: u64) -> (r: Result<Claims, TokenError>)
        ensures
            r == claims_outcome(decode_of(token@, self.spec_secret()), now),
            r matches Ok(c) ==> now <= c.exp,
            forall|s: u64, i: u64, e: u64|
                token@ == token_of(s, i, e, self.spec_secret())
                    ==> r == claims_outcome(Some(Claims { sub: s, iat: i, exp: e }), now),
    {
        let decoded = decode_token(token, self.secret.as_str());
        accept_claims(decoded, now)
    }
}

/// A result that only the outside hasher can decide, carried as a named
/// predicate: whether this password verifies against this hash string.
pub uninterp spec fn password_matches(password: Seq<char>, hash: Seq<char>) -> bool;

/// Relies on argon2's verify_password with the default context: the outcome
/// is recomputed from the password and from the algorithm, parameters, salt
/// and output embedded in the hash string, so it depends on the arguments
/// alone. A hash string that does not parse verifies as false.
#[verifier::external_body]
pub fn verify_password(password: &str, hash: &str) -> (r: bool)
    ensures
        r == password_matches(password@, hash@),
{
    match argon2::password_hash::PasswordHash::new(hash) {
        Ok(parsed) => {
            argon2::Argon2::default().verify_password(password.as_bytes(), &parsed).is_ok()
        },
        Err(_) => false,
    }
}

/// Relies on argon2's hash_password with the default context and a fresh
/// OsRng salt. The salt is drawn at random, so nothing is claimed about the
/// hash itself beyond the documented round trip: the hashed password
/// verifies against the returned hash.
#[verifier::external_body]
pub fn hash_password(password: &str) -> (r: Option<String>)
    ensures
        r matches Some(h) ==> password_matches(password@, h@),
{
    let salt = argon2::password_hash::SaltString::generate(&mut rand_core::OsRng);
    match argon2::Argon2::default().hash_password(password.as_bytes(), &salt) {
        Ok(hash) => Some(hash.to_string()),
        Err(_) => None,
    }
}

} // verus!

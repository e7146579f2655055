//! Session tokens (JSON Web Tokens signed with HS256) that carry a user name.
use vstd::prelude::*;
use crate::config::Config;

verus! {

/// The claims of a session token.
pub struct JwtClaims {
    pub username: String,
}

/// Signs and checks session tokens with the configured secret.
pub struct Jwt {
    secret: String,
}

/// The error type of the JSON Web Token library, carried through unchanged.
#[verifier::external_type_specification]
#[verifier::external_body]
pub struct ExJwtError(jsonwebtoken::errors::Error);

/// The token that `jsonwebtoken::encode` produces for the claims
/// `{"username": username}` under the default header (HS256) and `secret`.
pub uninterp spec fn hs256_token(username: Seq<char>, secret: Seq<char>) -> Seq<char>;

/// The user name claim of `token` when its signature is valid under `secret`
/// and its claims hold a string `username`; `None` otherwise.
pub uninterp spec fn token_username(token: Seq<char>, secret: Seq<char>) -> Option<Seq<char>>;

/// Calls `jsonwebtoken::encode` with the default header, the claims converted
/// to a one-entry map, and `EncodingKey::from_secret`. Claimed: the result is
/// `Ok` (the library fails only for a key of another algorithm family than
/// the header's, and HMAC signing and serialising a map of strings do not
/// fail), it is `hs256_token` of the arguments, and decoding it with the same
/// secret gives the user name back (the signature is the one `decode`
/// recomputes, and the payload is the serialised claims).
#[verifier::external_body]
fn encode_token(claims: &JwtClaims, secret: &str) -> (r: Result<String, jsonwebtoken::errors::Error>)
    ensures
        r is Ok,
        r matches Ok(t) ==> t@ == hs256_token(claims.username@, secret@),
        r matches Ok(t) ==> token_username(t@, secret@) == Some(claims.username@),
{
    let map = std::collections::BTreeMap::from([("username", claims.username.as_str())]);
    jsonwebtoken::encode(
        &jsonwebtoken::Header::default(),
        &map,
        &jsonwebtoken::EncodingKey::from_secret(secret.as_bytes()),
    )
}

/// Calls `jsonwebtoken::decode` with `DecodingKey::from_secret` and the
/// default validation (HS256, expiry checked against the clock), decoding the
/// claims as a JSON object, and reads its `username` field as a string with
/// `serde_json::from_value`; a missing or non-string `username` is the JSON
/// error that reading gives, turned into the token library's error by its
/// `From<serde_json::Error>`. Claimed: when the call succeeds, the name is
/// `token_username` of the arguments. Left unsaid: when it fails, since that
/// depends on the clock.
#[verifier::external_body]
fn decode_username(token: &str, secret: &str) -> (r: Result<String, jsonwebtoken::errors::Error>)
    ensures
        r matches Ok(u) ==> token_username(token@, secret@) == Some(u@),
{
    let data = jsonwebtoken::decode::<serde_json::Map<String, serde_json::Value>>(
        token,
        &jsonwebtoken::DecodingKey::from_secret(secret.as_bytes()),
        &jsonwebtoken::Validation::default(),
    )?;
    let username = data.claims.get("username").cloned().unwrap_or(serde_json::Value::Null);
    Ok(serde_json::from_value::<String>(username)?)
}

/// The claims that a decoding outcome stands for; a refusal is passed on.
pub fn claims_from_decoded(decoded: Result<String, jsonwebtoken::errors::Error>) -> (r: Result<JwtClaims, jsonwebtoken::errors::Error>)
    ensures
        match decoded {
            Ok(u) => r matches Ok(c) && c.username == u,
            Err(e) => r == Err::<JwtClaims, jsonwebtoken::errors::Error>(e),
        },
{
    match decoded {
        Ok(username) => Ok(JwtClaims { username }),
        Err(e) => Err(e),
    }
}

impl Jwt {
    /// The secret tokens are signed with.
    pub closed spec fn secret(self) -> Seq<char> {
        self.secret@
    }

    /// A signer that uses the configured secret.
    pub fn new(config: &Config) -> (j: Self)
        ensures
            j.secret() == config.jwt_secret@,
    {
        Jwt { secret: config.jwt_secret.clone() }
    }

    /// A session token for `username`.
    pub fn create_jwt(&self, username: String) -> (r: Result<String, jsonwebtoken::errors::Error>)
        ensures
            r is Ok,
            r matches Ok(t) ==> t@ == hs256_token(username@, self.secret()),
            r matches Ok(t) ==> token_username(t@, self.secret()) == Some(username@),
    {
        let claims = JwtClaims { username };
        encode_token(&claims, self.secret.as_str())
    }

    /// The claims of a session token signed with this secret. Whenever a
    /// token is accepted, the name given back is the one it was signed with;
    /// a token that is not validly signed with this secret, or that carries no
    /// user name, is refused with the token library's error. Whether a
    /// validly signed one is accepted also depends on its time claims and the
    /// clock, so it is not promised.
    pub fn verify_jwt(&self, token: &str) -> (r: Result<JwtClaims, jsonwebtoken::errors::Error>)
        ensures
            r matches Ok(c) ==> token_username(token@, self.secret()) == Some(c.username@),
            token_username(token@, self.secret()) is None ==> r is Err,
    {
        let decoded = decode_username(token, self.secret.as_str());
        claims_from_decoded(decoded)
    }
}

} // verus!

use std::collections::BTreeMap;

use violet::config::Config;
use violet::jwt::{claims_from_decoded, Jwt};
use violet::tokens::{create_token, hex_encode, token_from_cuid};

fn config(secret: &str) -> Config {
    Config { server_port: 3000, jwt_secret: secret.to_string(), database_url: String::new() }
}

#[test]
fn hex_encoding_is_lowercase_pairs() {
    assert_eq!(hex_encode(&[]), "");
    assert_eq!(hex_encode(&[0x00, 0xff, 0x1a, 0x9c]), "00ff1a9c");
}

#[test]
fn token_is_sha3_512_hex_of_the_seed() {
    assert_eq!(
        token_from_cuid("abc"),
        "b751850b1a57168a5693cd924b6b096e08f621827444f70d884f5d0240d2712e10e116e9192af3c91a7ec57647e3934057340b4cf408d5a56592f8274eec53f0"
    );
}

#[test]
fn created_tokens_have_the_token_shape() {
    let a = create_token().ok().unwrap();
    let b = create_token().ok().unwrap();
    assert_eq!(a.len(), 128);
    assert!(a.chars().all(|c| c.is_ascii_digit() || ('a'..='f').contains(&c)));
    assert_ne!(a, b);
}

#[test]
fn jwt_tokens_carry_the_user() {
    let jwt = Jwt::new(&config("s3cret"));
    let token = jwt.create_jwt("alice".to_string()).ok().unwrap();
    let parts: Vec<&str> = token.split('.').collect();
    assert_eq!(parts.len(), 3);
    assert_eq!(parts[0], "eyJ0eXAiOiJKV1QiLCJhbGciOiJIUzI1NiJ9");
    assert_eq!(parts[1], "eyJ1c2VybmFtZSI6ImFsaWNlIn0");
    // The default validation asks for an expiry claim, which these tokens do not carry.
    assert!(jwt.verify_jwt(&token).is_err());
}

fn signed(claims: &BTreeMap<String, serde_json::Value>, secret: &str) -> String {
    jsonwebtoken::encode(
        &jsonwebtoken::Header::default(),
        claims,
        &jsonwebtoken::EncodingKey::from_secret(secret.as_bytes()),
    )
    .unwrap()
}

fn far_future() -> serde_json::Value {
    serde_json::Value::from(4_102_444_800u64)
}

#[test]
fn jwt_verification_reads_the_username() {
    let jwt = Jwt::new(&config("s3cret"));
    let mut claims = BTreeMap::new();
    claims.insert("username".to_string(), serde_json::Value::from("bob"));
    claims.insert("exp".to_string(), far_future());
    let token = signed(&claims, "s3cret");
    match jwt.verify_jwt(&token) {
        Ok(c) => assert_eq!(c.username, "bob"),
        Err(_) => panic!("expected the token to be accepted"),
    }
    assert!(matches!(jwt.verify_jwt(&signed(&claims, "other")), Err(_)));
    assert!(matches!(jwt.verify_jwt("not a token"), Err(_)));
    let mut nameless = BTreeMap::new();
    nameless.insert("exp".to_string(), far_future());
    assert!(jwt.verify_jwt(&signed(&nameless, "s3cret")).is_err());
    let mut numbered = nameless.clone();
    numbered.insert("username".to_string(), serde_json::Value::from(7));
    assert!(jwt.verify_jwt(&signed(&numbered, "s3cret")).is_err());
}

#[test]
fn decoded_claims_mapping() {
    assert_eq!(claims_from_decoded(Ok("carol".to_string())).ok().unwrap().username, "carol");
    assert!(claims_from_decoded(Err(jsonwebtoken::errors::ErrorKind::InvalidToken.into())).is_err());
}

#[test]
fn default_config() {
    let c = Config::default();
    assert_eq!(c.server_port, 3000);
    assert_eq!(c.jwt_secret, "");
    let loaded = Config::get_config(Some(config("k")));
    assert_eq!(loaded.jwt_secret, "k");
    assert_eq!(Config::get_config(None).server_port, 3000);
}

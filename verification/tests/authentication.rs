use std::collections::BTreeMap;

use violet::authentication_middleware::{Authentication, BearerSession};
use violet::config::Config;
use violet::controllers::authentication_extractor::UserAuthentication as RouteUser;
use violet::controllers::errors_authentication_middleware::ErrorsAuthentication;
use violet::database::app_tokens::{AppTokenError, AppTokens};
use violet::database::users::Users;
use violet::extractors::{authorization_token, ErrorAuthentication, ExtractorError, UserAuthentication};
use violet::http::Header;
use violet::jwt::{Jwt, JwtClaims};

fn check(e: &ExtractorError, status: u16, message: &str) {
    assert_eq!(e.status_code(), status);
    assert_eq!(e.message(), message);
    assert_eq!(e.to_string(), message);
}

fn jwt() -> Jwt {
    Jwt::new(&Config { server_port: 3000, jwt_secret: "k".to_string(), database_url: String::new() })
}

fn session_token(user: &str) -> String {
    let mut claims = BTreeMap::new();
    claims.insert("username".to_string(), serde_json::Value::from(user));
    claims.insert("exp".to_string(), serde_json::Value::from(4_102_444_800u64));
    jsonwebtoken::encode(&jsonwebtoken::Header::default(), &claims, &jsonwebtoken::EncodingKey::from_secret(b"k")).unwrap()
}

fn user(name: &str) -> Users {
    Users { username: name.to_string(), password_hash: "h".to_string(), last_token: None }
}

#[test]
fn authorization_header_forms() {
    check(&authorization_token(Header::Absent).err().unwrap(), 401, "Missing authorization header");
    check(&authorization_token(Header::Opaque).err().unwrap(), 401, "Invalid token format");
    assert_eq!(authorization_token(Header::Text("Bearer abc".to_string())).ok().unwrap(), "abc");
}

#[test]
fn user_extractor() {
    let j = jwt();
    let t = session_token("ana");
    let (token, claims) = UserAuthentication::session_token(&j, Header::Text(format!("Bearer {}", t))).ok().unwrap();
    assert_eq!(token, t);
    assert_eq!(claims.username, "ana");
    check(&UserAuthentication::session_token(&j, Header::Text("Bearer nope".to_string())).err().unwrap(), 401, "Jwt verification error");
    let claims = JwtClaims { username: "ana".to_string() };
    assert_eq!(UserAuthentication::from_lookup(claims, Ok(user("ana"))).ok().unwrap().username, "ana");
    let claims = JwtClaims { username: "ana".to_string() };
    check(&UserAuthentication::from_lookup(claims, Ok(user("bob"))).err().unwrap(), 401, "Invalid token");
    let claims = JwtClaims { username: "ana".to_string() };
    check(&UserAuthentication::from_lookup(claims, Err(sqlx::Error::RowNotFound)).err().unwrap(), 401, "Error to get token in database");
}

#[test]
fn route_user_extractor_messages() {
    let j = jwt();
    check(&RouteUser::session_token(&j, Header::Absent).err().unwrap(), 401, "Missing Authorization header");
    check(&RouteUser::session_token(&j, Header::Opaque).err().unwrap(), 401, "Invalid Authorization header");
    check(&RouteUser::session_token(&j, Header::Text("x".to_string())).err().unwrap(), 401, "Invalid token");
    let claims = JwtClaims { username: "ana".to_string() };
    check(&RouteUser::from_lookup(claims, Err(sqlx::Error::RowNotFound)).err().unwrap(), 401, "Invalid token");
}

fn app_token(cors: bool) -> AppTokens {
    AppTokens { token: "t".to_string(), app_id: 6, permit_cors: cors, subapp_name: None }
}

#[test]
fn application_extractor() {
    assert_eq!(ErrorAuthentication::cors_request(Header::Absent), None);
    assert_eq!(ErrorAuthentication::cors_request(Header::Text(String::new())), Some(false));
    assert_eq!(ErrorAuthentication::cors_request(Header::Text("cors".to_string())), Some(true));
    let a = ErrorAuthentication::from_lookup("t".to_string(), Some(true), Ok(app_token(true))).ok().unwrap();
    assert_eq!((a.app_id, a.token.as_str()), (6, "t"));
    check(&ErrorAuthentication::from_lookup("t".to_string(), Some(true), Ok(app_token(false))).err().unwrap(), 401, "Token not permit cors");
    assert!(ErrorAuthentication::from_lookup("t".to_string(), Some(false), Ok(app_token(false))).is_ok());
    check(&ErrorAuthentication::from_lookup("t".to_string(), None, Err(AppTokenError::Unauthorized)).err().unwrap(), 401, "Invalid token");
    check(&ErrorAuthentication::from_lookup("t".to_string(), None, Err(AppTokenError::GenericError(sqlx::Error::PoolClosed))).err().unwrap(), 500, "Internal error");
}

#[test]
fn session_guard() {
    let j = jwt();
    let t = session_token("ana");
    let s = Authentication::bearer_session(&j, Header::Text(format!("Bearer {}", t))).unwrap();
    assert_eq!(s.claims.username, "ana");
    assert!(Authentication::bearer_session(&j, Header::Text(t.clone())).is_none());
    assert!(Authentication::bearer_session(&j, Header::Absent).is_none());
    assert!(Authentication::bearer_session(&j, Header::Text("Bearer not-a-token".to_string())).is_none());
    check(&Authentication::require_session(None).err().unwrap(), 401, "No token provided");
    let session = BearerSession { token: t, claims: JwtClaims { username: "ana".to_string() } };
    let s = Authentication::require_session(Some(session)).ok().unwrap();
    assert!(Authentication::session_result(&s.claims, Ok(user("ana"))).is_ok());
    check(&Authentication::session_result(&s.claims, Ok(user("bob"))).err().unwrap(), 401, "Invalid token");
    check(&Authentication::session_result(&s.claims, Err(sqlx::Error::RowNotFound)).err().unwrap(), 401, "Invalid token");
}

#[test]
fn errors_guard() {
    check(&ErrorsAuthentication::request_token(Header::Absent).err().unwrap(), 401, "Missing Authorization Header");
    check(&ErrorsAuthentication::request_token(Header::Opaque).err().unwrap(), 401, "Invalid Authorization Header");
    assert_eq!(ErrorsAuthentication::request_token(Header::Text("Bearer t".to_string())).ok().unwrap().token, "Bearer t");
    check(&ErrorsAuthentication::lookup_result(Err(AppTokenError::Unauthorized)).err().unwrap(), 401, "Invalid Token");
    check(&ErrorsAuthentication::lookup_result(Err(AppTokenError::GenericError(sqlx::Error::PoolClosed))).err().unwrap(), 500, "Internal Server Error");
    check(&ErrorsAuthentication::cors_result(&app_token(false), true).err().unwrap(), 401, "CORS is not permitted for this token");
    assert!(ErrorsAuthentication::cors_result(&app_token(true), true).is_ok());
    assert!(ErrorsAuthentication::cors_result(&app_token(false), false).is_ok());
}

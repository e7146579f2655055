use violet::channels::Channel;
use violet::controllers::apps::{create_reply, create_start, update_reply, update_start, AppDto};
use violet::controllers::apps_errors::{list_reply as errors_list_reply, list_search, ErrorsListQuery};
use violet::controllers::apps_tokens::{create_check, create_reply as token_create_reply, create_token_record, list_reply as tokens_list_reply, AppTokensDto, TokenFailure};
use violet::controllers::errors::{create_reply as error_create_reply, create_start as error_create_start, ErrorsDto};
use violet::controllers::test::index;
use violet::controllers::Reply;
use violet::database::app_tokens::{check_app_token_result, get_by_token_result, list_result, ownership_result, subapp_pattern, AppTokenError, AppTokens};
use violet::database::apps::{AppGetError, Apps, AppsDto, AppsUpdateError};
use violet::database::errors::{create_app_result, create_result as error_record, list_ownership_result, list_query, ErrorsCreateDto, ErrorsErros, ErrorsSearch};
use violet::database::users::{create_result as user_create_result, get_by_username_result, Users, UsersErrors, UsersGetByUsernameErrors};
use violet::extractors::{ErrorAuthentication, UserAuthentication};
use violet::mysql_db::{create_database, AppTable, SetupAction};
use violet::webserver::dtos::{EventTrackerReceive, Severity};
use violet::webserver::{event_check, get_token};
use violet::http::Header;

fn token(value: &str, cors: bool) -> AppTokens {
    AppTokens { token: value.to_string(), app_id: 4, permit_cors: cors, subapp_name: Some("web".to_string()) }
}

#[test]
fn token_listing_shows_previews() {
    let rows = vec![token("0123456789abcdef", true), token("fedcba9876543210", false)];
    let out = list_result(Ok(rows)).ok().unwrap();
    assert_eq!(out[0].token, "01234...");
    assert_eq!(out[1].token, "fedcb...");
    assert_eq!(out[1].subapp_name.as_deref(), Some("web"));
    assert!(matches!(list_result(Err(sqlx::Error::RowNotFound)), Err(AppTokenError::GenericError(_))));
    assert_eq!(subapp_pattern("web"), "%web%");
}

#[test]
fn token_lookups() {
    assert!(matches!(get_by_token_result(Ok(None)), Err(AppTokenError::Unauthorized)));
    assert_eq!(get_by_token_result(Ok(Some(token("t", true)))).ok().unwrap().token, "t");
    assert!(matches!(check_app_token_result(Ok(Some(9))), Ok(9)));
    assert!(matches!(check_app_token_result(Ok(None)), Err(AppTokenError::Unauthorized)));
    assert!(matches!(ownership_result(Err(AppGetError::NotFound)), Err(AppTokenError::AppNotFound)));
    assert!(matches!(ownership_result(Err(AppGetError::Generic(sqlx::Error::PoolClosed))), Err(AppTokenError::GenericError(_))));
    let app = Apps { id: 1, name: "a".to_string(), owner: "o".to_string() };
    assert!(ownership_result(Ok(app)).is_ok());
}

fn full_search(owner: &str) -> ErrorsSearch<'_> {
    ErrorsSearch {
        app_id: 7,
        owner,
        subapp: Some("web".to_string()),
        error_level: Some("error".to_string()),
        message: Some("it's".to_string()),
        created_at: Some(100),
        page: Some(2),
        per_page: Some(5),
    }
}

#[test]
fn errors_list_query_text() {
    let q = list_query(&full_search("bob")).ok().unwrap();
    assert_eq!(q, "SELECT e.id as id, e.app_id as app_id, e.error_level as error_level, e.message as message, e.stack_trace as stack_trace, e.created_at as created_at, t.subapp_name as subapp_name FROM errors e JOIN app_tokens t ON t.token = e.token WHERE (e.app_id = 7) AND (t.subapp_name = 'web') AND (e.error_level = 'error') AND (e.message like '%it''s%') AND (e.created_at >= 100) LIMIT 5 OFFSET 10;");
    let mut plain = ErrorsSearch::default();
    plain.app_id = -3;
    let q = list_query(&plain).ok().unwrap();
    assert_eq!(q, "SELECT e.id as id, e.app_id as app_id, e.error_level as error_level, e.message as message, e.stack_trace as stack_trace, e.created_at as created_at, t.subapp_name as subapp_name FROM errors e JOIN app_tokens t ON t.token = e.token WHERE e.app_id = -3 LIMIT 10;");
}

#[test]
fn errors_records_and_errors() {
    let data = ErrorsCreateDto { error_level: "warn".to_string(), message: "m".to_string(), stack_trace: None, token: "t".to_string() };
    let e = error_record(4, 1_700_000_000, data, Ok(12)).ok().unwrap();
    assert_eq!((e.id, e.app_id, e.created_at), (12, 4, 1_700_000_000));
    assert!(matches!(create_app_result(Err(AppTokenError::Unauthorized)), Err(ErrorsErros::Unauthorized)));
    assert!(matches!(create_app_result(Err(AppTokenError::AppNotFound)), Err(ErrorsErros::NotFound)));
    assert!(matches!(list_ownership_result(Err(AppGetError::Generic(sqlx::Error::PoolClosed))), Err(ErrorsErros::NotFound)));
    assert!(matches!(ErrorsErros::from(sqlx::Error::RowNotFound), ErrorsErros::Generic(_)));
}

#[test]
fn users_results() {
    let user = Users { username: "ana".to_string(), password_hash: "h".to_string(), last_token: None };
    assert!(matches!(user_create_result(user, Err(sqlx::Error::PoolClosed), Some(1062)), Err(UsersErrors::DuplicateUsername)));
    let user = Users { username: "ana".to_string(), password_hash: "h".to_string(), last_token: None };
    assert!(matches!(user_create_result(user, Err(sqlx::Error::PoolClosed), Some(1064)), Err(UsersErrors::Generic(_))));
    let user = Users { username: "ana".to_string(), password_hash: "h".to_string(), last_token: None };
    assert_eq!(user_create_result(user, Ok(()), None).ok().unwrap().username, "ana");
    assert!(matches!(get_by_username_result(Err(None)), Err(UsersGetByUsernameErrors::NotFound)));
    let u = get_by_username_result(Ok(("ana".to_string(), "h".to_string(), Some("t".to_string())))).ok().unwrap();
    assert_eq!(u.last_token.as_deref(), Some("t"));
}

#[test]
fn app_validation_counts_characters() {
    assert!(AppDto { name: "".to_string() }.validate().is_err());
    assert!(AppDto { name: "é".repeat(255) }.validate().is_ok());
    assert!(AppDto { name: "a".repeat(256) }.validate().is_err());
    let v = AppDto { name: String::new() }.validate().err().unwrap();
    assert_eq!(v[0].field, "name");
    assert_eq!(v[0].message, Some("Name must be between 1 and 255 characters"));
}

#[test]
fn app_routes_replies() {
    let user = UserAuthentication { username: "bob".to_string() };
    let dto = create_start(&user, AppDto { name: "Shop".to_string() }).ok().unwrap();
    assert_eq!((dto.name.as_str(), dto.owner.as_str()), ("Shop", "bob"));
    assert!(matches!(create_start(&user, AppDto { name: String::new() }), Err(Reply::Invalid(422, _))));
    let app = Apps { id: 1, name: "Shop".to_string(), owner: "bob".to_string() };
    assert!(matches!(create_reply(Ok(app)), Reply::Json(201, _)));
    let renamed = update_start(&user, 9, AppDto { name: "New".to_string() }).ok().unwrap();
    assert_eq!(renamed.id, 9);
    assert!(matches!(update_reply(Err(AppsUpdateError::NotFound)), Reply::Empty(404)));
    let _ = AppsDto { name: String::new(), owner: String::new() };
    assert_eq!(index(&user), "Hello, bob!");
}

#[test]
fn token_routes_replies() {
    assert!(matches!(create_check(&AppTokensDto { permit_cors: true, subapp_name: Some("x".repeat(256)) }), Err(Reply::Invalid(400, _))));
    assert!(create_check(&AppTokensDto { permit_cors: true, subapp_name: None }).is_ok());
    let rec = create_token_record(3, AppTokensDto { permit_cors: false, subapp_name: None }, Ok("tok".to_string())).ok().unwrap();
    assert_eq!((rec.token.as_str(), rec.app_id, rec.permit_cors), ("tok", 3, false));
    assert!(matches!(token_create_reply(Err(AppTokenError::AppNotFound)), Reply::Empty(401)));
    assert!(matches!(token_create_reply(Err(AppTokenError::GenericError(sqlx::Error::PoolClosed))), Reply::Failed(TokenFailure::Database(_))));
    assert!(matches!(tokens_list_reply(Err(AppTokenError::AppNotFound)), Reply::Empty(404)));
    assert!(matches!(tokens_list_reply(Ok(vec![])), Reply::Json(200, _)));
}

#[test]
fn error_routes_replies() {
    let auth = ErrorAuthentication { app_id: 2, token: "tok".to_string() };
    let ok = ErrorsDto { error_level: "error".to_string(), message: "boom".to_string(), stack_trace: None };
    let data = error_create_start(auth, ok).ok().unwrap();
    assert_eq!(data.token, "tok");
    let auth = ErrorAuthentication { app_id: 2, token: "tok".to_string() };
    let bad = ErrorsDto { error_level: "x".repeat(21), message: String::new(), stack_trace: Some("s".to_string()) };
    match error_create_start(auth, bad) {
        Err(Reply::Invalid(422, v)) => {
            assert_eq!(v.len(), 2);
            assert_eq!((v[0].field, v[0].min, v[0].max), ("error_level", Some(1), Some(20)));
            assert_eq!((v[1].field, v[1].min, v[1].max), ("message", Some(1), Some(65535)));
        }
        _ => panic!("expected refusal"),
    }
    assert!(matches!(error_create_reply(Err(ErrorsErros::Generic(sqlx::Error::PoolClosed))), Reply::Failed(_)));
    let query = ErrorsListQuery { subapp: None, error_level: None, message: None, created_at: Some(5), page: None, per_page: None };
    let s = list_search(8, "bob", query);
    assert_eq!((s.app_id, s.owner, s.created_at), (8, "bob", Some(5)));
    assert!(matches!(errors_list_reply(Err(ErrorsErros::QueryError)), Reply::Empty(406)));
    assert!(matches!(errors_list_reply(Err(ErrorsErros::Unauthorized)), Reply::Empty(401)));
}

fn event() -> EventTrackerReceive {
    EventTrackerReceive { app_id: None, severity: Severity::Error, title: "t".to_string(), message: "m".to_string(), stacktrace: None }
}

fn app_table(id: u64) -> AppTable {
    AppTable { id, name: "Shop".to_string(), id_user: 1, token_app: "secret".to_string(), webhook_url: "https://hook".to_string() }
}

#[test]
fn channel_is_fifo() {
    let mut c = Channel::new();
    assert!(c.is_empty());
    assert!(c.send((app_table(1), event())).is_ok());
    assert!(c.send((app_table(2), event())).is_ok());
    assert_eq!(c.recv().ok().unwrap().0.id, 1);
    assert_eq!(c.recv().ok().unwrap().0.id, 2);
    assert!(c.is_empty());
}

#[test]
fn severity_codes() {
    for s in [Severity::NoDefined, Severity::Severe, Severity::Error, Severity::Warning, Severity::Info, Severity::Verbose] {
        let code = u8::from(s);
        assert_eq!(Severity::from_code(code), Some(s));
    }
    assert_eq!(u8::from(Severity::Warning), 3);
    assert_eq!(Severity::from_code(6), None);
}

#[test]
fn schema_setup_runs_in_order_and_stops_on_failure() {
    let (mut setup, first) = create_database();
    assert!(matches!(first, SetupAction::Connect));
    let mut statements = Vec::new();
    loop {
        match setup.advance::<()>(Ok(())) {
            Ok(SetupAction::Execute(s)) => statements.push(s),
            Ok(SetupAction::Done) => break,
            _ => panic!("unexpected step"),
        }
    }
    assert_eq!(statements.len(), 5);
    assert_eq!(statements[1], "create index if not exists name_app_index on Apps(name_app)");
    assert!(statements[3].contains("create table if not exists Reports("));
    for s in &statements {
        let t = s.trim_start_matches([' ', '\n']);
        assert!(t.starts_with("create table if not exists ") || t.starts_with("create index if not exists "));
    }
    let (mut setup, _) = create_database();
    assert!(matches!(setup.advance::<&str>(Err("refused")), Err("refused")));
}

#[test]
fn event_request_checks() {
    assert_eq!(get_token(Header::Text("k".to_string())), Some("k".to_string()));
    assert_eq!(get_token(Header::Opaque), None);
    assert!(matches!(event_check(None, Some(app_table(1))), Err("Problemas ao verificar o token")));
    assert!(matches!(event_check(Some("secret".to_string()), None), Err("Aplicação não localizada.")));
    assert!(matches!(event_check(Some("wrong".to_string()), Some(app_table(1))), Err("Token invalido para essa aplicação.")));
    assert_eq!(event_check(Some("secret".to_string()), Some(app_table(1))).ok().unwrap().id, 1);
}

//! Errors that applications report.
use vstd::prelude::*;
use vstd::std_specs::convert::FromSpecImpl;
use crate::database::app_tokens::AppTokenError;
use crate::database::apps::{AppGetError, Apps};
use crate::database::sql::{self, bind_first, int_text, quoted, select_text};
use crate::text::decimal;

verus! {

/// Why an error could not be stored or listed.
pub enum ErrorsErros {
    Unauthorized,
    NotFound,
    QueryError,
    Generic(sqlx::Error),
}

impl From<sqlx::Error> for ErrorsErros {
    fn from(error: sqlx::Error) -> (r: Self) {
        ErrorsErros::Generic(error)
    }
}

impl FromSpecImpl<sqlx::Error> for ErrorsErros {
    open spec fn obeys_from_spec() -> bool {
        true
    }

    open spec fn from_spec(error: sqlx::Error) -> Self {
        ErrorsErros::Generic(error)
    }
}

impl From<AppGetError> for ErrorsErros {
    fn from(_err: AppGetError) -> (r: Self) {
        ErrorsErros::NotFound
    }
}

impl FromSpecImpl<AppGetError> for ErrorsErros {
    open spec fn obeys_from_spec() -> bool {
        true
    }

    open spec fn from_spec(err: AppGetError) -> Self {
        ErrorsErros::NotFound
    }
}

impl From<AppTokenError> for ErrorsErros {
    fn from(e: AppTokenError) -> (r: Self) {
        match e {
            AppTokenError::AppNotFound => ErrorsErros::NotFound,
            AppTokenError::Unauthorized => ErrorsErros::Unauthorized,
            AppTokenError::GenericError(err) => ErrorsErros::Generic(err),
        }
    }
}

impl FromSpecImpl<AppTokenError> for ErrorsErros {
    open spec fn obeys_from_spec() -> bool {
        true
    }

    open spec fn from_spec(e: AppTokenError) -> Self {
        errors_error_of_token_error(e)
    }
}

/// The error that a token failure becomes for the errors endpoints.
pub open spec fn errors_error_of_token_error(e: AppTokenError) -> ErrorsErros {
    match e {
        AppTokenError::AppNotFound => ErrorsErros::NotFound,
        AppTokenError::Unauthorized => ErrorsErros::Unauthorized,
        AppTokenError::GenericError(err) => ErrorsErros::Generic(err),
    }
}

/// A stored error.
pub struct Errors {
    pub id: i32,
    pub app_id: i32,
    pub error_level: String,
    pub message: String,
    pub stack_trace: Option<String>,
    pub created_at: u64,
}

/// A stored error with the name of the sub-application whose token reported it.
pub struct ErrorsWithSubAppName {
    pub id: i32,
    pub app_id: i32,
    pub error_level: String,
    pub message: String,
    pub stack_trace: Option<String>,
    pub created_at: u64,
    pub subapp_name: String,
}

/// What an application reports, with the token it reported it with.
pub struct ErrorsCreateDto {
    pub error_level: String,
    pub message: String,
    pub stack_trace: Option<String>,
    pub token: String,
}

/// The filters and page of an error listing.
pub struct ErrorsSearch<'a> {
    pub app_id: i32,
    pub owner: &'a str,
    pub subapp: Option<String>,
    pub error_level: Option<String>,
    pub message: Option<String>,
    pub created_at: Option<u64>,
    pub page: Option<i32>,
    pub per_page: Option<i32>,
}

impl<'a> Default for ErrorsSearch<'a> {
    fn default() -> (s: Self)
        ensures
            s.app_id == 0,
            s.owner@ == ""@,
            s.subapp is None,
            s.error_level is None,
            s.message is None,
            s.created_at is None,
            s.page is None,
            s.per_page is None,
    {
        ErrorsSearch {
            app_id: 0,
            owner: "",
            subapp: None,
            error_level: None,
            message: None,
            created_at: None,
            page: None,
            per_page: None,
        }
    }
}

/// Storing an error first finds the application of the token it came with.
pub fn create_app_result(check: Result<i32, AppTokenError>) -> (r: Result<i32, ErrorsErros>)
    ensures
        match check {
            Ok(id) => r == Ok::<i32, ErrorsErros>(id),
            Err(e) => r == Err::<i32, ErrorsErros>(errors_error_of_token_error(e)),
        },
{
    match check {
        Ok(id) => Ok(id),
        Err(e) => Err(ErrorsErros::from(e)),
    }
}

/// The error that an insert stored: the row id given back by the database
/// (cut to 32 bits), the application of the token, the time of the report
/// in seconds since the epoch, and what was reported.
pub fn create_result(app_id: i32, now: i64, data: ErrorsCreateDto, inserted: Result<u64, sqlx::Error>) -> (r: Result<Errors, ErrorsErros>)
    ensures
        match inserted {
            Ok(id) => r matches Ok(e) && e.id == id as i32 && e.app_id == app_id && e.created_at == now as u64
                && e.error_level == data.error_level && e.message == data.message
                && e.stack_trace == data.stack_trace,
            Err(e) => r == Err::<Errors, ErrorsErros>(ErrorsErros::Generic(e)),
        },
{
    match inserted {
        Ok(id) => Ok(Errors {
            id: id as i32,
            app_id,
            created_at: now as u64,
            error_level: data.error_level,
            message: data.message,
            stack_trace: data.stack_trace,
        }),
        Err(e) => Err(ErrorsErros::Generic(e)),
    }
}

/// A listing is only made for the owner of the application: any failure of
/// that check answers `NotFound`.
pub fn list_ownership_result(check: Result<Apps, AppGetError>) -> (r: Result<(), ErrorsErros>)
    ensures
        check is Ok <==> r is Ok,
        check is Err ==> r matches Err(ErrorsErros::NotFound),
{
    match check {
        Ok(_) => Ok(()),
        Err(e) => Err(ErrorsErros::from(e)),
    }
}

/// The rows of an error listing.
pub fn list_result(rows: Result<Vec<ErrorsWithSubAppName>, sqlx::Error>) -> (r: Result<Vec<ErrorsWithSubAppName>, ErrorsErros>)
    ensures
        match rows {
            Ok(v) => r == Ok::<Vec<ErrorsWithSubAppName>, ErrorsErros>(v),
            Err(e) => r == Err::<Vec<ErrorsWithSubAppName>, ErrorsErros>(ErrorsErros::Generic(e)),
        },
{
    match rows {
        Ok(v) => Ok(v),
        Err(e) => Err(ErrorsErros::Generic(e)),
    }
}

/// The page size of a listing: the one asked for, or 10.
pub open spec fn list_limit(search: ErrorsSearch) -> i32 {
    match search.per_page {
        Some(n) => n,
        None => 10,
    }
}

/// `prefix` followed by `value`, when the condition is asked for.
pub open spec fn optional_condition(prefix: Seq<char>, value: Option<Seq<char>>) -> Seq<Seq<char>> {
    match value {
        Some(v) => seq![prefix + v],
        None => Seq::empty(),
    }
}

/// The conditions of a listing: the application, then each filter given,
/// texts as SQL string literals and the message matched anywhere.
pub open spec fn list_conditions(search: ErrorsSearch) -> Seq<Seq<char>> {
    seq!["e.app_id = "@ + int_text(search.app_id as int)]
        + optional_condition("t.subapp_name = "@, match search.subapp { Some(s) => Some(quoted(s@)), None => None })
        + optional_condition("e.error_level = "@, match search.error_level { Some(l) => Some(quoted(l@)), None => None })
        + optional_condition("e.message like "@, match search.message { Some(m) => Some(quoted("%"@ + m@ + "%"@)), None => None })
        + optional_condition("e.created_at >= "@, match search.created_at { Some(c) => Some(decimal(c as nat)), None => None })
}

/// The fields of a listing row.
pub open spec fn list_fields() -> Seq<Seq<char>> {
    seq![
        "e.id as id"@,
        "e.app_id as app_id"@,
        "e.error_level as error_level"@,
        "e.message as message"@,
        "e.stack_trace as stack_trace"@,
        "e.created_at as created_at"@,
        "t.subapp_name as subapp_name"@,
    ]
}

/// The query of a listing: the errors of the application with the name of
/// the sub-application of their token, filtered, one page of `list_limit`
/// rows, starting at `page * list_limit` when a page is asked for.
pub open spec fn errors_list_sql(search: ErrorsSearch) -> Seq<char> {
    select_text(
        "errors e"@,
        list_fields(),
        seq!["JOIN app_tokens t ON t.token = e.token"@],
        list_conditions(search),
        seq![int_text(list_limit(search) as int)],
        match search.page {
            Some(p) => seq![int_text(p * list_limit(search))],
            None => Seq::empty(),
        },
    )
}

proof fn bind_at_end(prefix: Seq<char>, arg: Seq<char>)
    requires
        forall|i: int| 0 <= i < prefix.len() ==> prefix[i] != '?',
    ensures
        bind_first(prefix + "?"@, arg) == prefix + arg,
    decreases prefix.len(),
{
    reveal_strlit("?");
    if prefix.len() == 0 {
        assert(prefix + "?"@ =~= seq!['?']);
        assert(seq!['?'].drop_first() =~= Seq::<char>::empty());
        assert(arg + Seq::<char>::empty() =~= arg);
        assert(prefix + arg =~= arg);
    } else {
        bind_at_end(prefix.drop_first(), arg);
        assert((prefix + "?"@).drop_first() =~= prefix.drop_first() + "?"@);
        assert(seq![prefix[0]] + (prefix.drop_first() + arg) =~= prefix + arg);
    }
}

fn add_condition_i32(b: &mut sql_builder::SqlBuilder, prefix: &str, template: &str, v: i32)
    requires
        template@ == prefix@ + "?"@,
        forall|i: int| 0 <= i < prefix@.len() ==> prefix@[i] != '?',
    ensures
        sql::sql_plain_select(*final(b)) == sql::sql_plain_select(*old(b)),
        sql::sql_table(*final(b)) == sql::sql_table(*old(b)),
        sql::sql_fields(*final(b)) == sql::sql_fields(*old(b)),
        sql::sql_joins(*final(b)) == sql::sql_joins(*old(b)),
        sql::sql_wheres(*final(b)) == sql::sql_wheres(*old(b)).push(prefix@ + int_text(v as int)),
        sql::sql_limit(*final(b)) == sql::sql_limit(*old(b)),
        sql::sql_offset(*final(b)) == sql::sql_offset(*old(b)),
{
    let cond = sql::bind_i32(template, v);
    proof {
        bind_at_end(prefix@, int_text(v as int));
    }
    sql::and_where(b, cond.as_str());
}

fn add_condition_u64(b: &mut sql_builder::SqlBuilder, prefix: &str, template: &str, v: u64)
    requires
        template@ == prefix@ + "?"@,
        forall|i: int| 0 <= i < prefix@.len() ==> prefix@[i] != '?',
    ensures
        sql::sql_plain_select(*final(b)) == sql::sql_plain_select(*old(b)),
        sql::sql_table(*final(b)) == sql::sql_table(*old(b)),
        sql::sql_fields(*final(b)) == sql::sql_fields(*old(b)),
        sql::sql_joins(*final(b)) == sql::sql_joins(*old(b)),
        sql::sql_wheres(*final(b)) == sql::sql_wheres(*old(b)).push(prefix@ + decimal(v as nat)),
        sql::sql_limit(*final(b)) == sql::sql_limit(*old(b)),
        sql::sql_offset(*final(b)) == sql::sql_offset(*old(b)),
{
    let cond = sql::bind_u64(template, v);
    proof {
        bind_at_end(prefix@, decimal(v as nat));
    }
    sql::and_where(b, cond.as_str());
}

fn add_condition_string(b: &mut sql_builder::SqlBuilder, prefix: &str, template: &str, v: &String)
    requires
        template@ == prefix@ + "?"@,
        forall|i: int| 0 <= i < prefix@.len() ==> prefix@[i] != '?',
    ensures
        sql::sql_plain_select(*final(b)) == sql::sql_plain_select(*old(b)),
        sql::sql_table(*final(b)) == sql::sql_table(*old(b)),
        sql::sql_fields(*final(b)) == sql::sql_fields(*old(b)),
        sql::sql_joins(*final(b)) == sql::sql_joins(*old(b)),
        sql::sql_wheres(*final(b)) == sql::sql_wheres(*old(b)).push(prefix@ + quoted(v@)),
        sql::sql_limit(*final(b)) == sql::sql_limit(*old(b)),
        sql::sql_offset(*final(b)) == sql::sql_offset(*old(b)),
{
    let cond = sql::bind_string(template, v);
    proof {
        bind_at_end(prefix@, quoted(v@));
    }
    sql::and_where(b, cond.as_str());
}

/// The query of an error listing. The offset `page * limit` must fit in 32 bits.
pub fn list_query(search: &ErrorsSearch) -> (r: Result<String, ErrorsErros>)
    requires
        search.page matches Some(p) ==> i32::MIN <= p * list_limit(*search) <= i32::MAX,
    ensures
        r matches Ok(q) && q@ == errors_list_sql(*search),
{
    let limit_value: i32 = match search.per_page {
        Some(per_page) => per_page,
        None => 10,
    };
    let mut b = sql::select_from("errors e");
    sql::field(&mut b, "e.id as id");
    sql::field(&mut b, "e.app_id as app_id");
    sql::field(&mut b, "e.error_level as error_level");
    sql::field(&mut b, "e.message as message");
    sql::field(&mut b, "e.stack_trace as stack_trace");
    sql::field(&mut b, "e.created_at as created_at");
    sql::field(&mut b, "t.subapp_name as subapp_name");
    sql::join(&mut b, "app_tokens t");
    sql::on(&mut b, "t.token = e.token");
    proof {
        reveal_strlit("e.app_id = ");
        reveal_strlit("e.app_id = ?");
        reveal_strlit("?");
        assert("e.app_id = ?"@ =~= "e.app_id = "@ + "?"@);
    }
    add_condition_i32(&mut b, "e.app_id = ", "e.app_id = ?", search.app_id);
    sql::limit(&mut b, limit_value);
    match &search.subapp {
        Some(subapp) => {
            proof {
                reveal_strlit("t.subapp_name = ");
                reveal_strlit("t.subapp_name = ?");
                assert("t.subapp_name = ?"@ =~= "t.subapp_name = "@ + "?"@);
            }
            add_condition_string(&mut b, "t.subapp_name = ", "t.subapp_name = ?", subapp);
        },
        None => {},
    }
    match &search.error_level {
        Some(level) => {
            proof {
                reveal_strlit("e.error_level = ");
                reveal_strlit("e.error_level = ?");
                assert("e.error_level = ?"@ =~= "e.error_level = "@ + "?"@);
            }
            add_condition_string(&mut b, "e.error_level = ", "e.error_level = ?", level);
        },
        None => {},
    }
    match &search.message {
        Some(message) => {
            let mut pattern = String::from_str("%");
            pattern.append(message.as_str());
            pattern.append("%");
            proof {
                reveal_strlit("e.message like ");
                reveal_strlit("e.message like ?");
                assert("e.message like ?"@ =~= "e.message like "@ + "?"@);
            }
            add_condition_string(&mut b, "e.message like ", "e.message like ?", &pattern);
        },
        None => {},
    }
    match search.created_at {
        Some(created_at) => {
            proof {
                reveal_strlit("e.created_at >= ");
                reveal_strlit("e.created_at >= ?");
                assert("e.created_at >= ?"@ =~= "e.created_at >= "@ + "?"@);
            }
            add_condition_u64(&mut b, "e.created_at >= ", "e.created_at >= ?", created_at);
        },
        None => {},
    }
    match search.page {
        Some(page) => {
            sql::offset(&mut b, page * limit_value);
        },
        None => {},
    }
    proof {
        let s = *search;
        assert(sql::sql_wheres(b) =~= list_conditions(s));
        assert(sql::sql_fields(b) =~= list_fields());
        reveal_strlit("errors e");
        reveal_strlit("JOIN ");
        reveal_strlit("app_tokens t");
        reveal_strlit(" ON ");
        reveal_strlit("t.token = e.token");
        reveal_strlit("JOIN app_tokens t ON t.token = e.token");
        assert("JOIN "@ + "app_tokens t"@ + " ON "@ + "t.token = e.token"@ =~= "JOIN app_tokens t ON t.token = e.token"@);
        assert(sql::sql_joins(b) =~= seq!["JOIN app_tokens t ON t.token = e.token"@]);
    }
    match sql::sql(&b) {
        Some(q) => Ok(q),
        None => Err(ErrorsErros::QueryError),
    }
}


/// How many of the optional filters a search gives.
pub open spec fn filters_given(search: ErrorsSearch) -> int {
    (if search.subapp is Some { 1int } else { 0int }) + (if search.error_level is Some { 1int } else { 0int })
        + (if search.message is Some { 1int } else { 0int }) + (if search.created_at is Some { 1int } else { 0int })
}

/// The listing query selects the error fields and the sub-application name
/// from `errors e` joined with `app_tokens t` on the token, one page of
/// `per_page` rows (10 when none is given) starting at `page * per_page` when
/// a page is given; its conditions are the application's id and, for each
/// filter the search gives, whatever the other filters are, that filter's own
/// condition (texts as SQL string literals, the message matched anywhere,
/// the date as a lower bound), and nothing else.
pub proof fn listing_query_applies_each_given_filter(search: ErrorsSearch)
    ensures
        exists|conds: Seq<Seq<char>>| #![trigger conds.len()] {
            let limit: int = match search.per_page {
                Some(n) => n as int,
                None => 10,
            };
            &&& errors_list_sql(search) == select_text(
                "errors e"@,
                seq![
                    "e.id as id"@,
                    "e.app_id as app_id"@,
                    "e.error_level as error_level"@,
                    "e.message as message"@,
                    "e.stack_trace as stack_trace"@,
                    "e.created_at as created_at"@,
                    "t.subapp_name as subapp_name"@,
                ],
                seq!["JOIN app_tokens t ON t.token = e.token"@],
                conds,
                seq![int_text(limit)],
                match search.page {
                    Some(p) => seq![int_text(p * limit)],
                    None => Seq::empty(),
                },
            )
            &&& conds.len() == 1 + filters_given(search)
            &&& conds[0] == "e.app_id = "@ + int_text(search.app_id as int)
            &&& (search.subapp matches Some(s) ==> conds.contains("t.subapp_name = "@ + quoted(s@)))
            &&& (search.error_level matches Some(l) ==> conds.contains("e.error_level = "@ + quoted(l@)))
            &&& (search.message matches Some(m) ==> conds.contains("e.message like "@ + quoted("%"@ + m@ + "%"@)))
            &&& (search.created_at matches Some(c) ==> conds.contains("e.created_at >= "@ + decimal(c as nat)))
        },
{
    let conds = list_conditions(search);
    let a = seq!["e.app_id = "@ + int_text(search.app_id as int)];
    let c1 = optional_condition("t.subapp_name = "@, match search.subapp { Some(s) => Some(quoted(s@)), None => None });
    let c2 = optional_condition("e.error_level = "@, match search.error_level { Some(l) => Some(quoted(l@)), None => None });
    let c3 = optional_condition("e.message like "@, match search.message { Some(m) => Some(quoted("%"@ + m@ + "%"@)), None => None });
    let c4 = optional_condition("e.created_at >= "@, match search.created_at { Some(c) => Some(decimal(c as nat)), None => None });
    assert(conds == a + c1 + c2 + c3 + c4);
    if let Some(s) = search.subapp {
        assert(conds[1] == "t.subapp_name = "@ + quoted(s@));
    }
    if let Some(l) = search.error_level {
        assert(conds[(1 + c1.len()) as int] == "e.error_level = "@ + quoted(l@));
    }
    if let Some(m) = search.message {
        assert(conds[(1 + c1.len() + c2.len()) as int] == "e.message like "@ + quoted("%"@ + m@ + "%"@));
    }
    if let Some(c) = search.created_at {
        assert(conds[(1 + c1.len() + c2.len() + c3.len()) as int] == "e.created_at >= "@ + decimal(c as nat));
    }
    assert(list_fields() =~= seq![
        "e.id as id"@,
        "e.app_id as app_id"@,
        "e.error_level as error_level"@,
        "e.message as message"@,
        "e.stack_trace as stack_trace"@,
        "e.created_at as created_at"@,
        "t.subapp_name as subapp_name"@,
    ]);
}

} // verus!

//! The event intake of the Discord side: applications post events that are
//! stored and forwarded to their webhook.
pub mod dtos;

use vstd::prelude::*;
use crate::http::Header;
use crate::mysql_db::AppTable;

verus! {

/// The token an event request presents: its `Authorization` header as text.
pub fn get_token(authorization: Header) -> (r: Option<String>)
    ensures
        match authorization {
            Header::Text(h) => r == Some(h),
            _ => r is None,
        },
{
    match authorization {
        Header::Text(h) => Some(h),
        _ => None,
    }
}

/// The checks of an event request before it is stored: it must present a
/// token, name a registered application, and present that application's token.
pub fn event_check(token: Option<String>, app: Option<AppTable>) -> (r: Result<AppTable, &'static str>)
    ensures
        match (token, app) {
            (None, _) => r matches Err(m) && m@ == "Problemas ao verificar o token"@,
            (Some(_), None) => r matches Err(m) && m@ == "Aplicação não localizada."@,
            (Some(t), Some(a)) => if a.token_app@ == t@ {
                r == Ok::<AppTable, &'static str>(a)
            } else {
                r matches Err(m) && m@ == "Token invalido para essa aplicação."@
            },
        },
{
    let token = match token {
        Some(t) => t,
        None => return Err("Problemas ao verificar o token"),
    };
    let app = match app {
        Some(a) => a,
        None => return Err("Aplicação não localizada."),
    };
    if app.token_app != token {
        return Err("Token invalido para essa aplicação.");
    }
    Ok(app)
}

} // verus!

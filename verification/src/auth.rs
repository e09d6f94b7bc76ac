//! Access checks of the administrative endpoints.
use vstd::prelude::*;
use vstd::string::{StrSliceExecFns, StringExecFns};
use crate::error::{AppError, error_status, error_message};
use crate::text::{str_eq, starts_with};

verus! {

/// Admits a request whose `x-admin-key` header equals the configured key.
pub fn check_admin_key(provided: Option<&str>, expected: &str) -> (r: Result<(), AppError>)
    ensures
        r is Ok <==> (provided matches Some(p) && p@ == expected@),
        r is Err ==> r == Err::<(), AppError>(AppError::Unauthorized),
{
    match provided {
        Some(p) => if str_eq(p, expected) { Ok(()) } else { Err(AppError::Unauthorized) },
        None => Err(AppError::Unauthorized),
    }
}

/// The token of an `Authorization: Bearer <token>` header.
pub open spec fn bearer_token_of(header: Seq<char>) -> Option<Seq<char>> {
    if header.len() >= 7 && header.subrange(0, 7) == "Bearer "@ {
        Some(header.subrange(7, header.len() as int))
    } else {
        None
    }
}

/// Admits a request whose bearer token equals the configured one.
pub fn check_bearer_token(authorization: Option<&str>, expected: &str) -> (r: Result<(), AppError>)
    ensures
        r is Ok <==> (authorization matches Some(h) && bearer_token_of(h@) == Some(expected@)),
        r is Err ==> r == Err::<(), AppError>(AppError::Unauthorized),
{
    let header = match authorization {
        Some(h) => h,
        None => return Err(AppError::Unauthorized),
    };
    proof { reveal_strlit("Bearer "); }
    if !starts_with(header, "Bearer ") {
        return Err(AppError::Unauthorized);
    }
    let n = header.unicode_len();
    let token = header.substring_char(7, n);
    if str_eq(token, expected) { Ok(()) } else { Err(AppError::Unauthorized) }
}

/// The answer to a database wipe that cannot go ahead: disabled without a
/// configured token (503), refused without the right bearer token (401),
/// or unavailable without a database connection (503).
pub fn wipe_database_gate(wipe_token: Option<&str>, authorization: Option<&str>, has_connection: bool)
    -> (r: Result<(), (u16, String)>)
    ensures
        match wipe_token {
            None => r matches Err((code, m)) && code == 503
                && m@ == "Database wipe route is disabled. Set DB_WIPE_TOKEN to enable it."@,
            Some(t) => if !(authorization matches Some(h) && bearer_token_of(h@) == Some(t@)) {
                r matches Err((code, m)) && code == error_status(AppError::Unauthorized)
                    && m@ == error_message(AppError::Unauthorized)
            } else if !has_connection {
                r matches Err((code, m)) && code == 503
                    && m@ == "Database wipe route is unavailable because no database connection is configured."@
            } else {
                r is Ok
            },
        },
{
    let expected = match wipe_token {
        None => return Err((503, String::from_str("Database wipe route is disabled. Set DB_WIPE_TOKEN to enable it."))),
        Some(t) => t,
    };
    if let Err(e) = check_bearer_token(authorization, expected) {
        return Err(e.http_response());
    }
    if !has_connection {
        return Err((503, String::from_str(
            "Database wipe route is unavailable because no database connection is configured.")));
    }
    Ok(())
}

} // verus!

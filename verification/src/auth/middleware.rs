//! The rules by which a request is let in: a bearer token in the
//! `Authorization` header, and the admin role for the admin endpoints.
use vstd::prelude::*;
use vstd::string::*;
use crate::errors::{AppError, ErrorModel};
use crate::models::Claims;
use crate::text::same_text;

verus! {

/// Whether a header value announces a bearer token.
pub open spec fn is_bearer(header: Seq<char>) -> bool {
    header.len() >= 7 && header.subrange(0, 7) == "Bearer "@
}

/// Whether `r` is the token that the `Authorization` header carries: what
/// follows `"Bearer "`, and an authentication failure where the header is
/// missing or announces no bearer token.
pub open spec fn token_of(header: Option<&str>, r: Result<&str, AppError>) -> bool {
    match header {
        None => r is Err && r->Err_0@ == ErrorModel::Auth("Missing Authorization header"@),
        Some(value) => if is_bearer(value@) {
            r is Ok && r->Ok_0@ == value@.subrange(7, value@.len() as int)
        } else {
            r is Err && r->Err_0@ == ErrorModel::Auth("Invalid Authorization header format"@)
        },
    }
}

/// Takes the bearer token out of the value of the `Authorization` header.
pub fn bearer_token<'a>(header: Option<&'a str>) -> (r: Result<&'a str, AppError>)
    ensures
        token_of(header, r),
{
    match header {
        None => Err(AppError::auth("Missing Authorization header")),
        Some(value) => {
            let n = value.unicode_len();
            if n >= 7 && same_text(value.substring_char(0, 7), "Bearer ") {
                Ok(value.substring_char(7, n))
            } else {
                Err(AppError::auth("Invalid Authorization header format"))
            }
        },
    }
}

/// The failure of a request whose token did not stand up to verification;
/// `detail` says why.
pub fn invalid_token(detail: &str) -> (e: AppError)
    ensures
        e@ == ErrorModel::Auth("Invalid token: "@ + detail@),
{
    AppError::AuthError(String::from_str("Invalid token: ").concat(detail))
}

/// Whether `r` is the answer to a request with `claims` for an admin
/// endpoint: let in under the role `admin`, refused otherwise.
pub open spec fn admin_check(claims: Option<&Claims>, r: Result<(), AppError>) -> bool {
    match claims {
        None => r is Err && r->Err_0@ == ErrorModel::Authorization("No claims found in request"@),
        Some(c) => if c.role@ == "admin"@ {
            r is Ok
        } else {
            r is Err && r->Err_0@ == ErrorModel::Authorization(
                "Admin role required for this endpoint"@,
            )
        },
    }
}

/// Lets a request through to an admin endpoint only under the role `admin`.
pub fn require_admin(claims: Option<&Claims>) -> (r: Result<(), AppError>)
    ensures
        admin_check(claims, r),
{
    match claims {
        None => Err(AppError::authorization("No claims found in request")),
        Some(c) => {
            if same_text(c.role.as_str(), "admin") {
                Ok(())
            } else {
                Err(AppError::authorization("Admin role required for this endpoint"))
            }
        },
    }
}

} // verus!

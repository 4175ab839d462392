//! What the auth endpoints decide once storage and hashing have answered.
use vstd::prelude::*;
use vstd::string::*;
use crate::errors::{AppError, ErrorModel};
use crate::models::CreateUserRequest;
use crate::text::{contains, contains_text};

verus! {

/// Whether `password` stands up to the bcrypt hash `hash`; `None` where the
/// hash cannot be read as one.
pub uninterp spec fn password_verifies(password: Seq<char>, hash: Seq<char>) -> Option<bool>;

/// `bcrypt::verify`. Trusted: the answer depends on the password and the
/// hash alone; a hash that cannot be read gives `None`.
#[verifier::external_body]
fn verify_password(password: &str, hash: &str) -> (r: Option<bool>)
    ensures
        r == password_verifies(password@, hash@),
{
    match bcrypt::verify(password, hash) {
        Ok(matches) => Some(matches),
        Err(_) => None,
    }
}

/// Whether a request to create a user names all that is required: a
/// username, an email address and a password, none of them empty.
pub open spec fn complete(request: &CreateUserRequest) -> bool {
    request.username@.len() > 0 && request.email@.len() > 0 && request.password@.len() > 0
}

/// Accepts a request to create a user that names all that is required.
pub fn validate_new_user(request: &CreateUserRequest) -> (r: Result<(), AppError>)
    ensures
        r is Ok <==> complete(request),
        r is Err ==> r->Err_0@ == ErrorModel::Validation(
            "Username, email, and password are required"@,
        ),
{
    if request.username.as_str().unicode_len() == 0 || request.email.as_str().unicode_len() == 0
        || request.password.as_str().unicode_len() == 0 {
        Err(AppError::validation("Username, email, and password are required"))
    } else {
        Ok(())
    }
}

/// The role of a new user: the one asked for, and `user` where none is.
pub fn role_or_default(role: Option<String>) -> (r: String)
    ensures
        r@ == match role {
            Some(given) => given@,
            None => "user"@,
        },
{
    match role {
        Some(given) => given,
        None => String::from_str("user"),
    }
}

/// The failure reported when storage refused a new user for the reason
/// `detail`: a clash with an existing user is the caller's mistake, anything
/// else is a failure of storage.
pub open spec fn creation_failure(detail: Seq<char>) -> ErrorModel {
    if contains_text(detail, "unique"@) {
        ErrorModel::Validation("Username or email already exists"@)
    } else {
        ErrorModel::Database("Failed to create user: "@ + detail)
    }
}

/// Classifies the refusal of a new user by storage.
pub fn create_user_failure(detail: &str) -> (e: AppError)
    ensures
        e@ == creation_failure(detail@),
{
    if contains(detail, "unique") {
        AppError::validation("Username or email already exists")
    } else {
        AppError::DatabaseError(String::from_str("Failed to create user: ").concat(detail))
    }
}

/// The answer to a login with `password` against the stored hash of the
/// account, `None` where there is no such account.
pub open spec fn login_answer(stored: Option<Seq<char>>, password: Seq<char>) -> Result<
    (),
    ErrorModel,
> {
    match stored {
        None => Err(ErrorModel::Auth("Invalid username or password"@)),
        Some(hash) => match password_verifies(password, hash) {
            None => Err(ErrorModel::Internal("Password verification failed"@)),
            Some(false) => Err(ErrorModel::Auth("Invalid username or password"@)),
            Some(true) => Ok(()),
        },
    }
}

/// The answer to a login, given what the check of the password came to.
pub open spec fn checked_answer(verdict: Option<bool>) -> Result<(), ErrorModel> {
    match verdict {
        None => Err(ErrorModel::Internal("Password verification failed"@)),
        Some(false) => Err(ErrorModel::Auth("Invalid username or password"@)),
        Some(true) => Ok(()),
    }
}

/// Settles a login from the verdict on the password: `Some(true)` lets the
/// user in, `Some(false)` does not, and `None` says that the stored hash could
/// not be checked at all.
pub fn settle_login(verdict: Option<bool>) -> (r: Result<(), AppError>)
    ensures
        r is Ok <==> checked_answer(verdict) is Ok,
        r is Err ==> checked_answer(verdict) is Err && r->Err_0@ == checked_answer(
            verdict,
        )->Err_0,
{
    match verdict {
        None => Err(AppError::internal("Password verification failed")),
        Some(false) => Err(AppError::auth("Invalid username or password")),
        Some(true) => Ok(()),
    }
}

/// Checks a login: `stored` is the password hash of the account that the
/// username names, `None` where there is no such account. An unknown account
/// and a wrong password are answered alike.
pub fn login(stored: Option<&str>, password: &str) -> (r: Result<(), AppError>)
    ensures
        r is Ok <==> login_answer(
            match stored {
                Some(hash) => Some(hash@),
                None => None,
            },
            password@,
        ) is Ok,
        r is Err ==> r->Err_0@ == login_answer(
            match stored {
                Some(hash) => Some(hash@),
                None => None,
            },
            password@,
        )->Err_0,
{
    match stored {
        None => Err(AppError::auth("Invalid username or password")),
        Some(hash) => settle_login(verify_password(password, hash)),
    }
}

} // verus!

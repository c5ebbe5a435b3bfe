use vstd::prelude::*;

use crate::error::{app_error_message, AppError};

verus! {

/// Message of a registration whose email or username is taken.
pub const USER_EXISTS: &'static str = "User already exists";

/// Message of a login with unknown credentials.
pub const INVALID_CREDENTIALS: &'static str = "Invalid credentials";

/// Verdict on a registration, given whether a user with the same email or
/// username is already stored: a duplicate is a validation error.
pub fn registration_verdict(existing_user: bool) -> (r: Result<(), AppError>)
    ensures
        !existing_user ==> r is Ok,
        existing_user ==> (r matches Err(e) && e is ValidationError && app_error_message(e)
            == USER_EXISTS@),
{
    if existing_user {
        Err(AppError::ValidationError(USER_EXISTS.to_owned()))
    } else {
        Ok(())
    }
}

/// Verdict on a login, given the user stored under the email, if any: an
/// unknown email is an authentication error.
pub fn login_verdict<U>(user: Option<U>) -> (r: Result<U, AppError>)
    ensures
        user matches Some(u) ==> r == Ok::<U, AppError>(u),
        user is None ==> (r matches Err(e) && e is AuthError && app_error_message(e)
            == INVALID_CREDENTIALS@),
{
    match user {
        Some(u) => Ok(u),
        None => Err(AppError::AuthError(INVALID_CREDENTIALS.to_owned())),
    }
}

} // verus!

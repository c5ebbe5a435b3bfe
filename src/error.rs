use vstd::prelude::*;

verus! {

/// Failure taxonomy of the HTTP surface.
#[derive(Debug, Clone, Copy, PartialEq, Eq, Structural)]
pub enum ApiError {
    /// Missing, malformed, invalid or expired bearer token.
    Unauthorized,
    /// Authenticated, but not the owner of the resource.
    Forbidden,
    /// The resource id does not exist.
    NotFound,
    /// Malformed input.
    ValidationError,
    /// Storage or configuration failure.
    InternalError,
}

pub open spec fn api_status(e: ApiError) -> u16 {
    match e {
        ApiError::Unauthorized => 401,
        ApiError::Forbidden => 403,
        ApiError::NotFound => 404,
        ApiError::ValidationError => 400,
        ApiError::InternalError => 500,
    }
}

impl ApiError {
    /// The HTTP status code that answers this failure.
    pub fn status_code(&self) -> (r: u16)
        ensures
            r == api_status(*self),
    {
        match self {
            ApiError::Unauthorized => 401,
            ApiError::Forbidden => 403,
            ApiError::NotFound => 404,
            ApiError::ValidationError => 400,
            ApiError::InternalError => 500,
        }
    }
}

/// Errors of the authentication endpoints, each with a short message for the caller.
#[derive(Debug)]
pub enum AppError {
    AuthError(String),
    DatabaseError(String),
    ValidationError(String),
    ConfigError(String),
}

pub open spec fn app_error_status(e: AppError) -> u16 {
    match e {
        AppError::AuthError(_) => 401,
        AppError::DatabaseError(_) => 500,
        AppError::ValidationError(_) => 400,
        AppError::ConfigError(_) => 500,
    }
}

pub open spec fn app_error_message(e: AppError) -> Seq<char> {
    match e {
        AppError::AuthError(m) => m@,
        AppError::DatabaseError(m) => m@,
        AppError::ValidationError(m) => m@,
        AppError::ConfigError(m) => m@,
    }
}

impl AppError {
    /// The HTTP status code of the error response.
    pub fn status_code(&self) -> (r: u16)
        ensures
            r == app_error_status(*self),
    {
        match self {
            AppError::AuthError(_) => 401,
            AppError::DatabaseError(_) => 500,
            AppError::ValidationError(_) => 400,
            AppError::ConfigError(_) => 500,
        }
    }

    /// The message carried in the `error` field of the response body.
    pub fn message(&self) -> (r: String)
        ensures
            r@ == app_error_message(*self),
    {
        match self {
            AppError::AuthError(m) => m.clone(),
            AppError::DatabaseError(m) => m.clone(),
            AppError::ValidationError(m) => m.clone(),
            AppError::ConfigError(m) => m.clone(),
        }
    }

    /// The taxonomy member this error belongs to.
    pub fn kind(&self) -> (r: ApiError)
        ensures
            api_status(r) == app_error_status(*self),
    {
        match self {
            AppError::AuthError(_) => ApiError::Unauthorized,
            AppError::DatabaseError(_) => ApiError::InternalError,
            AppError::ValidationError(_) => ApiError::ValidationError,
            AppError::ConfigError(_) => ApiError::InternalError,
        }
    }
}

} // verus!

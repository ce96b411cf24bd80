//! The error surface of the HTTP layer: an error kind with its message,
//! and the status code each kind maps to.
use vstd::prelude::*;

verus! {

/// A request failure, carrying a human-readable message.
#[derive(Debug)]
pub enum AppError {
    InternalServerError(String),
    BadRequest(String),
    NotFound(String),
}

/// The serialized body of an error response.
pub struct ErrorResponse {
    pub message: String,
}

impl AppError {
    /// The HTTP status code of this error kind.
    pub fn status_code(&self) -> (r: u16)
        ensures
            *self is InternalServerError ==> r == 500,
            *self is BadRequest ==> r == 400,
            *self is NotFound ==> r == 404,
    {
        match self {
            AppError::InternalServerError(_) => 500,
            AppError::BadRequest(_) => 400,
            AppError::NotFound(_) => 404,
        }
    }

    /// The message this error carries.
    pub fn message(&self) -> (r: &String)
        ensures
            *self matches AppError::InternalServerError(m) ==> r == m,
            *self matches AppError::BadRequest(m) ==> r == m,
            *self matches AppError::NotFound(m) ==> r == m,
    {
        match self {
            AppError::InternalServerError(m) => m,
            AppError::BadRequest(m) => m,
            AppError::NotFound(m) => m,
        }
    }
}

impl From<String> for AppError {
    /// A bare message becomes an internal error, as the engine's failures
    /// surface.
    fn from(err: String) -> (r: AppError) {
        AppError::InternalServerError(err)
    }
}

impl vstd::std_specs::convert::FromSpecImpl<String> for AppError {
    open spec fn obeys_from_spec() -> bool {
        true
    }

    open spec fn from_spec(t: String) -> AppError {
        AppError::InternalServerError(t)
    }
}

} // verus!

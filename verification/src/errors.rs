//! The single error type of the API and the HTTP status each variant maps to.
use vstd::prelude::*;

verus! {

/// An error answered to an API client: an HTTP status class and a message
/// for the `{"error": ...}` body.
#[derive(Debug, Clone)]
pub enum AppError {
    InternalServerError(String),
    BadRequest(String),
    Unauthorized(String),
    Forbidden(String),
    NotFound(String),
    Conflict(String),
    ServiceUnavailable(String),
}

/// The HTTP status code of each error variant.
pub open spec fn status_of(e: AppError) -> u16 {
    match e {
        AppError::InternalServerError(_) => 500,
        AppError::BadRequest(_) => 400,
        AppError::Unauthorized(_) => 401,
        AppError::Forbidden(_) => 403,
        AppError::NotFound(_) => 404,
        AppError::Conflict(_) => 409,
        AppError::ServiceUnavailable(_) => 503,
    }
}

/// The message carried by an error.
pub open spec fn message_of(e: AppError) -> Seq<char> {
    match e {
        AppError::InternalServerError(m) => m@,
        AppError::BadRequest(m) => m@,
        AppError::Unauthorized(m) => m@,
        AppError::Forbidden(m) => m@,
        AppError::NotFound(m) => m@,
        AppError::Conflict(m) => m@,
        AppError::ServiceUnavailable(m) => m@,
    }
}

impl AppError {
    /// The HTTP status code answered for this error.
    pub fn status_code(&self) -> (r: u16)
        ensures
            r == status_of(*self),
    {
        match self {
            AppError::InternalServerError(_) => 500,
            AppError::BadRequest(_) => 400,
            AppError::Unauthorized(_) => 401,
            AppError::Forbidden(_) => 403,
            AppError::NotFound(_) => 404,
            AppError::Conflict(_) => 409,
            AppError::ServiceUnavailable(_) => 503,
        }
    }

    /// The status code and the message, for the response body
    /// `{"error": message}`.
    pub fn into_parts(self) -> (r: (u16, String))
        ensures
            r.0 == status_of(self),
            r.1@ == message_of(self),
    {
        let status = self.status_code();
        match self {
            AppError::InternalServerError(m) => (status, m),
            AppError::BadRequest(m) => (status, m),
            AppError::Unauthorized(m) => (status, m),
            AppError::Forbidden(m) => (status, m),
            AppError::NotFound(m) => (status, m),
            AppError::Conflict(m) => (status, m),
            AppError::ServiceUnavailable(m) => (status, m),
        }
    }
}

/// An error of the given variant with a literal message.
pub fn bad_request(msg: &str) -> (r: AppError)
    ensures
        r matches AppError::BadRequest(m) && m@ == msg@,
{
    AppError::BadRequest(String::from_str(msg))
}

pub fn unauthorized(msg: &str) -> (r: AppError)
    ensures
        r matches AppError::Unauthorized(m) && m@ == msg@,
{
    AppError::Unauthorized(String::from_str(msg))
}

pub fn forbidden(msg: &str) -> (r: AppError)
    ensures
        r matches AppError::Forbidden(m) && m@ == msg@,
{
    AppError::Forbidden(String::from_str(msg))
}

pub fn not_found(msg: &str) -> (r: AppError)
    ensures
        r matches AppError::NotFound(m) && m@ == msg@,
{
    AppError::NotFound(String::from_str(msg))
}

pub fn conflict(msg: &str) -> (r: AppError)
    ensures
        r matches AppError::Conflict(m) && m@ == msg@,
{
    AppError::Conflict(String::from_str(msg))
}

pub fn service_unavailable(msg: &str) -> (r: AppError)
    ensures
        r matches AppError::ServiceUnavailable(m) && m@ == msg@,
{
    AppError::ServiceUnavailable(String::from_str(msg))
}

} // verus!

//! Errors a request can end in, with the status code and message each is answered with.

use vstd::prelude::*;

verus! {

#[verifier::external_type_specification]
#[verifier::external_body]
pub struct ExSqlxError(sqlx::Error);

/// The ways a request can fail.
#[derive(Debug)]
pub enum ApiError {
    Unauthorized,
    BadRequest(String),
    NotFound(String),
    Internal,
}

/// The HTTP status an error is answered with.
pub open spec fn error_status(e: ApiError) -> u16 {
    match e {
        ApiError::Unauthorized => 401,
        ApiError::BadRequest(_) => 400,
        ApiError::NotFound(_) => 404,
        ApiError::Internal => 500,
    }
}

/// The message in the body of an error reply.
pub open spec fn error_message(e: ApiError) -> Seq<char> {
    match e {
        ApiError::Unauthorized => "missing or invalid API key (x-api-key header)"@,
        ApiError::BadRequest(m) => m@,
        ApiError::NotFound(m) => m@,
        ApiError::Internal => "internal error"@,
    }
}

impl ApiError {
    /// The HTTP status this error is answered with.
    pub fn status(&self) -> (r: u16)
        ensures
            r == error_status(*self),
    {
        match self {
            ApiError::Unauthorized => 401,
            ApiError::BadRequest(_) => 400,
            ApiError::NotFound(_) => 404,
            ApiError::Internal => 500,
        }
    }

    /// The text sent as `{"error": ...}`. A database failure is only ever reported
    /// as "internal error", never with the database's own message.
    pub fn message(&self) -> (r: String)
        ensures
            r@ == error_message(*self),
    {
        match self {
            ApiError::Unauthorized => String::from_str("missing or invalid API key (x-api-key header)"),
            ApiError::BadRequest(m) => m.clone(),
            ApiError::NotFound(m) => m.clone(),
            ApiError::Internal => String::from_str("internal error"),
        }
    }
}

/// Every database failure becomes `Internal`.
impl From<sqlx::Error> for ApiError {
    fn from(err: sqlx::Error) -> (r: ApiError) {
        ApiError::Internal
    }
}

impl vstd::std_specs::convert::FromSpecImpl<sqlx::Error> for ApiError {
    open spec fn obeys_from_spec() -> bool {
        true
    }

    open spec fn from_spec(err: sqlx::Error) -> ApiError {
        ApiError::Internal
    }
}

} // verus!

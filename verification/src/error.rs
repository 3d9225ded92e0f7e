//! What a request can be refused with.

use vstd::prelude::*;

verus! {

/// The ways in which a request fails.
#[derive(Clone, Copy, Debug, PartialEq, Eq, Structural)]
pub enum ApiError {
    /// The client's input breaks a rule of the task model.
    Validation,
    /// The request carries no session cookie that matches the secret.
    Unauthorized,
    /// A login presented the wrong secret.
    Forbidden,
    /// No task has the id that the request names.
    NotFound,
    /// The store failed, or the request reached a handler without its id.
    Internal,
}

impl ApiError {
    /// The HTTP status that stands for this error.
    pub open spec fn spec_status_code(self) -> u16 {
        match self {
            ApiError::Validation => 422,
            ApiError::Unauthorized => 401,
            ApiError::Forbidden => 403,
            ApiError::NotFound => 404,
            ApiError::Internal => 500,
        }
    }

    /// The HTTP status that stands for this error.
    pub fn status_code(self) -> (code: u16)
        ensures
            code == self.spec_status_code(),
    {
        match self {
            ApiError::Validation => 422,
            ApiError::Unauthorized => 401,
            ApiError::Forbidden => 403,
            ApiError::NotFound => 404,
            ApiError::Internal => 500,
        }
    }
}

} // verus!

//! Errors returned by the governance operations.
use vstd::prelude::*;

verus! {

/// The error of a governance operation. Each carries a short explanation
/// where one helps the caller.
#[derive(Debug)]
pub enum ApiError {
    NotFound(String),
    InvalidInput(String),
    InsufficientPermissions,
    AlreadyExists(String),
    InternalError(String),
}

impl Clone for ApiError {
    fn clone(&self) -> (r: Self)
        ensures
            r == *self,
    {
        match self {
            ApiError::NotFound(m) => ApiError::NotFound(m.clone()),
            ApiError::InvalidInput(m) => ApiError::InvalidInput(m.clone()),
            ApiError::InsufficientPermissions => ApiError::InsufficientPermissions,
            ApiError::AlreadyExists(m) => ApiError::AlreadyExists(m.clone()),
            ApiError::InternalError(m) => ApiError::InternalError(m.clone()),
        }
    }
}

/// The text shown to a user for an error: a fixed prefix per kind,
/// followed by the explanation it carries.
pub open spec fn message_of(e: ApiError) -> Seq<char> {
    match e {
        ApiError::NotFound(m) => "Not found: "@ + m@,
        ApiError::InvalidInput(m) => "Invalid input: "@ + m@,
        ApiError::InsufficientPermissions => "Insufficient permissions"@,
        ApiError::AlreadyExists(m) => "Already exists: "@ + m@,
        ApiError::InternalError(m) => "Internal error: "@ + m@,
    }
}

impl ApiError {
    /// The human-readable form of the error.
    pub fn message(&self) -> (r: String)
        ensures
            r@ == message_of(*self),
    {
        match self {
            ApiError::NotFound(m) => String::from_str("Not found: ").concat(m.as_str()),
            ApiError::InvalidInput(m) => String::from_str("Invalid input: ").concat(m.as_str()),
            ApiError::InsufficientPermissions => String::from_str("Insufficient permissions"),
            ApiError::AlreadyExists(m) => String::from_str("Already exists: ").concat(m.as_str()),
            ApiError::InternalError(m) => String::from_str("Internal error: ").concat(m.as_str()),
        }
    }
}

} // verus!

use crate::errors::{message_of, status_of, ApiError};
use vstd::prelude::*;

verus! {

pub const REGISTERED: &'static str = "User registered successfully";

pub const LOGGED_IN: &'static str = "Correct password";

pub const USERS_LISTED: &'static str = "User metadata retrieved successfully";

pub const TAG_CREATED: &'static str = "Tag created successfully";

/// The uniform envelope of every operation: data and a message on success, an
/// error kind on failure (whose message is a function of the kind), never both.
#[derive(Clone, Debug)]
pub enum ApiResponse<T> {
    Success { data: Option<T>, message: &'static str },
    Failure { error: ApiError },
}

impl<T> ApiResponse<T> {
    /// A success that carries `data`.
    pub fn data(data: T, message: &'static str) -> (r: ApiResponse<T>)
        ensures
            r == (ApiResponse::Success { data: Some(data), message }),
    {
        ApiResponse::Success { data: Some(data), message }
    }

    /// A success that carries a message only.
    pub fn message_only(message: &'static str) -> (r: ApiResponse<T>)
        ensures
            r == (ApiResponse::<T>::Success { data: None, message }),
    {
        ApiResponse::Success { data: None, message }
    }

    /// Wraps the outcome of an operation: its value under `message`, or its error.
    pub fn from_result(r: Result<T, ApiError>, message: &'static str) -> (out: ApiResponse<T>)
        ensures
            out == match r {
                Ok(v) => ApiResponse::Success { data: Some(v), message },
                Err(e) => ApiResponse::<T>::Failure { error: e },
            },
    {
        match r {
            Ok(v) => ApiResponse::Success { data: Some(v), message },
            Err(e) => ApiResponse::Failure { error: e },
        }
    }

    /// Whether the envelope reports success.
    pub fn is_success(&self) -> (r: bool)
        ensures
            r == (self is Success),
    {
        matches!(self, ApiResponse::Success { .. })
    }

    /// The HTTP status of the envelope: 200 on success, else the error's status.
    pub fn status_code(&self) -> (r: u16)
        ensures
            r == match self {
                ApiResponse::Success { .. } => 200u16,
                ApiResponse::Failure { error } => status_of(*error),
            },
    {
        match self {
            ApiResponse::Success { .. } => 200,
            ApiResponse::Failure { error } => error.status_code(),
        }
    }

    /// The message that goes out with the envelope.
    pub fn message(&self) -> (r: &'static str)
        ensures
            match self {
                ApiResponse::Success { message, .. } => r == *message,
                ApiResponse::Failure { error } => r@ == message_of(*error),
            },
    {
        match self {
            ApiResponse::Success { message, .. } => *message,
            ApiResponse::Failure { error } => error.message(),
        }
    }
}

/// Wraps an outcome that has no data: a bare message on success, or its error.
pub fn confirm(r: Result<(), ApiError>, message: &'static str) -> (out: ApiResponse<()>)
    ensures
        out == match r {
            Ok(_) => ApiResponse::<()>::Success { data: None, message },
            Err(e) => ApiResponse::<()>::Failure { error: e },
        },
{
    match r {
        Ok(_) => ApiResponse::Success { data: None, message },
        Err(e) => ApiResponse::Failure { error: e },
    }
}

} // verus!

use vstd::prelude::*;

verus! {

/// Which piece of input failed validation.
#[derive(Clone, Copy, Debug, PartialEq, Eq, Structural)]
pub enum Invalid {
    Email,
    Password,
    TagName,
}

/// The closed set of failure kinds that every operation reports.
#[derive(Clone, Copy, Debug, PartialEq, Eq, Structural)]
pub enum ApiError {
    /// Malformed input; says which field was rejected.
    Validation(Invalid),
    /// A uniqueness rule of the store was violated.
    Conflict,
    /// Bad credentials or unknown principal, told apart by nothing.
    Unauthorized,
    /// A referenced entity does not exist.
    NotFound,
    /// The store cannot take the operation (exhausted or unreachable).
    Unavailable,
}

pub open spec fn status_of(e: ApiError) -> u16 {
    match e {
        ApiError::Validation(_) => 400,
        ApiError::Conflict => 409,
        ApiError::Unauthorized => 401,
        ApiError::NotFound => 404,
        ApiError::Unavailable => 503,
    }
}

pub open spec fn message_of(e: ApiError) -> Seq<char> {
    match e {
        ApiError::Validation(Invalid::Email) => "Invalid email address"@,
        ApiError::Validation(Invalid::Password) => "Password must not be empty"@,
        ApiError::Validation(Invalid::TagName) => "Tag name must not be blank"@,
        ApiError::Conflict => "Resource already exists"@,
        ApiError::Unauthorized => "Unauthorized"@,
        ApiError::NotFound => "Resource not found"@,
        ApiError::Unavailable => "Service unavailable"@,
    }
}

impl ApiError {
    /// The HTTP status that this kind of failure maps to.
    pub fn status_code(&self) -> (r: u16)
        ensures
            r == status_of(*self),
            400 <= r < 600,
    {
        match self {
            ApiError::Validation(_) => 400,
            ApiError::Conflict => 409,
            ApiError::Unauthorized => 401,
            ApiError::NotFound => 404,
            ApiError::Unavailable => 503,
        }
    }

    /// The stable message that goes out with this kind of failure.
    pub fn message(&self) -> (r: &'static str)
        ensures
            r@ == message_of(*self),
    {
        match self {
            ApiError::Validation(Invalid::Email) => "Invalid email address",
            ApiError::Validation(Invalid::Password) => "Password must not be empty",
            ApiError::Validation(Invalid::TagName) => "Tag name must not be blank",
            ApiError::Conflict => "Resource already exists",
            ApiError::Unauthorized => "Unauthorized",
            ApiError::NotFound => "Resource not found",
            ApiError::Unavailable => "Service unavailable",
        }
    }

    /// True of the failures that the caller caused (4xx), false of the store's (5xx).
    pub fn is_client_error(&self) -> (r: bool)
        ensures
            r == (status_of(*self) < 500),
    {
        !matches!(self, ApiError::Unavailable)
    }
}

} // verus!

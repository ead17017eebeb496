use vstd::prelude::*;

verus! {

/// The error taxonomy of every policy and protocol function.
#[derive(Debug, PartialEq, Eq)]
pub enum ServiceError {
    /// A malformed payload: link format, foreign-key mismatch, self-subscription.
    BadRequest(String),
    /// The credential check failed.
    Unauthorized(String),
    /// Authenticated, but lacking the required ownership or authorship.
    Forbidden(String),
    /// The entity or authorization target is absent or soft-deleted.
    NotFound(String),
    /// A unique field (an id, a repo or user name) is already taken.
    Conflict(String),
    /// A store failure or an invariant violation.
    InternalServerError(String),
}

pub type ServiceResult<T> = Result<T, ServiceError>;

/// The variant of a [`ServiceError`], without its message.
#[derive(Debug, Clone, Copy, PartialEq, Eq, Structural)]
pub enum ErrorKind {
    BadRequest,
    Unauthorized,
    Forbidden,
    NotFound,
    Conflict,
    InternalServerError,
}

/// `r` is an error of kind `k`.
pub open spec fn fails_with<T>(r: ServiceResult<T>, k: ErrorKind) -> bool {
    r is Err && r->Err_0.kind() == k
}

impl ServiceError {
    pub open spec fn kind(&self) -> ErrorKind {
        match self {
            ServiceError::BadRequest(_) => ErrorKind::BadRequest,
            ServiceError::Unauthorized(_) => ErrorKind::Unauthorized,
            ServiceError::Forbidden(_) => ErrorKind::Forbidden,
            ServiceError::NotFound(_) => ErrorKind::NotFound,
            ServiceError::Conflict(_) => ErrorKind::Conflict,
            ServiceError::InternalServerError(_) => ErrorKind::InternalServerError,
        }
    }

    /// The text of the error, as the transport layer shows it.
    pub fn message(&self) -> (r: &String)
        ensures
            r == match self {
                ServiceError::BadRequest(m) => m,
                ServiceError::Unauthorized(m) => m,
                ServiceError::Forbidden(m) => m,
                ServiceError::NotFound(m) => m,
                ServiceError::Conflict(m) => m,
                ServiceError::InternalServerError(m) => m,
            },
    {
        match self {
            ServiceError::BadRequest(m) => m,
            ServiceError::Unauthorized(m) => m,
            ServiceError::Forbidden(m) => m,
            ServiceError::NotFound(m) => m,
            ServiceError::Conflict(m) => m,
            ServiceError::InternalServerError(m) => m,
        }
    }

    /// The HTTP status code that the transport layer answers with.
    pub fn status_code(&self) -> (r: u16)
        ensures
            r == match self {
                ServiceError::BadRequest(_) => 400u16,
                ServiceError::Unauthorized(_) => 401u16,
                ServiceError::Forbidden(_) => 403u16,
                ServiceError::NotFound(_) => 404u16,
                ServiceError::Conflict(_) => 409u16,
                ServiceError::InternalServerError(_) => 500u16,
            },
    {
        match self {
            ServiceError::BadRequest(_) => 400,
            ServiceError::Unauthorized(_) => 401,
            ServiceError::Forbidden(_) => 403,
            ServiceError::NotFound(_) => 404,
            ServiceError::Conflict(_) => 409,
            ServiceError::InternalServerError(_) => 500,
        }
    }
}

} // verus!

use vstd::prelude::*;

verus! {

/// The category of a refused request, one per HTTP status the server answers with.
#[derive(Clone, Copy, Debug, PartialEq, Eq, Structural)]
pub enum ErrorKind {
    BadRequest,
    Unauthorized,
    Forbidden,
    NotFound,
    TooManyRequests,
    Internal,
}

/// Why a request was refused, with the message shown to the client.
#[derive(Debug)]
pub enum ApiError {
    BadRequest(String),
    Unauthorized(String),
    Forbidden(String),
    NotFound(String),
    TooManyRequests(String),
    Internal(String),
}

impl ApiError {
    /// The kind and the message text of this error.
    pub open spec fn failure(self) -> (ErrorKind, Seq<char>) {
        match self {
            ApiError::BadRequest(m) => (ErrorKind::BadRequest, m@),
            ApiError::Unauthorized(m) => (ErrorKind::Unauthorized, m@),
            ApiError::Forbidden(m) => (ErrorKind::Forbidden, m@),
            ApiError::NotFound(m) => (ErrorKind::NotFound, m@),
            ApiError::TooManyRequests(m) => (ErrorKind::TooManyRequests, m@),
            ApiError::Internal(m) => (ErrorKind::Internal, m@),
        }
    }

    /// Builds an error of the given kind carrying `message`.
    pub fn new(kind: ErrorKind, message: &str) -> (e: ApiError)
        ensures
            e.failure() == (kind, message@),
    {
        let m = message.to_owned();
        match kind {
            ErrorKind::BadRequest => ApiError::BadRequest(m),
            ErrorKind::Unauthorized => ApiError::Unauthorized(m),
            ErrorKind::Forbidden => ApiError::Forbidden(m),
            ErrorKind::NotFound => ApiError::NotFound(m),
            ErrorKind::TooManyRequests => ApiError::TooManyRequests(m),
            ErrorKind::Internal => ApiError::Internal(m),
        }
    }

    /// The kind of this error.
    pub fn kind(&self) -> (k: ErrorKind)
        ensures
            k == self.failure().0,
    {
        match self {
            ApiError::BadRequest(_) => ErrorKind::BadRequest,
            ApiError::Unauthorized(_) => ErrorKind::Unauthorized,
            ApiError::Forbidden(_) => ErrorKind::Forbidden,
            ApiError::NotFound(_) => ErrorKind::NotFound,
            ApiError::TooManyRequests(_) => ErrorKind::TooManyRequests,
            ApiError::Internal(_) => ErrorKind::Internal,
        }
    }

    /// The message text of this error.
    pub fn message(&self) -> (m: &String)
        ensures
            m@ == self.failure().1,
    {
        match self {
            ApiError::BadRequest(m) => m,
            ApiError::Unauthorized(m) => m,
            ApiError::Forbidden(m) => m,
            ApiError::NotFound(m) => m,
            ApiError::TooManyRequests(m) => m,
            ApiError::Internal(m) => m,
        }
    }
}

/// The HTTP status code of each kind of error.
pub open spec fn spec_status_code(kind: ErrorKind) -> u16 {
    match kind {
        ErrorKind::BadRequest => 400,
        ErrorKind::Unauthorized => 401,
        ErrorKind::Forbidden => 403,
        ErrorKind::NotFound => 404,
        ErrorKind::TooManyRequests => 429,
        ErrorKind::Internal => 500,
    }
}

impl ErrorKind {
    /// The HTTP status code the server answers with for this kind of error.
    pub fn status_code(self) -> (code: u16)
        ensures
            code == spec_status_code(self),
    {
        match self {
            ErrorKind::BadRequest => 400,
            ErrorKind::Unauthorized => 401,
            ErrorKind::Forbidden => 403,
            ErrorKind::NotFound => 404,
            ErrorKind::TooManyRequests => 429,
            ErrorKind::Internal => 500,
        }
    }
}

} // verus!

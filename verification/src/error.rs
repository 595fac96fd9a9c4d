use vstd::prelude::*;

verus! {

/// Error taxonomy of the authentication core.
///
/// Storage and crypto failures are collapsed into `InternalServerError`;
/// only domain-level conditions (bad credentials, invalid token, duplicate
/// key, malformed input) carry a specific message.
#[derive(Debug, Clone, PartialEq, Eq)]
pub enum AppError {
    InternalServerError,
    BadRequest(String),
    Unauthorized,
    NotFound(String),
    Conflict(String),
    UnprocessableEntity(String),
}

impl AppError {
    /// The HTTP status code an adaptation layer should use for this error.
    pub open spec fn spec_status_code(&self) -> u16 {
        match self {
            AppError::InternalServerError => 500,
            AppError::BadRequest(_) => 400,
            AppError::Unauthorized => 401,
            AppError::NotFound(_) => 404,
            AppError::Conflict(_) => 409,
            AppError::UnprocessableEntity(_) => 422,
        }
    }

    /// The message an adaptation layer should surface for this error.
    pub open spec fn spec_message(&self) -> Seq<char> {
        match self {
            AppError::InternalServerError => "Internal Server Error"@,
            AppError::BadRequest(m) => m@,
            AppError::Unauthorized => "Unauthorized"@,
            AppError::NotFound(m) => m@,
            AppError::Conflict(m) => m@,
            AppError::UnprocessableEntity(m) => m@,
        }
    }

    pub fn status_code(&self) -> (r: u16)
        ensures
            r == self.spec_status_code(),
    {
        match self {
            AppError::InternalServerError => 500,
            AppError::BadRequest(_) => 400,
            AppError::Unauthorized => 401,
            AppError::NotFound(_) => 404,
            AppError::Conflict(_) => 409,
            AppError::UnprocessableEntity(_) => 422,
        }
    }

    pub fn message(&self) -> (r: String)
        ensures
            r@ == self.spec_message(),
    {
        match self {
            AppError::InternalServerError => "Internal Server Error".to_owned(),
            AppError::BadRequest(m) => m.clone(),
            AppError::Unauthorized => "Unauthorized".to_owned(),
            AppError::NotFound(m) => m.clone(),
            AppError::Conflict(m) => m.clone(),
            AppError::UnprocessableEntity(m) => m.clone(),
        }
    }
}

} // verus!

//! Domain errors surfaced by the library, and the wire-level error body.

use vstd::prelude::*;

verus! {

/// An error surfaced by a library operation. Precondition and not-found
/// failures are user-facing; internal failures stand for storage trouble.
#[derive(Debug, Clone)]
pub enum ModuleError {
    InternalError(String),
    PermissionDenied,
    InvalidToken,
    MissingCredentials,
    WrongCredentials,
    ItemNotFound,
    Error(String),
    AuthError,
    BadRequest(String),
    ResourceNotFound(String),
}

impl ModuleError {
    /// The HTTP status code a response for this error carries.
    pub fn status_code(&self) -> (r: u32)
        ensures
            r == self.spec_status_code(),
    {
        match self {
            ModuleError::InvalidToken => 401,
            ModuleError::AuthError => 401,
            ModuleError::WrongCredentials => 401,
            ModuleError::MissingCredentials => 401,
            ModuleError::PermissionDenied => 403,
            ModuleError::InternalError(_) => 500,
            ModuleError::ItemNotFound => 400,
            ModuleError::Error(_) => 400,
            ModuleError::BadRequest(_) => 400,
            ModuleError::ResourceNotFound(_) => 404,
        }
    }

    /// The HTTP status code, at the specification level.
    pub open spec fn spec_status_code(self) -> u32 {
        match self {
            ModuleError::InvalidToken => 401u32,
            ModuleError::AuthError => 401u32,
            ModuleError::WrongCredentials => 401u32,
            ModuleError::MissingCredentials => 401u32,
            ModuleError::PermissionDenied => 403u32,
            ModuleError::InternalError(_) => 500u32,
            ModuleError::ItemNotFound => 400u32,
            ModuleError::Error(_) => 400u32,
            ModuleError::BadRequest(_) => 400u32,
            ModuleError::ResourceNotFound(_) => 404u32,
        }
    }
}

/// The serialisable body an error response carries.
#[derive(Debug)]
pub struct ErrorMessage {
    pub message: String,
    pub status_code: u32,
}

impl ErrorMessage {
    /// A fresh body with the given message and status code.
    pub fn build(&mut self, message: String, status_code: u32) -> (r: ErrorMessage)
        ensures
            r.message == message,
            r.status_code == status_code,
            *final(self) == *old(self),
    {
        ErrorMessage { message, status_code }
    }
}

impl core::default::Default for ErrorMessage {
    /// An empty message with a zero status code.
    fn default() -> (r: ErrorMessage)
        ensures
            r.message@ == Seq::<char>::empty(),
            r.status_code == 0,
    {
        ErrorMessage { message: String::new(), status_code: 0 }
    }
}

} // verus!

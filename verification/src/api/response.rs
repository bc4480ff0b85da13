//! Messages sent to clients.

use vstd::prelude::*;

verus! {

broadcast use vstd::string::group_string_axioms;

/// Errors reported to clients of the task protocol.
#[derive(Clone, Copy, Debug, PartialEq, Eq, Structural)]
pub enum AppError {
    DecodeError,
    InternalServerError,
    Unauthorized,
    BadRequest,
    NotFound,
    Unknown,
}

/// The display text of an error: its variant's name.
pub open spec fn api_error_text(e: AppError) -> Seq<char> {
    match e {
        AppError::DecodeError => "DecodeError"@,
        AppError::InternalServerError => "InternalServerError"@,
        AppError::Unauthorized => "Unauthorized"@,
        AppError::BadRequest => "BadRequest"@,
        AppError::NotFound => "NotFound"@,
        AppError::Unknown => "Unknown"@,
    }
}

impl AppError {
    /// The display text of the error: its variant's name.
    pub fn to_string(&self) -> (r: String)
        ensures
            r@ == api_error_text(*self),
    {
        match self {
            AppError::DecodeError => "DecodeError".to_string(),
            AppError::InternalServerError => "InternalServerError".to_string(),
            AppError::Unauthorized => "Unauthorized".to_string(),
            AppError::BadRequest => "BadRequest".to_string(),
            AppError::NotFound => "NotFound".to_string(),
            AppError::Unknown => "Unknown".to_string(),
        }
    }
}

/// What the service tells about itself.
#[derive(Clone, Debug)]
pub struct Info {
    pub service: String,
    pub version_major: i64,
    pub version_minor: i64,
    pub version_rev: i64,
    pub app_pub_origin: String,
    pub auth_pub_api_href: String,
    pub auth_authenticator_href: String,
}

} // verus!

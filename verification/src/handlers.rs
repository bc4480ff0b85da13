//! Errors of the service, how outside failures map onto them, and the
//! service's description of itself.

use crate::api::response::Info;
use crate::habitica_integration::client::HabiticaError;
use vstd::prelude::*;

verus! {

broadcast use vstd::string::group_string_axioms;

#[verifier::external_type_specification]
#[verifier::external_body]
pub struct ExSerdeJsonError(serde_json::Error);

#[verifier::external_type_specification]
#[verifier::external_body]
pub struct ExPostgresError(tokio_postgres::Error);

#[verifier::external_type_specification]
#[verifier::external_body]
#[verifier::reject_recursive_types(E)]
pub struct ExPoolError<E>(deadpool::managed::PoolError<E>);

/// Name of the service.
pub const SERVICE: &'static str = "todoproxy";

/// Version of the service: major, minor and revision.
pub const VERSION_MAJOR: i64 = 0;

pub const VERSION_MINOR: i64 = 0;

pub const VERSION_REV: i64 = 1;

/// Errors the service answers with.
#[derive(Clone, Copy, Debug, PartialEq, Eq, Structural)]
pub enum AppError {
    DecodeError,
    InternalServerError,
    Unauthorized,
    BadRequest,
    NotFound,
    IntegrationNotFound,
    Unknown,
}

/// The HTTP status that answers an error.
pub open spec fn status_code_spec(e: AppError) -> u16 {
    match e {
        AppError::DecodeError => 502,
        AppError::InternalServerError => 500,
        AppError::Unauthorized => 401,
        AppError::BadRequest => 400,
        AppError::NotFound => 404,
        AppError::IntegrationNotFound => 400,
        AppError::Unknown => 500,
    }
}

/// The display text of an error: its variant's name.
pub open spec fn app_error_text(e: AppError) -> Seq<char> {
    match e {
        AppError::DecodeError => "DecodeError"@,
        AppError::InternalServerError => "InternalServerError"@,
        AppError::Unauthorized => "Unauthorized"@,
        AppError::BadRequest => "BadRequest"@,
        AppError::NotFound => "NotFound"@,
        AppError::IntegrationNotFound => "IntegrationNotFound"@,
        AppError::Unknown => "Unknown"@,
    }
}

impl AppError {
    /// The HTTP status that answers the error.
    pub fn status_code(&self) -> (r: u16)
        ensures
            r == status_code_spec(*self),
    {
        match self {
            AppError::DecodeError => 502,
            AppError::InternalServerError => 500,
            AppError::Unauthorized => 401,
            AppError::BadRequest => 400,
            AppError::NotFound => 404,
            AppError::IntegrationNotFound => 400,
            AppError::Unknown => 500,
        }
    }

    /// The display text of the error: its variant's name.
    pub fn to_string(&self) -> (r: String)
        ensures
            r@ == app_error_text(*self),
    {
        match self {
            AppError::DecodeError => "DecodeError".to_string(),
            AppError::InternalServerError => "InternalServerError".to_string(),
            AppError::Unauthorized => "Unauthorized".to_string(),
            AppError::BadRequest => "BadRequest".to_string(),
            AppError::NotFound => "NotFound".to_string(),
            AppError::IntegrationNotFound => "IntegrationNotFound".to_string(),
            AppError::Unknown => "Unknown".to_string(),
        }
    }
}

/// Errors of the authentication service.
#[derive(Clone, Copy, Debug, PartialEq, Eq, Structural)]
pub enum AuthError {
    ApiKeyNonexistent,
    ApiKeyUnauthorized,
    InternalServerError,
    MethodNotAllowed,
    BadRequest,
    Network,
    Unknown,
}

/// A database failure is an internal error.
pub fn report_postgres_err(e: tokio_postgres::Error) -> (r: AppError)
    ensures
        r == AppError::InternalServerError,
{
    AppError::InternalServerError
}

/// Failing to get a database connection from the pool is an internal error.
pub fn report_pool_err(e: deadpool_postgres::PoolError) -> (r: AppError)
    ensures
        r == AppError::InternalServerError,
{
    AppError::InternalServerError
}

/// Failing to encode a value of our own is an internal error.
pub fn report_internal_serde_error(e: serde_json::Error) -> (r: AppError)
    ensures
        r == AppError::InternalServerError,
{
    AppError::InternalServerError
}

/// A message from a client that does not decode is a decode error.
pub fn report_serde_error(e: serde_json::Error) -> (r: AppError)
    ensures
        r == AppError::DecodeError,
{
    AppError::DecodeError
}

/// A failed Habitica request is an internal error.
pub fn report_habitica_err(e: HabiticaError) -> (r: AppError)
    ensures
        r == AppError::InternalServerError,
{
    AppError::InternalServerError
}

/// How an authentication failure is answered.
pub open spec fn auth_err_spec(e: AuthError) -> AppError {
    match e {
        AuthError::ApiKeyNonexistent => AppError::Unauthorized,
        AuthError::ApiKeyUnauthorized => AppError::Unauthorized,
        AuthError::InternalServerError => AppError::InternalServerError,
        AuthError::MethodNotAllowed => AppError::InternalServerError,
        AuthError::BadRequest => AppError::InternalServerError,
        AuthError::Network => AppError::InternalServerError,
        AuthError::Unknown => AppError::Unknown,
    }
}

/// An unknown or unauthorized key is unauthorized; a failure of the
/// authentication service is an internal error; anything else is unknown.
pub fn report_auth_err(e: AuthError) -> (r: AppError)
    ensures
        r == auth_err_spec(e),
{
    match e {
        AuthError::ApiKeyNonexistent => AppError::Unauthorized,
        AuthError::ApiKeyUnauthorized => AppError::Unauthorized,
        c => match c {
            AuthError::InternalServerError => AppError::InternalServerError,
            AuthError::MethodNotAllowed => AppError::InternalServerError,
            AuthError::BadRequest => AppError::InternalServerError,
            AuthError::Network => AppError::InternalServerError,
            _ => AppError::Unknown,
        },
    }
}

/// The service's description of itself, given where it is published and what
/// the authentication service tells of itself.
pub fn info(app_pub_origin: String, auth_pub_api_href: String, auth_authenticator_href: String) -> (r:
    Info)
    ensures
        r.service@ == SERVICE@,
        r.version_major == VERSION_MAJOR,
        r.version_minor == VERSION_MINOR,
        r.version_rev == VERSION_REV,
        r.app_pub_origin == app_pub_origin,
        r.auth_pub_api_href == auth_pub_api_href,
        r.auth_authenticator_href == auth_authenticator_href,
{
    Info {
        service: String::from_str(SERVICE),
        version_major: VERSION_MAJOR,
        version_minor: VERSION_MINOR,
        version_rev: VERSION_REV,
        app_pub_origin,
        auth_pub_api_href,
        auth_authenticator_href,
    }
}

} // verus!

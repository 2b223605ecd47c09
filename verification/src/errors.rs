//! The engine's error taxonomy: errors surfaced to callers, each with a
//! stable machine-readable code and an HTTP status, and the internal
//! transaction-control errors that the retry coordinator consumes.

use vstd::prelude::*;

verus! {

/// An error surfaced to an external caller. Credential failures are reported
/// with the least specific variant available at each call site, deliberately,
/// to prevent user enumeration.
#[derive(Debug)]
pub enum Error {
    /// The user is authenticated but lacks permission for the resource.
    AccessDenied,
    /// Authentication credentials are required but unspecified, invalid, or
    /// matching no user.
    AuthFailed,
    /// The resource to create already exists.
    AlreadyExists,
    /// The request body does not match the required target type.
    BodyDataInvalid(String),
    /// The request body is too large.
    BodyTooLarge,
    /// CAPTCHA verification failed.
    CaptchaFailed,
    /// The email verification token or code is missing or wrong.
    EmailVerificationWrong,
    /// The first-factor credentials are wrong; never reveals which part.
    FirstFactorCredentialsWrong,
    /// An unexpected internal failure; details are never exposed to clients.
    Internal,
    /// The `Content-Type` header is not `application/json`.
    JsonContentType,
    /// The JSON syntax of the request body is incorrect.
    JsonSyntax(String),
    /// The HTTP method is not allowed on the route.
    MethodNotAllowed,
    /// A one-time password is wrong.
    OtpWrong,
    /// The request URI path does not match the required target type.
    PathDataInvalid(String),
    /// The request URI query does not match the required target type.
    QueryDataInvalid(String),
    /// The route exists but the resource was not found.
    ResourceNotFound,
    /// The route does not exist.
    RouteNotFound,
    /// The second-factor credentials are wrong or required but absent.
    SecondFactorCredentialsWrong,
    /// User credentials (email and password, not session credentials) match
    /// no user.
    UserCredentialsWrong,
}

/// The machine-readable code of an error.
pub open spec fn code_of(e: Error) -> Seq<char> {
    match e {
        Error::AccessDenied => "ACCESS_DENIED"@,
        Error::AuthFailed => "AUTH_FAILED"@,
        Error::AlreadyExists => "ALREADY_EXISTS"@,
        Error::BodyDataInvalid(_) => "BODY_DATA_INVALID"@,
        Error::BodyTooLarge => "BODY_TOO_LARGE"@,
        Error::CaptchaFailed => "CAPTCHA_FAILED"@,
        Error::EmailVerificationWrong => "EMAIL_VERIFICATION_WRONG"@,
        Error::FirstFactorCredentialsWrong => "FIRST_FACTOR_CREDENTIALS_WRONG"@,
        Error::Internal => "INTERNAL"@,
        Error::JsonContentType => "JSON_CONTENT_TYPE"@,
        Error::JsonSyntax(_) => "JSON_SYNTAX"@,
        Error::MethodNotAllowed => "METHOD_NOT_ALLOWED"@,
        Error::OtpWrong => "OTP_WRONG"@,
        Error::PathDataInvalid(_) => "PATH_DATA_INVALID"@,
        Error::QueryDataInvalid(_) => "QUERY_DATA_INVALID"@,
        Error::ResourceNotFound => "RESOURCE_NOT_FOUND"@,
        Error::RouteNotFound => "ROUTE_NOT_FOUND"@,
        Error::SecondFactorCredentialsWrong => "SECOND_FACTOR_CREDENTIALS_WRONG"@,
        Error::UserCredentialsWrong => "USER_CREDENTIALS_WRONG"@,
    }
}

/// The HTTP response status of an error.
pub open spec fn status_of(e: Error) -> u16 {
    match e {
        Error::AccessDenied => 403,
        Error::AuthFailed => 401,
        Error::AlreadyExists => 409,
        Error::BodyDataInvalid(_) => 400,
        Error::BodyTooLarge => 413,
        Error::CaptchaFailed => 403,
        Error::EmailVerificationWrong => 403,
        Error::FirstFactorCredentialsWrong => 403,
        Error::Internal => 500,
        Error::JsonContentType => 415,
        Error::JsonSyntax(_) => 400,
        Error::MethodNotAllowed => 405,
        Error::OtpWrong => 403,
        Error::PathDataInvalid(_) => 400,
        Error::QueryDataInvalid(_) => 400,
        Error::ResourceNotFound => 404,
        Error::RouteNotFound => 404,
        Error::SecondFactorCredentialsWrong => 403,
        Error::UserCredentialsWrong => 403,
    }
}

impl Error {
    /// Gets the error's code in `SCREAMING_SNAKE_CASE`.
    pub fn code(&self) -> (r: &'static str)
        ensures
            r@ == code_of(*self),
    {
        match self {
            Error::AccessDenied => "ACCESS_DENIED",
            Error::AuthFailed => "AUTH_FAILED",
            Error::AlreadyExists => "ALREADY_EXISTS",
            Error::BodyDataInvalid(_) => "BODY_DATA_INVALID",
            Error::BodyTooLarge => "BODY_TOO_LARGE",
            Error::CaptchaFailed => "CAPTCHA_FAILED",
            Error::EmailVerificationWrong => "EMAIL_VERIFICATION_WRONG",
            Error::FirstFactorCredentialsWrong => "FIRST_FACTOR_CREDENTIALS_WRONG",
            Error::Internal => "INTERNAL",
            Error::JsonContentType => "JSON_CONTENT_TYPE",
            Error::JsonSyntax(_) => "JSON_SYNTAX",
            Error::MethodNotAllowed => "METHOD_NOT_ALLOWED",
            Error::OtpWrong => "OTP_WRONG",
            Error::PathDataInvalid(_) => "PATH_DATA_INVALID",
            Error::QueryDataInvalid(_) => "QUERY_DATA_INVALID",
            Error::ResourceNotFound => "RESOURCE_NOT_FOUND",
            Error::RouteNotFound => "ROUTE_NOT_FOUND",
            Error::SecondFactorCredentialsWrong => "SECOND_FACTOR_CREDENTIALS_WRONG",
            Error::UserCredentialsWrong => "USER_CREDENTIALS_WRONG",
        }
    }

    /// Gets the HTTP response status code corresponding to the error.
    pub fn status(&self) -> (r: u16)
        ensures
            r == status_of(*self),
    {
        match self {
            Error::AccessDenied => 403,
            Error::AuthFailed => 401,
            Error::AlreadyExists => 409,
            Error::BodyDataInvalid(_) => 400,
            Error::BodyTooLarge => 413,
            Error::CaptchaFailed => 403,
            Error::EmailVerificationWrong => 403,
            Error::FirstFactorCredentialsWrong => 403,
            Error::Internal => 500,
            Error::JsonContentType => 415,
            Error::JsonSyntax(_) => 400,
            Error::MethodNotAllowed => 405,
            Error::OtpWrong => 403,
            Error::PathDataInvalid(_) => 400,
            Error::QueryDataInvalid(_) => 400,
            Error::ResourceNotFound => 404,
            Error::RouteNotFound => 404,
            Error::SecondFactorCredentialsWrong => 403,
            Error::UserCredentialsWrong => 403,
        }
    }
}

/// The error result of a store transaction: either abort the transaction and
/// surface the inner error, or roll back and run the whole unit of work
/// again.
#[derive(Debug)]
pub enum TxError<E> {
    /// Aborts the transaction and surfaces the inner error.
    Abort(E),
    /// Rolls the transaction back and reruns the unit of work, used for
    /// store-detected race conditions.
    Retry,
}

/// The result of one attempt of a store transaction.
pub type TxResult<T, E> = Result<T, TxError<E>>;

/// The SQLSTATE class that a store under serializable isolation reports when
/// two concurrent transactions conflicted and one must be redone.
pub open spec fn is_serialization_failure(code: Option<Seq<char>>) -> bool {
    code == Some("40001"@)
}

/// Classifies a store-reported error into transaction control: a
/// serialization failure becomes a retry; any other store error aborts with
/// an opaque internal error.
pub fn classify_store_error(code: &Option<String>) -> (r: TxError<Error>)
    ensures
        match r {
            TxError::Retry => is_serialization_failure(
                match *code {
                    Some(c) => Some(c@),
                    None => None,
                },
            ),
            TxError::Abort(e) => !is_serialization_failure(
                match *code {
                    Some(c) => Some(c@),
                    None => None,
                },
            ) && e is Internal,
        },
{
    match code {
        Some(c) => {
            if crate::crypto::str_eq(c.as_str(), "40001") {
                TxError::Retry
            } else {
                TxError::Abort(Error::Internal)
            }
        },
        None => TxError::Abort(Error::Internal),
    }
}

} // verus!

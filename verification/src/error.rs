//! The errors of the service and how each is answered.

use crate::text::push_str;
use vstd::prelude::*;

verus! {

/// An error of the service.  Each variant carries the text that is sent back
/// as the error message (for errors of other components, that component's
/// description of the failure).
#[derive(Debug)]
pub enum ApiError {
    /// The input of a request is invalid.
    InvalidInputError(String),
    /// The request cannot be served.
    BadRequestError(String),
    /// The file is unknown.
    NotFoundError(String),
    /// The request lacks the right secret or the file may not be deleted.
    PermissionDeniedError(String),
    /// The resource is not available.
    NotAvailableError(String),
    /// The resource exists already.
    ResourceExistsError(String),
    /// The settings could not be read.
    ConfigError(String),
    /// An address could not be parsed.
    AddrParseError(String),
    /// Reading or writing a file failed.
    IoError(String),
    /// JSON could not be parsed.
    ParseJsonError(String),
    /// A record could not be encoded or decoded.
    BincodeError(String),
    /// An HTTP client request failed.
    ReqwestError(String),
    /// The system clock failed.
    SystemTimeError(String),
    /// Hashing a secret failed.
    HashError(String),
    /// A task could not be joined.
    SpawnTaskError(String),
    /// The HTTP server failed.
    HyperError(String),
    /// The database failed.
    DatabaseError(String),
    /// Bytes were not UTF-8.
    Utf8Error(String),
    /// A QR code could not be made.
    QrCodeError(String),
    /// A multipart body could not be read.
    MultipartError(String),
    /// A lock was poisoned.
    LockError(String),
    /// A duration was out of range.
    DurationOutOfRangeError(String),
    /// Any other failure.
    UnknownError(String),
    /// An upload is larger than allowed.
    PayloadTooLarge(String),
}

/// The result of an operation of the service.
pub type ApiResult<T> = Result<T, ApiError>;

/// The body of an error answer.
#[derive(Debug)]
pub struct BodyResponseError {
    pub error_type: String,
    pub error_message: String,
}

/// The error type that an error is answered with.
pub open spec fn error_type_of(e: ApiError) -> Seq<char> {
    match e {
        ApiError::InvalidInputError(_) => "INVALID_INPUT"@,
        ApiError::BadRequestError(_) => "BAD_REQUEST"@,
        ApiError::NotFoundError(_) => "NOT_FOUND"@,
        ApiError::PermissionDeniedError(_) => "PERMISSION_DENIED"@,
        ApiError::NotAvailableError(_) => "NOT_AVAILABLE"@,
        ApiError::ResourceExistsError(_) => "RESOURCE_EXISTS"@,
        ApiError::ConfigError(_) => "CONFIG_ERROR"@,
        ApiError::AddrParseError(_) => "ADDR_PARSE_ERROR"@,
        ApiError::IoError(_) => "IO_ERROR"@,
        ApiError::ParseJsonError(_) => "PARSE_JSON_ERROR"@,
        ApiError::BincodeError(_) => "PARSE_JSON_ERROR"@,
        ApiError::ReqwestError(_) => "REQWEST_ERROR"@,
        ApiError::SystemTimeError(_) => "SYSTEM_TIME_ERROR"@,
        ApiError::HashError(_) => "HASH_ERROR"@,
        ApiError::SpawnTaskError(_) => "SPAWN_TASK_ERROR"@,
        ApiError::HyperError(_) => "HYPER_ERROR"@,
        ApiError::DatabaseError(_) => "DATABASE_ERROR"@,
        ApiError::Utf8Error(_) => "UTF8_ERROR"@,
        ApiError::QrCodeError(_) => "QRCODE_ERROR"@,
        ApiError::MultipartError(_) => "MULTIPART_ERROR"@,
        ApiError::LockError(_) => "LOCK_ERROR"@,
        ApiError::DurationOutOfRangeError(_) => "DURATION_OUT_OF_RANGE"@,
        ApiError::UnknownError(_) => "UNKNOWN_ERROR"@,
        ApiError::PayloadTooLarge(_) => "PAYLOAD_TOO_LARGE"@,
    }
}

/// The HTTP status code that an error is answered with.
pub open spec fn status_of(e: ApiError) -> u16 {
    match e {
        ApiError::InvalidInputError(_) => 422,
        ApiError::BadRequestError(_) => 400,
        ApiError::NotFoundError(_) => 404,
        ApiError::PermissionDeniedError(_) => 403,
        ApiError::NotAvailableError(_) => 404,
        ApiError::ResourceExistsError(_) => 409,
        ApiError::ConfigError(_) => 500,
        ApiError::AddrParseError(_) => 500,
        ApiError::IoError(_) => 500,
        ApiError::ParseJsonError(_) => 500,
        ApiError::BincodeError(_) => 500,
        ApiError::ReqwestError(_) => 500,
        ApiError::SystemTimeError(_) => 500,
        ApiError::HashError(_) => 500,
        ApiError::SpawnTaskError(_) => 500,
        ApiError::HyperError(_) => 500,
        ApiError::DatabaseError(_) => 500,
        ApiError::Utf8Error(_) => 500,
        ApiError::QrCodeError(_) => 500,
        ApiError::MultipartError(_) => 500,
        ApiError::LockError(_) => 500,
        ApiError::DurationOutOfRangeError(_) => 500,
        ApiError::UnknownError(_) => 500,
        ApiError::PayloadTooLarge(_) => 413,
    }
}

/// The message that an error carries.
pub open spec fn message_of(e: ApiError) -> Seq<char> {
    match e {
        ApiError::InvalidInputError(m) => m@,
        ApiError::BadRequestError(m) => m@,
        ApiError::NotFoundError(m) => m@,
        ApiError::PermissionDeniedError(m) => m@,
        ApiError::NotAvailableError(m) => m@,
        ApiError::ResourceExistsError(m) => m@,
        ApiError::ConfigError(m) => m@,
        ApiError::AddrParseError(m) => m@,
        ApiError::IoError(m) => m@,
        ApiError::ParseJsonError(m) => m@,
        ApiError::BincodeError(m) => m@,
        ApiError::ReqwestError(m) => m@,
        ApiError::SystemTimeError(m) => m@,
        ApiError::HashError(m) => m@,
        ApiError::SpawnTaskError(m) => m@,
        ApiError::HyperError(m) => m@,
        ApiError::DatabaseError(m) => m@,
        ApiError::Utf8Error(m) => m@,
        ApiError::QrCodeError(m) => m@,
        ApiError::MultipartError(m) => m@,
        ApiError::LockError(m) => m@,
        ApiError::DurationOutOfRangeError(m) => m@,
        ApiError::UnknownError(m) => m@,
        ApiError::PayloadTooLarge(m) => m@,
    }
}

impl ApiError {
    /// The body and status code that answer this error.
    pub fn response(&self) -> (r: (BodyResponseError, u16))
        ensures
            r.0.error_type@ == error_type_of(*self),
            r.0.error_message@ == message_of(*self),
            r.1 == status_of(*self),
    {
        let (error_type, error_message, status_code): (&str, &String, u16) = match self {
            ApiError::InvalidInputError(err) => ("INVALID_INPUT", err, 422),
            ApiError::BadRequestError(err) => ("BAD_REQUEST", err, 400),
            ApiError::NotFoundError(err) => ("NOT_FOUND", err, 404),
            ApiError::PermissionDeniedError(err) => ("PERMISSION_DENIED", err, 403),
            ApiError::NotAvailableError(err) => ("NOT_AVAILABLE", err, 404),
            ApiError::ResourceExistsError(err) => ("RESOURCE_EXISTS", err, 409),
            ApiError::ConfigError(err) => ("CONFIG_ERROR", err, 500),
            ApiError::AddrParseError(err) => ("ADDR_PARSE_ERROR", err, 500),
            ApiError::IoError(err) => ("IO_ERROR", err, 500),
            ApiError::ParseJsonError(err) => ("PARSE_JSON_ERROR", err, 500),
            ApiError::BincodeError(err) => ("PARSE_JSON_ERROR", err, 500),
            ApiError::ReqwestError(err) => ("REQWEST_ERROR", err, 500),
            ApiError::SystemTimeError(err) => ("SYSTEM_TIME_ERROR", err, 500),
            ApiError::HashError(err) => ("HASH_ERROR", err, 500),
            ApiError::SpawnTaskError(err) => ("SPAWN_TASK_ERROR", err, 500),
            ApiError::HyperError(err) => ("HYPER_ERROR", err, 500),
            ApiError::DatabaseError(err) => ("DATABASE_ERROR", err, 500),
            ApiError::Utf8Error(err) => ("UTF8_ERROR", err, 500),
            ApiError::QrCodeError(err) => ("QRCODE_ERROR", err, 500),
            ApiError::MultipartError(err) => ("MULTIPART_ERROR", err, 500),
            ApiError::LockError(err) => ("LOCK_ERROR", err, 500),
            ApiError::DurationOutOfRangeError(err) => ("DURATION_OUT_OF_RANGE", err, 500),
            ApiError::UnknownError(err) => ("UNKNOWN_ERROR", err, 500),
            ApiError::PayloadTooLarge(err) => ("PAYLOAD_TOO_LARGE", err, 413),
        };
        (
            BodyResponseError {
                error_type: error_type.to_owned(),
                error_message: error_message.clone(),
            },
            status_code,
        )
    }

    /// The message that this error carries.
    pub fn message(&self) -> (r: String)
        ensures
            r@ == message_of(*self),
    {
        match self {
            ApiError::InvalidInputError(m) => m.clone(),
            ApiError::BadRequestError(m) => m.clone(),
            ApiError::NotFoundError(m) => m.clone(),
            ApiError::PermissionDeniedError(m) => m.clone(),
            ApiError::NotAvailableError(m) => m.clone(),
            ApiError::ResourceExistsError(m) => m.clone(),
            ApiError::ConfigError(m) => m.clone(),
            ApiError::AddrParseError(m) => m.clone(),
            ApiError::IoError(m) => m.clone(),
            ApiError::ParseJsonError(m) => m.clone(),
            ApiError::BincodeError(m) => m.clone(),
            ApiError::ReqwestError(m) => m.clone(),
            ApiError::SystemTimeError(m) => m.clone(),
            ApiError::HashError(m) => m.clone(),
            ApiError::SpawnTaskError(m) => m.clone(),
            ApiError::HyperError(m) => m.clone(),
            ApiError::DatabaseError(m) => m.clone(),
            ApiError::Utf8Error(m) => m.clone(),
            ApiError::QrCodeError(m) => m.clone(),
            ApiError::MultipartError(m) => m.clone(),
            ApiError::LockError(m) => m.clone(),
            ApiError::DurationOutOfRangeError(m) => m.clone(),
            ApiError::UnknownError(m) => m.clone(),
            ApiError::PayloadTooLarge(m) => m.clone(),
        }
    }
}

/// The message about an invalid field: the field's name, a colon, a space,
/// and what is wrong with it.
pub open spec fn invalid_input_message(field: Seq<char>, message: Seq<char>) -> Seq<char> {
    field + seq![':', ' '] + message
}

/// The error for an invalid field of a request.
pub fn invalid_input_error(field: &str, message: &str) -> (e: ApiError)
    ensures
        e matches ApiError::InvalidInputError(m) && m@ == invalid_input_message(field@, message@),
{
    let mut m = field.to_owned();
    crate::text::push_char(&mut m, ':');
    crate::text::push_char(&mut m, ' ');
    push_str(&mut m, message);
    ApiError::InvalidInputError(m)
}

} // verus!

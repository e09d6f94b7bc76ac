//! The errors that the service reports, and the HTTP answer to each.
use vstd::prelude::*;
use vstd::string::StringExecFns;

verus! {

/// Every failure the use cases can report.
#[derive(Debug, Clone, PartialEq, Eq)]
pub enum AppError {
    TagNotFound,
    ScanTokenNotFound,
    ProductNotFound,
    TagAlreadyExists,
    UnsupportedTagMode,
    InvalidKeyVersion,
    ReplayDetected,
    TagRevoked,
    ScanTokenRevoked,
    ScanTokenExpired,
    InvalidSignature,
    Validation(String),
    Unauthorized,
    Internal(String),
}

/// The HTTP status code that answers an error.
pub open spec fn error_status(e: AppError) -> u16 {
    match e {
        AppError::TagNotFound => 404,
        AppError::ScanTokenNotFound => 404,
        AppError::ProductNotFound => 404,
        AppError::TagAlreadyExists => 409,
        AppError::ReplayDetected => 409,
        AppError::TagRevoked => 410,
        AppError::ScanTokenRevoked => 403,
        AppError::ScanTokenExpired => 410,
        AppError::InvalidSignature => 401,
        AppError::UnsupportedTagMode => 400,
        AppError::InvalidKeyVersion => 400,
        AppError::Validation(_) => 400,
        AppError::Unauthorized => 401,
        AppError::Internal(_) => 500,
    }
}

/// The message of the JSON body that answers an error. A validation error
/// shows its own text; an internal error hides its detail.
pub open spec fn error_message(e: AppError) -> Seq<char> {
    match e {
        AppError::TagNotFound => "Tag not found"@,
        AppError::ScanTokenNotFound => "Scan token not found"@,
        AppError::ProductNotFound => "Product not found"@,
        AppError::TagAlreadyExists => "Tag already exists"@,
        AppError::ReplayDetected => "Replay detected"@,
        AppError::TagRevoked => "Tag revoked"@,
        AppError::ScanTokenRevoked => "Scan token revoked"@,
        AppError::ScanTokenExpired => "Scan token expired"@,
        AppError::InvalidSignature => "Invalid signature"@,
        AppError::UnsupportedTagMode => "Unsupported tag mode"@,
        AppError::InvalidKeyVersion => "Invalid key version"@,
        AppError::Validation(m) => m@,
        AppError::Unauthorized => "Unauthorized"@,
        AppError::Internal(_) => "Internal server error"@,
    }
}

impl AppError {
    /// Status code and body message of the HTTP response for this error.
    pub fn http_response(&self) -> (r: (u16, String))
        ensures
            r.0 == error_status(*self),
            r.1@ == error_message(*self),
    {
        match self {
            AppError::TagNotFound => (404, String::from_str("Tag not found")),
            AppError::ScanTokenNotFound => (404, String::from_str("Scan token not found")),
            AppError::ProductNotFound => (404, String::from_str("Product not found")),
            AppError::TagAlreadyExists => (409, String::from_str("Tag already exists")),
            AppError::ReplayDetected => (409, String::from_str("Replay detected")),
            AppError::TagRevoked => (410, String::from_str("Tag revoked")),
            AppError::ScanTokenRevoked => (403, String::from_str("Scan token revoked")),
            AppError::ScanTokenExpired => (410, String::from_str("Scan token expired")),
            AppError::InvalidSignature => (401, String::from_str("Invalid signature")),
            AppError::UnsupportedTagMode => (400, String::from_str("Unsupported tag mode")),
            AppError::InvalidKeyVersion => (400, String::from_str("Invalid key version")),
            AppError::Validation(m) => (400, m.clone()),
            AppError::Unauthorized => (401, String::from_str("Unauthorized")),
            AppError::Internal(_) => (500, String::from_str("Internal server error")),
        }
    }

    /// The text that the error displays, as its `Display` shows it.
    pub fn describe(&self) -> (r: String)
        ensures
            r@ == error_display(*self),
    {
        match self {
            AppError::Validation(m) => String::from_str("Validation error: ").concat(m.as_str()),
            AppError::Internal(m) => String::from_str("Internal error: ").concat(m.as_str()),
            _ => {
                let (_, msg) = self.http_response();
                msg
            },
        }
    }
}

/// `Display` text of an error.
pub open spec fn error_display(e: AppError) -> Seq<char> {
    match e {
        AppError::Validation(m) => "Validation error: "@ + m@,
        AppError::Internal(m) => "Internal error: "@ + m@,
        _ => error_message(e),
    }
}

/// A validation error with the given message.
pub fn validation(msg: &str) -> (e: AppError)
    ensures
        e matches AppError::Validation(m) && m@ == msg@,
{
    AppError::Validation(String::from_str(msg))
}

/// An internal error with the given message.
pub fn internal(msg: &str) -> (e: AppError)
    ensures
        e matches AppError::Internal(m) && m@ == msg@,
{
    AppError::Internal(String::from_str(msg))
}

} // verus!

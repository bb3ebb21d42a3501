//! Error taxonomy and its mapping to client-visible responses.
//!
//! Each error kind carries an internal message and maps to an HTTP
//! status, a machine-readable code and a client-visible message; for
//! server-side kinds the client message is generic, so internal detail
//! is never echoed back.

use crate::digits::{push_dec, spec_dec};
use vstd::prelude::*;

verus! {

/// The application error taxonomy.
#[derive(Debug)]
pub enum AppError {
    /// A request field violated a validation rule.
    Validation(String),
    /// An unsupported format or codec pairing.
    UnsupportedFormat(String),
    /// The encoder subprocess failed.
    Ffmpeg(String),
    /// An input/output failure.
    Io(String),
    /// The source stream could not be reached.
    SourceUnavailable(String),
    /// The global concurrency ceiling was hit; carries the configured limit.
    ConcurrencyLimitExceeded(usize),
    /// An operation timed out.
    Timeout(String),
    /// An invalid filter.
    FilterInvalid(String),
    /// An unclassified internal fault.
    Internal(String),
}

/// Result alias for fallible operations of this crate.
pub type AppResult<T> = Result<T, AppError>;

/// The HTTP status each error kind maps to.
pub open spec fn spec_status_code(e: AppError) -> u16 {
    match e {
        AppError::Validation(_) => 400u16,
        AppError::UnsupportedFormat(_) => 400u16,
        AppError::Ffmpeg(_) => 500u16,
        AppError::Io(_) => 500u16,
        AppError::SourceUnavailable(_) => 400u16,
        AppError::ConcurrencyLimitExceeded(_) => 503u16,
        AppError::Timeout(_) => 504u16,
        AppError::FilterInvalid(_) => 400u16,
        AppError::Internal(_) => 500u16,
    }
}

/// The machine-readable code each error kind maps to.
pub open spec fn spec_error_code(e: AppError) -> Seq<char> {
    match e {
        AppError::Validation(_) => "VALIDATION_ERROR"@,
        AppError::UnsupportedFormat(_) => "UNSUPPORTED_FORMAT"@,
        AppError::Ffmpeg(_) => "FFMPEG_ERROR"@,
        AppError::Io(_) => "IO_ERROR"@,
        AppError::SourceUnavailable(_) => "SOURCE_UNAVAILABLE"@,
        AppError::ConcurrencyLimitExceeded(_) => "CONCURRENCY_LIMIT_EXCEEDED"@,
        AppError::Timeout(_) => "TIMEOUT"@,
        AppError::FilterInvalid(_) => "FILTER_INVALID"@,
        AppError::Internal(_) => "INTERNAL_ERROR"@,
    }
}

/// The client-visible message: client-caused (4xx) kinds echo the
/// violated rule, server-side kinds give a generic message, and the
/// concurrency kind names the configured limit.
pub open spec fn spec_client_message(e: AppError) -> Seq<char> {
    match e {
        AppError::Validation(m) => m@,
        AppError::UnsupportedFormat(m) => m@,
        AppError::Ffmpeg(_) => "Transcoding failed"@,
        AppError::Io(_) => "IO operation failed"@,
        AppError::SourceUnavailable(m) => m@,
        AppError::ConcurrencyLimitExceeded(limit) => "Server is at capacity. Maximum "@ + spec_dec(
            limit as nat,
        ) + " concurrent streams allowed."@,
        AppError::Timeout(m) => m@,
        AppError::FilterInvalid(m) => m@,
        AppError::Internal(_) => "Internal server error"@,
    }
}

/// The internal description of each error, kind prefix plus detail.
pub open spec fn spec_describe(e: AppError) -> Seq<char> {
    match e {
        AppError::Validation(m) => "Validation error: "@ + m@,
        AppError::UnsupportedFormat(m) => "Unsupported format: "@ + m@,
        AppError::Ffmpeg(m) => "FFmpeg error: "@ + m@,
        AppError::Io(m) => "IO error: "@ + m@,
        AppError::SourceUnavailable(m) => "Source unavailable: "@ + m@,
        AppError::ConcurrencyLimitExceeded(limit) => "Concurrency limit exceeded: max "@
            + spec_dec(limit as nat) + " streams allowed"@,
        AppError::Timeout(m) => "Operation timeout: "@ + m@,
        AppError::FilterInvalid(m) => "Invalid filter: "@ + m@,
        AppError::Internal(m) => "Internal server error: "@ + m@,
    }
}

impl AppError {
    /// Returns the HTTP status this error maps to.
    pub fn status_code(&self) -> (r: u16)
        ensures
            r == spec_status_code(*self),
    {
        match self {
            AppError::Validation(_) => 400,
            AppError::UnsupportedFormat(_) => 400,
            AppError::Ffmpeg(_) => 500,
            AppError::Io(_) => 500,
            AppError::SourceUnavailable(_) => 400,
            AppError::ConcurrencyLimitExceeded(_) => 503,
            AppError::Timeout(_) => 504,
            AppError::FilterInvalid(_) => 400,
            AppError::Internal(_) => 500,
        }
    }

    /// Returns the machine-readable code this error maps to.
    pub fn error_code(&self) -> (r: &'static str)
        ensures
            r@ == spec_error_code(*self),
    {
        match self {
            AppError::Validation(_) => "VALIDATION_ERROR",
            AppError::UnsupportedFormat(_) => "UNSUPPORTED_FORMAT",
            AppError::Ffmpeg(_) => "FFMPEG_ERROR",
            AppError::Io(_) => "IO_ERROR",
            AppError::SourceUnavailable(_) => "SOURCE_UNAVAILABLE",
            AppError::ConcurrencyLimitExceeded(_) => "CONCURRENCY_LIMIT_EXCEEDED",
            AppError::Timeout(_) => "TIMEOUT",
            AppError::FilterInvalid(_) => "FILTER_INVALID",
            AppError::Internal(_) => "INTERNAL_ERROR",
        }
    }

    /// Returns the message shown to the client.
    pub fn client_message(&self) -> (r: String)
        ensures
            r@ == spec_client_message(*self),
    {
        match self {
            AppError::Validation(m) => m.clone(),
            AppError::UnsupportedFormat(m) => m.clone(),
            AppError::Ffmpeg(_) => String::from_str("Transcoding failed"),
            AppError::Io(_) => String::from_str("IO operation failed"),
            AppError::SourceUnavailable(m) => m.clone(),
            AppError::ConcurrencyLimitExceeded(limit) => {
                let mut s = String::from_str("Server is at capacity. Maximum ");
                push_dec(&mut s, *limit as u64);
                s.append(" concurrent streams allowed.");
                proof {
                    assert(s@ =~= spec_client_message(*self));
                }
                s
            },
            AppError::Timeout(m) => m.clone(),
            AppError::FilterInvalid(m) => m.clone(),
            AppError::Internal(_) => String::from_str("Internal server error"),
        }
    }

    /// Returns the internal description of this error, for server-side
    /// logging.
    pub fn describe(&self) -> (r: String)
        ensures
            r@ == spec_describe(*self),
    {
        match self {
            AppError::Validation(m) => {
                let mut s = String::from_str("Validation error: ");
                s.append(m.as_str());
                s
            },
            AppError::UnsupportedFormat(m) => {
                let mut s = String::from_str("Unsupported format: ");
                s.append(m.as_str());
                s
            },
            AppError::Ffmpeg(m) => {
                let mut s = String::from_str("FFmpeg error: ");
                s.append(m.as_str());
                s
            },
            AppError::Io(m) => {
                let mut s = String::from_str("IO error: ");
                s.append(m.as_str());
                s
            },
            AppError::SourceUnavailable(m) => {
                let mut s = String::from_str("Source unavailable: ");
                s.append(m.as_str());
                s
            },
            AppError::ConcurrencyLimitExceeded(limit) => {
                let mut s = String::from_str("Concurrency limit exceeded: max ");
                push_dec(&mut s, *limit as u64);
                s.append(" streams allowed");
                proof {
                    assert(s@ =~= spec_describe(*self));
                }
                s
            },
            AppError::Timeout(m) => {
                let mut s = String::from_str("Operation timeout: ");
                s.append(m.as_str());
                s
            },
            AppError::FilterInvalid(m) => {
                let mut s = String::from_str("Invalid filter: ");
                s.append(m.as_str());
                s
            },
            AppError::Internal(m) => {
                let mut s = String::from_str("Internal server error: ");
                s.append(m.as_str());
                s
            },
        }
    }

    /// Returns the client-visible response body for this error.
    pub fn to_error_response(&self) -> (r: ErrorResponse)
        ensures
            r.code@ == spec_error_code(*self),
            r.message@ == spec_client_message(*self),
            r.details is None,
    {
        let message = self.client_message();
        ErrorResponse {
            code: String::from_str(self.error_code()),
            message,
            details: None,
        }
    }
}

/// The client-visible error body.
#[derive(Debug)]
pub struct ErrorResponse {
    /// Machine-readable error code.
    pub code: String,
    /// Human-readable message.
    pub message: String,
    /// Optional further detail.
    pub details: Option<String>,
}

impl ErrorResponse {
    /// A response with the given code and message and no details.
    pub fn new(code: &str, message: &str) -> (r: ErrorResponse)
        ensures
            r.code@ == code@,
            r.message@ == message@,
            r.details is None,
    {
        ErrorResponse {
            code: String::from_str(code),
            message: String::from_str(message),
            details: None,
        }
    }

    /// The same response with detail text attached.
    pub fn with_details(self, details: &str) -> (r: ErrorResponse)
        ensures
            r.code == self.code,
            r.message == self.message,
            match r.details {
                Some(d) => d@ == details@,
                None => false,
            },
    {
        ErrorResponse {
            code: self.code,
            message: self.message,
            details: Some(String::from_str(details)),
        }
    }
}

} // verus!

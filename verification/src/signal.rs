//! The conditions a request can end in, and the error bodies shown for them.

use vstd::prelude::*;
use vstd::string::StringExecFns;
use crate::decimal::{decimal, decimal_string};

verus! {

/// Why a request was not served. None of these ends the process.
#[derive(Debug, Clone, Copy, PartialEq, Eq)]
pub enum Signal {
    /// The request is malformed; asking again will not help.
    Invalid,
    /// The administrative secret is wrong or missing.
    Unauthorized,
    /// No such identifier, or it is deleted.
    NotFound,
    /// The settings in use cannot produce an identifier.
    Misconfigured,
    /// The allocation loop used up its attempts.
    Exhausted,
    /// The store could not be reached or failed.
    StorageUnavailable,
    /// The operation is not yet available.
    NotImplemented,
    /// The service is suspended for maintenance.
    Suspended,
}

impl Signal {
    /// The status code under which the signal is reported.
    pub open spec fn code(self) -> u16 {
        match self {
            Signal::Invalid => 400,
            Signal::Unauthorized => 401,
            Signal::NotFound => 404,
            Signal::Misconfigured => 500,
            Signal::Exhausted => 500,
            Signal::StorageUnavailable => 500,
            Signal::NotImplemented => 501,
            Signal::Suspended => 503,
        }
    }

    /// The status code under which the signal is reported.
    pub fn status_code(&self) -> (code: u16)
        ensures
            code == self.code(),
    {
        match self {
            Signal::Invalid => 400,
            Signal::Unauthorized => 401,
            Signal::NotFound => 404,
            Signal::Misconfigured => 500,
            Signal::Exhausted => 500,
            Signal::StorageUnavailable => 500,
            Signal::NotImplemented => 501,
            Signal::Suspended => 503,
        }
    }
}

/// The body sent with a failed request.
#[derive(Debug, Clone, PartialEq, Eq)]
pub struct ApiError {
    /// A short machine-readable name.
    pub error: String,
    /// A sentence for a human reader.
    pub message: String,
    /// More, if there is any.
    pub details: Option<String>,
}

/// What an `ApiError` holds.
pub struct ApiErrorView {
    pub error: Seq<char>,
    pub message: Seq<char>,
    pub details: Option<Seq<char>>,
}

impl View for ApiError {
    type V = ApiErrorView;

    open spec fn view(&self) -> ApiErrorView {
        ApiErrorView {
            error: self.error@,
            message: self.message@,
            details: match self.details {
                Some(text) => Some(text@),
                None => None,
            },
        }
    }
}

/// The name shown for a status code.
pub open spec fn error_name(status_code: u16) -> Seq<char> {
    if status_code == 400 {
        "bad_request"@
    } else if status_code == 401 {
        "unauthorized"@
    } else if status_code == 404 {
        "not_found"@
    } else if status_code == 501 {
        "not_implemented"@
    } else if status_code == 503 {
        "service_unavailable"@
    } else {
        "internal_error"@
    }
}

/// The sentence shown for a status code. A code without a sentence of its
/// own is named in the text.
pub open spec fn error_message(status_code: u16) -> Seq<char> {
    if status_code == 400 {
        "Invalid request parameters or body"@
    } else if status_code == 401 {
        "Authentication required"@
    } else if status_code == 404 {
        "Resource not found"@
    } else if status_code == 501 {
        "This feature is not yet available"@
    } else if status_code == 503 {
        "Server is temporarily suspended for maintenance"@
    } else {
        "Unexpected error ("@ + decimal(status_code as nat) + ")"@
    }
}

/// The error body for a status code.
pub fn api_error(status_code: u16) -> (body: ApiError)
    ensures
        body@ == (ApiErrorView {
            error: error_name(status_code),
            message: error_message(status_code),
            details: None,
        }),
{
    let (error, message) = if status_code == 400 {
        ("bad_request".to_owned(), "Invalid request parameters or body".to_owned())
    } else if status_code == 401 {
        ("unauthorized".to_owned(), "Authentication required".to_owned())
    } else if status_code == 404 {
        ("not_found".to_owned(), "Resource not found".to_owned())
    } else if status_code == 501 {
        ("not_implemented".to_owned(), "This feature is not yet available".to_owned())
    } else if status_code == 503 {
        (
            "service_unavailable".to_owned(),
            "Server is temporarily suspended for maintenance".to_owned(),
        )
    } else {
        let mut message = "Unexpected error (".to_owned();
        message.append(decimal_string(status_code as u64).as_str());
        message.append(")");
        ("internal_error".to_owned(), message)
    };
    ApiError { error, message, details: None }
}

/// The error body for a signal: the one of its status code.
pub fn signal_body(signal: Signal) -> (body: ApiError)
    ensures
        body@ == (ApiErrorView {
            error: error_name(signal.code()),
            message: error_message(signal.code()),
            details: None,
        }),
{
    api_error(signal.status_code())
}

} // verus!

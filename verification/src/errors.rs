use vstd::prelude::*;
use vstd::string::*;
use crate::text::{spec_decimal, u64_to_string};

verus! {

/// One error taxonomy for every failure the client surfaces.
///
/// Transport-level failures (DNS, connect, timeout, TLS) arrive as
/// `HttpError`; HTTP-level and envelope-level logical failures as `ApiError`;
/// a malformed envelope body as `SerializationError`. `AuthError` is reserved
/// for explicit authentication failures distinct from a generic 401
/// `ApiError`. Failures carry the underlying message as plain text.
#[derive(Debug, Clone, PartialEq, Eq)]
pub enum XbrlApiError {
    HttpError(String),
    ApiError { status_code: u16, message: String },
    SerializationError(String),
    UrlError(String),
    AuthError(String),
    ValidationError(String),
    Unknown(String),
}

pub type XbrlResult<T> = Result<T, XbrlApiError>;

impl XbrlApiError {
    /// The one-line description of the error.
    pub open spec fn display_seq(&self) -> Seq<char> {
        match self {
            XbrlApiError::HttpError(m) => "HTTP error: "@ + m@,
            XbrlApiError::ApiError { status_code, message } => "API error: "@ + spec_decimal(
                *status_code as nat,
            ) + " - "@ + message@,
            XbrlApiError::SerializationError(m) => "Serialization error: "@ + m@,
            XbrlApiError::UrlError(m) => "URL error: "@ + m@,
            XbrlApiError::AuthError(m) => "Authentication error: "@ + m@,
            XbrlApiError::ValidationError(m) => "Validation error: "@ + m@,
            XbrlApiError::Unknown(m) => "Unknown error: "@ + m@,
        }
    }

    /// Render the error as one line of text.
    pub fn display_text(&self) -> (r: String)
        ensures
            r@ == self.display_seq(),
    {
        match self {
            XbrlApiError::HttpError(m) => {
                let mut s = String::from_str("HTTP error: ");
                s.append(m.as_str());
                s
            },
            XbrlApiError::ApiError { status_code, message } => {
                let mut s = String::from_str("API error: ");
                let code = u64_to_string(*status_code as u64);
                s.append(code.as_str());
                s.append(" - ");
                s.append(message.as_str());
                s
            },
            XbrlApiError::SerializationError(m) => {
                let mut s = String::from_str("Serialization error: ");
                s.append(m.as_str());
                s
            },
            XbrlApiError::UrlError(m) => {
                let mut s = String::from_str("URL error: ");
                s.append(m.as_str());
                s
            },
            XbrlApiError::AuthError(m) => {
                let mut s = String::from_str("Authentication error: ");
                s.append(m.as_str());
                s
            },
            XbrlApiError::ValidationError(m) => {
                let mut s = String::from_str("Validation error: ");
                s.append(m.as_str());
                s
            },
            XbrlApiError::Unknown(m) => {
                let mut s = String::from_str("Unknown error: ");
                s.append(m.as_str());
                s
            },
        }
    }
}

} // verus!

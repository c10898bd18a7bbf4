//! Error taxonomy of the pipeline. Every variant carries plain data: the
//! text of a transport failure, the offending HTTP status inside a message,
//! or the body and location of a response that failed to parse.

use vstd::prelude::*;

use crate::text::{numbered_listing, spec_numbered_listing};

verus! {

/// What a failed attempt to parse a response body reports: the parser's
/// message and the line it points at.
#[derive(Debug)]
pub struct ParseFailure {
    pub detail: String,
    pub line: usize,
}

/// One failure anywhere in the backup run.
#[derive(Debug)]
pub enum AppError {
    /// Connection-level failure (DNS, TLS, refused socket), as the transport
    /// reported it.
    Request(String),
    /// The remote side answered outside the success range, or violated the
    /// protocol (a missing or malformed header); the message says which.
    Response(String),
    /// A response body did not have the expected shape: the parser's own
    /// message, the line it points at, and the full body for diagnosis.
    Parse { detail: String, line: usize, body: String },
    /// Token acquisition or refresh failed.
    YupOauth2(String),
    /// Any other failure, described in the message.
    Other(String),
    /// No configuration existed, so an example one was written out.
    Created,
    /// A value could not be serialized.
    Format(String),
    /// A local file could not be read or written.
    Io(String),
}

/// What `e.message()` returns, for each variant.
pub open spec fn spec_message(e: AppError) -> Seq<char> {
    match e {
        AppError::Request(m) => "Request error: "@ + m@,
        AppError::Response(m) => "Response error: "@ + m@,
        AppError::Parse { detail, line, body } => spec_numbered_listing(body@, line as nat)
            + "JSON error: "@ + detail@,
        AppError::YupOauth2(m) => "OAuth2 error: "@ + m@,
        AppError::Other(m) => "Error: "@ + m@,
        AppError::Created => "The example config file created. Please edit it, and run program again."@,
        AppError::Format(m) => "Format error: "@ + m@,
        AppError::Io(m) => "IO error: "@ + m@,
    }
}

impl AppError {
    /// Describes the error to the operator: one line for most failures,
    /// and for a parse failure the numbered body with the offending line
    /// marked, followed by the parser's message.
    pub fn message(&self) -> (r: String)
        ensures
            r@ == spec_message(*self),
    {
        match self {
            AppError::Request(m) => {
                let mut s = String::new();
                s.append("Request error: ");
                s.append(m.as_str());
                s
            },
            AppError::Response(m) => {
                let mut s = String::new();
                s.append("Response error: ");
                s.append(m.as_str());
                s
            },
            AppError::Parse { detail, line, body } => {
                let mut s = numbered_listing(body.as_str(), *line);
                s.append("JSON error: ");
                s.append(detail.as_str());
                s
            },
            AppError::YupOauth2(m) => {
                let mut s = String::new();
                s.append("OAuth2 error: ");
                s.append(m.as_str());
                s
            },
            AppError::Other(m) => {
                let mut s = String::new();
                s.append("Error: ");
                s.append(m.as_str());
                s
            },
            AppError::Created => {
                let mut s = String::new();
                s.append(
                    "The example config file created. Please edit it, and run program again.",
                );
                s
            },
            AppError::Format(m) => {
                let mut s = String::new();
                s.append("Format error: ");
                s.append(m.as_str());
                s
            },
            AppError::Io(m) => {
                let mut s = String::new();
                s.append("IO error: ");
                s.append(m.as_str());
                s
            },
        }
    }
}

} // verus!

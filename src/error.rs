//! The closed set of outcomes that a failed gateway operation reports.

use vstd::prelude::*;

use crate::text::{decimal, push_decimal, push_str};

verus! {

/// Errors that can occur when interacting with the SciX API.
#[derive(Debug)]
pub enum SciXError {
    /// HTTP request failed before a status arrived (network, timeout, etc.).
    Http(String),
    /// SciX API returned an error status code.
    Api { status: u16, message: String },
    /// No API token provided, or the server refused it (HTTP 401).
    AuthRequired,
    /// Rate limited by SciX API (HTTP 429), with the advised wait in seconds.
    RateLimited { retry_after: Option<u64> },
    /// Failed to parse API response.
    Parse(String),
    /// Invalid query or tool arguments.
    InvalidQuery(String),
    /// Resource not found (HTTP 404).
    NotFound(String),
    /// Configuration error.
    Config(String),
    /// JSON serialization error.
    Json(String),
}

pub open spec fn retry_text(r: Option<u64>) -> Seq<char> {
    match r {
        Some(s) => "Some("@ + decimal(s as nat) + "s)"@,
        None => "None"@,
    }
}

/// The human-readable message of an error.
pub open spec fn error_message(e: SciXError) -> Seq<char> {
    match e {
        SciXError::Http(m) => "HTTP request failed: "@ + m@,
        SciXError::Api { status, message } => "API error (HTTP "@ + decimal(status as nat) + "): "@
            + message@,
        SciXError::AuthRequired => "Authentication required: set SCIX_API_TOKEN (or ADS_API_TOKEN) environment variable or pass token to SciXClient::new()"@,
        SciXError::RateLimited { retry_after } => "Rate limited, retry after "@ + retry_text(
            retry_after,
        ),
        SciXError::Parse(m) => "Failed to parse response: "@ + m@,
        SciXError::InvalidQuery(m) => "Invalid query: "@ + m@,
        SciXError::NotFound(m) => "Not found: "@ + m@,
        SciXError::Config(m) => "Configuration error: "@ + m@,
        SciXError::Json(m) => "JSON error: "@ + m@,
    }
}

impl SciXError {
    /// The human-readable message of the error.
    pub fn message(&self) -> (r: String)
        ensures
            r@ == error_message(*self),
    {
        match self {
            SciXError::Http(m) => {
                let mut s = String::from_str("HTTP request failed: ");
                push_str(&mut s, m.as_str());
                s
            },
            SciXError::Api { status, message } => {
                let mut s = String::from_str("API error (HTTP ");
                push_decimal(&mut s, *status as u64);
                push_str(&mut s, "): ");
                push_str(&mut s, message.as_str());
                s
            },
            SciXError::AuthRequired => String::from_str(
                "Authentication required: set SCIX_API_TOKEN (or ADS_API_TOKEN) environment variable or pass token to SciXClient::new()",
            ),
            SciXError::RateLimited { retry_after } => {
                let mut s = String::from_str("Rate limited, retry after ");
                match retry_after {
                    Some(secs) => {
                        push_str(&mut s, "Some(");
                        push_decimal(&mut s, *secs);
                        push_str(&mut s, "s)");
                    },
                    None => push_str(&mut s, "None"),
                }
                s
            },
            SciXError::Parse(m) => {
                let mut s = String::from_str("Failed to parse response: ");
                push_str(&mut s, m.as_str());
                s
            },
            SciXError::InvalidQuery(m) => {
                let mut s = String::from_str("Invalid query: ");
                push_str(&mut s, m.as_str());
                s
            },
            SciXError::NotFound(m) => {
                let mut s = String::from_str("Not found: ");
                push_str(&mut s, m.as_str());
                s
            },
            SciXError::Config(m) => {
                let mut s = String::from_str("Configuration error: ");
                push_str(&mut s, m.as_str());
                s
            },
            SciXError::Json(m) => {
                let mut s = String::from_str("JSON error: ");
                push_str(&mut s, m.as_str());
                s
            },
        }
    }
}

} // verus!

//! How fetching a subscription's content can fail. The network work itself
//! is the host application's; these are the outcomes it reports.

use vstd::prelude::*;

verus! {

use vstd::string::StringExecFns;
use crate::strutil::{spec_dec_digits, u64_to_string};

/// Why a subscription's content could not be fetched.
#[derive(Debug, Clone, PartialEq)]
pub enum FetchError {
    /// The request itself failed, with the transport's description.
    NetworkError(String),
    /// The server answered with a failure status.
    HttpError { status: u16, body: String },
    /// A file source could not be read.
    FileError(String),
    /// The request did not finish in time.
    Timeout,
}

pub open spec fn spec_fetch_error_message(e: FetchError) -> Seq<char> {
    match e {
        FetchError::NetworkError(m) => "network error: "@ + m@,
        FetchError::HttpError { status, body } => "HTTP "@ + spec_dec_digits(status as nat) + ": "@
            + body@,
        FetchError::FileError(m) => "file error: "@ + m@,
        FetchError::Timeout => "request timed out"@,
    }
}

impl FetchError {
    /// A human-readable description of the failure.
    pub fn message(&self) -> (r: String)
        ensures
            r@ == spec_fetch_error_message(*self),
    {
        match self {
            FetchError::NetworkError(m) => {
                let mut s = String::from_str("network error: ");
                s.append(m.as_str());
                s
            },
            FetchError::HttpError { status, body } => {
                let mut s = String::from_str("HTTP ");
                let digits = u64_to_string(*status as u64);
                s.append(digits.as_str());
                s.append(": ");
                s.append(body.as_str());
                s
            },
            FetchError::FileError(m) => {
                let mut s = String::from_str("file error: ");
                s.append(m.as_str());
                s
            },
            FetchError::Timeout => String::from_str("request timed out"),
        }
    }
}

} // verus!

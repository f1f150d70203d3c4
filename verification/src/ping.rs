//! How probing a node's latency can fail. The connection attempt itself is
//! the host application's; these are the outcomes it reports.

use vstd::prelude::*;

verus! {

use vstd::string::StringExecFns;

/// Why a node could not be reached.
#[derive(Debug, Clone, PartialEq)]
pub enum PingError {
    /// The connection attempt did not finish in time.
    Timeout,
    /// The connection failed, with the transport's description.
    ConnectionFailed(String),
}

pub open spec fn spec_ping_error_message(e: PingError) -> Seq<char> {
    match e {
        PingError::Timeout => "connection timed out"@,
        PingError::ConnectionFailed(m) => "connection failed: "@ + m@,
    }
}

impl PingError {
    /// A human-readable description of the failure.
    pub fn message(&self) -> (r: String)
        ensures
            r@ == spec_ping_error_message(*self),
    {
        match self {
            PingError::Timeout => String::from_str("connection timed out"),
            PingError::ConnectionFailed(m) => {
                let mut s = String::from_str("connection failed: ");
                s.append(m.as_str());
                s
            },
        }
    }
}

} // verus!

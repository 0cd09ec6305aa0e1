use vstd::prelude::*;
use vstd::string::*;
use crate::text::{decimal, decimal_string, join2};

verus! {

/// The error kinds that the daemon reports to its clients.
pub enum NeonError {
    /// A required parameter is missing or of the wrong kind; holds the message.
    BadRequest(String),
    /// The method name is not in the registry; holds the name.
    UnknownMethod(String),
    /// The remote answered with a status outside 2xx.
    Remote { status: u16, body: String },
    /// The per-request deadline expired.
    Timeout(String),
    /// Connecting, the TLS handshake or name resolution failed.
    Transport(String),
    /// A 2xx response whose body did not have the expected shape.
    Decode(String),
    /// An application-level miss, such as no compute endpoint for a branch.
    NotFound(String),
    /// Startup only: missing credentials or organization id.
    Config(String),
}


/// The message of each error, with the prefix that names its kind.
pub open spec fn error_message(e: NeonError) -> Seq<char> {
    match e {
        NeonError::BadRequest(m) => "Bad request: "@ + m@,
        NeonError::UnknownMethod(n) => "Unknown method: "@ + n@,
        NeonError::Remote { status, body } => "API request failed: "@ + decimal(status as int) + " - "@ + body@,
        NeonError::Timeout(m) => "Request timed out: "@ + m@,
        NeonError::Transport(m) => "Transport error: "@ + m@,
        NeonError::Decode(m) => "Failed to parse response: "@ + m@,
        NeonError::NotFound(m) => "Not found: "@ + m@,
        NeonError::Config(m) => "Configuration error: "@ + m@,
    }
}

impl NeonError {
    /// The message reported to the client.
    pub fn message(&self) -> (r: String)
        ensures
            r@ == error_message(*self),
    {
        match self {
            NeonError::BadRequest(m) => join2("Bad request: ", m.as_str()),
            NeonError::UnknownMethod(n) => join2("Unknown method: ", n.as_str()),
            NeonError::Remote { status, body } => {
                let mut r = String::from_str("API request failed: ");
                let digits = decimal_string(*status as i64);
                r.append(digits.as_str());
                r.append(" - ");
                r.append(body.as_str());
                r
            },
            NeonError::Timeout(m) => join2("Request timed out: ", m.as_str()),
            NeonError::Transport(m) => join2("Transport error: ", m.as_str()),
            NeonError::Decode(m) => join2("Failed to parse response: ", m.as_str()),
            NeonError::NotFound(m) => join2("Not found: ", m.as_str()),
            NeonError::Config(m) => join2("Configuration error: ", m.as_str()),
        }
    }
}

} // verus!

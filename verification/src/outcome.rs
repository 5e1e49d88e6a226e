//! What one request attempt ended in.

use vstd::prelude::*;
use vstd::string::StringExecFns;

verus! {

/// The step of a request attempt at which the transport gave up.
#[derive(Clone, Copy, Debug, PartialEq, Eq)]
pub enum Stage {
    Connect,
    WriteHeader,
    WriteBody,
    ReadHeader,
    ReadBody,
}

/// A user-supplied header that has a separator but cannot be sent. `index`
/// is its position among the user-supplied headers.
#[derive(Clone, Copy, Debug, PartialEq, Eq)]
pub enum HeaderError {
    InvalidName { index: usize },
    InvalidValue { index: usize },
}

/// A failure of the transport, with its own account of the cause.
#[derive(Clone, Debug, PartialEq, Eq)]
pub struct TransportError {
    pub stage: Stage,
    pub reason: String,
}

/// Why a request attempt failed.
#[derive(Clone, Debug, PartialEq, Eq)]
pub enum RequestError {
    Header(HeaderError),
    Transport(TransportError),
    /// The transport reported a step that the attempt was not waiting for.
    OutOfOrder,
}

/// Outcome of one request attempt.
#[derive(Clone, Debug, PartialEq, Eq)]
pub enum RequestOutcome {
    /// The response was read to its end, `latency` nanoseconds after the
    /// attempt began.
    Success { latency: u64 },
    /// The attempt was given up.
    Failure { cause: RequestError },
}

impl HeaderError {
    /// What is wrong with the header, in words.
    pub open spec fn spec_description(&self) -> Seq<char> {
        match self {
            HeaderError::InvalidName { .. } => "Invalid header name"@,
            HeaderError::InvalidValue { .. } => "Invalid header value"@,
        }
    }

    /// What is wrong with the header, in words.
    pub fn description(&self) -> (text: &'static str)
        ensures
            text@ == self.spec_description(),
    {
        match self {
            HeaderError::InvalidName { .. } => "Invalid header name",
            HeaderError::InvalidValue { .. } => "Invalid header value",
        }
    }
}

impl RequestError {
    /// The account of the failure that is shown to the user.
    pub open spec fn spec_message(&self) -> Seq<char> {
        match self {
            RequestError::Header(e) => e.spec_description(),
            RequestError::Transport(e) => e.reason@,
            RequestError::OutOfOrder => "Transport reported an unexpected step"@,
        }
    }

    /// The account of the failure that is shown to the user: for a header
    /// its description, for the transport the reason it gave.
    pub fn message(&self) -> (text: String)
        ensures
            text@ == self.spec_message(),
    {
        match self {
            RequestError::Header(e) => String::from_str(e.description()),
            RequestError::Transport(e) => e.reason.clone(),
            RequestError::OutOfOrder => String::from_str("Transport reported an unexpected step"),
        }
    }
}

} // verus!

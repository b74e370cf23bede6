use vstd::prelude::*;

verus! {

/// A failure below the remote API: the exchange itself did not succeed.
#[derive(Debug, Clone, Copy, PartialEq, Eq, Structural)]
pub enum TransportFailure {
    /// The connection could not be made or broke off.
    Network,
    /// The response could not be decoded under the wire format.
    Decode,
    /// No response came within the deadline.
    Timeout,
}

/// The result kinds of every client operation.
#[derive(Debug)]
pub enum ApiFailure {
    /// The remote service understood the request and refused it, with its
    /// status code and message.
    CallError(i32, String),
    /// The exchange with the remote service failed.
    Transport(TransportFailure),
    /// A record operation was asked for without a live session.
    NotAuthenticated,
}

impl ApiFailure {
    /// Whether the remote service itself reported this failure.
    pub fn is_call_error(&self) -> (r: bool)
        ensures
            r == (self is CallError),
    {
        match self {
            ApiFailure::CallError(_, _) => true,
            _ => false,
        }
    }
}

} // verus!

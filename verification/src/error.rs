//! The failures that the bridge reports on an invocation's result channel.

use vstd::prelude::*;

verus! {

/// Why an invocation was rejected.
#[derive(Clone, Copy, Debug, PartialEq, Eq, Structural)]
pub enum ErrorKind {
    /// The command names no endpoint.
    InvalidEndpoint,
    /// The payload is not a request of the shape that the endpoint takes.
    Decode,
    /// The engine's response could not be serialized.
    Encode,
    /// The transport did not take an event.
    Emit,
}

/// A rejection: its kind, and the message that the caller is given.
#[derive(Debug, PartialEq, Eq)]
pub struct BridgeError {
    pub kind: ErrorKind,
    pub message: String,
}

/// A rejection as a mathematical value.
pub struct ErrorView {
    pub kind: ErrorKind,
    pub message: Seq<char>,
}

impl View for BridgeError {
    type V = ErrorView;

    open spec fn view(&self) -> ErrorView {
        ErrorView { kind: self.kind, message: self.message@ }
    }
}

impl BridgeError {
    /// A rejection of the given kind whose message is `detail`, unchanged.
    pub fn new(kind: ErrorKind, detail: String) -> (e: BridgeError)
        ensures
            e == (BridgeError { kind, message: detail }),
    {
        BridgeError { kind, message: detail }
    }

    /// The payload could not be decoded; `detail` says why.
    pub fn decode(detail: String) -> (e: BridgeError)
        ensures
            e == (BridgeError { kind: ErrorKind::Decode, message: detail }),
    {
        BridgeError::new(ErrorKind::Decode, detail)
    }

    /// A response could not be serialized; `detail` says why.
    pub fn encode(detail: String) -> (e: BridgeError)
        ensures
            e == (BridgeError { kind: ErrorKind::Encode, message: detail }),
    {
        BridgeError::new(ErrorKind::Encode, detail)
    }

    /// The transport did not take an event; `detail` says why.
    pub fn emit(detail: String) -> (e: BridgeError)
        ensures
            e == (BridgeError { kind: ErrorKind::Emit, message: detail }),
    {
        BridgeError::new(ErrorKind::Emit, detail)
    }
}

} // verus!

//! The error taxonomy of the dispatch core.
//!
//! Protocol errors are recoverable and are reported back to the caller
//! as a response; task errors end one request and leave the connection
//! usable; transport errors belong to the connection itself;
//! configuration errors are fatal at startup only.

use vstd::prelude::*;

verus! {

/// A fault in what the client sent: a malformed envelope, a command
/// name with no registration, or an argument payload that does not
/// decode as the registered argument type.
#[derive(Debug)]
pub enum ProtocolError {
    MalformedEnvelope,
    UnknownCommand { name: String },
    DecodeFailed { name: String },
}

/// A handler-level failure: an external collaborator call failed while
/// a request ran. It is reported for that request only.
#[derive(Debug)]
pub struct TaskError {
    pub message: String,
}

/// A send or receive failure on the underlying connection.
#[derive(Debug)]
pub struct TransportError {
    pub message: String,
}

/// A startup fault: the dispatch table was built wrongly.
#[derive(Debug)]
pub enum ConfigurationError {
    DuplicateCommand { name: String },
}

/// What `dispatch` can report for one request: a protocol fault found
/// at the dispatch boundary, or the handler's own failure.
#[derive(Debug)]
pub enum DispatchError {
    Protocol(ProtocolError),
    Task(TaskError),
}

} // verus!

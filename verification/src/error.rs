//! The ways in which an operation of this library can fail.

use vstd::prelude::*;

verus! {

/// A client was configured with no transport, or with more than one.
#[derive(Clone, Copy, Debug, PartialEq, Eq, Structural)]
pub enum ConfigurationError {
    /// Neither an http port nor an https port was given.
    NoTransport,
    /// Both an http port and an https port were given.
    BothTransports,
}

/// A command was refused before anything was sent.
#[derive(Clone, Copy, Debug, PartialEq, Eq, Structural)]
pub enum ValidationError {
    /// The strength is below zero.
    NegativeStrength,
    /// A duration is an infinity or not a number.
    NonFiniteSeconds,
    /// A loop duration is below zero.
    NegativeLoopSeconds,
}

/// The transfer failed: no reply was received.
#[derive(Clone, Debug, PartialEq, Eq)]
pub struct SendError {
    /// What the transport said of the failure.
    pub reason: String,
}

/// The pairing service replied, but not with a QR code reply.
#[derive(Clone, Copy, Debug, PartialEq, Eq, Structural)]
pub enum DecodeError {
    /// The body is not a JSON document.
    NotJson,
    /// The document is not an object.
    NotAnObject,
    /// The member `result` is missing or is not a boolean.
    Result,
    /// The member `code` is missing or is not an integer of 32 bits.
    Code,
    /// The member `message` is missing or is not a string.
    Message,
    /// The member `data` is missing, is not an object, or holds a member
    /// that is not a string.
    Data,
}

/// The ways in which a request for a QR code can fail.
#[derive(Clone, Debug, PartialEq, Eq)]
pub enum PairingError {
    /// No reply was received.
    Send(SendError),
    /// A reply was received and could not be read.
    Decode(DecodeError),
}

} // verus!

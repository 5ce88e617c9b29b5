//! A client for the Lovense toy-control API.
//!
//! The library builds the requests that drive a toy through a device-local
//! bridge and the request that asks the cloud for a pairing QR code, and it
//! reads the replies. It does no network traffic itself: every operation is a
//! function from plain values to the request that has to be sent, or from the
//! outcome of a transfer to a typed result.

pub mod text;
pub mod action;
pub mod error;
pub mod strength;
pub mod seconds;
pub mod members;
pub mod payload;
pub mod request;
pub mod client;
pub mod json;
pub mod server;

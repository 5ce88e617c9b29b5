//! What the library hands to a transport, and what it takes back.

use vstd::prelude::*;
use crate::error::{SendError, ValidationError};
use crate::payload::{Members, Payload};

verus! {

/// What a request stands for.
pub struct RequestModel {
    pub url: Seq<char>,
    pub body: Members,
}

/// A request to send: a POST to `url` with `body` as its JSON body.
#[derive(Clone, Debug, PartialEq, Eq)]
pub struct Request {
    pub url: String,
    pub body: Payload,
}

impl View for Request {
    type V = RequestModel;

    open spec fn view(&self) -> RequestModel {
        RequestModel { url: self.url@, body: self.body@ }
    }
}

/// What the making of a request gave: what the request stands for, or why
/// none was made.
pub open spec fn request_outcome(r: Result<Request, ValidationError>) -> Result<
    RequestModel,
    ValidationError,
> {
    match r {
        Ok(request) => Ok(request@),
        Err(e) => Err(e),
    }
}

/// How the transfer of a request ended.
#[derive(Clone, Debug, PartialEq, Eq)]
pub enum Delivery {
    /// A reply was received, with this HTTP status and this body.
    Answered { status: u16, body: Vec<u8> },
    /// No reply was received: the name was not resolved, the connection was
    /// refused, the time ran out, or the secure channel failed.
    Failed { reason: String },
}

/// The receipt of a command: a reply was received, with this HTTP status.
#[derive(Clone, Copy, Debug, PartialEq, Eq, Structural)]
pub struct Ack {
    pub status: u16,
}

/// The receipt of a command whose transfer ended as `outcome` did: any reply
/// counts as a success, whatever its status, and a failed transfer is handed
/// on with its reason.
pub fn acknowledge(outcome: Delivery) -> (r: Result<Ack, SendError>)
    ensures
        match outcome {
            Delivery::Answered { status, body } => r == Ok::<Ack, SendError>(Ack { status }),
            Delivery::Failed { reason } => r == Err::<Ack, SendError>(SendError { reason }),
        },
{
    match outcome {
        Delivery::Answered { status, body } => Ok(Ack { status }),
        Delivery::Failed { reason } => Err(SendError { reason }),
    }
}

} // verus!

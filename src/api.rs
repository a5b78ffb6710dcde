//! The two messages of the echo call, each a single text payload.

use vstd::prelude::*;

verus! {

/// The request of the echo call: the text to send back.
pub struct EchoRequest {
    pub message: String,
}

/// The response of the echo call: the text that was received.
pub struct EchoResponse {
    pub message: String,
}

impl EchoRequest {
    /// A request that carries `message`.
    pub fn new(message: String) -> (r: EchoRequest)
        ensures
            r.message@ == message@,
    {
        EchoRequest { message }
    }
}

impl EchoResponse {
    /// A response that carries `message`.
    pub fn new(message: String) -> (r: EchoResponse)
        ensures
            r.message@ == message@,
    {
        EchoResponse { message }
    }
}

} // verus!

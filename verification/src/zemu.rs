//! The two messages of the RPC `exchange` method.

use vstd::prelude::*;

verus! {

/// Carries the raw bytes of one command to the bridge.
#[derive(Debug)]
pub struct ExchangeRequest {
    pub command: Vec<u8>,
}

/// Carries the raw bytes of one answer back from the bridge.
#[derive(Debug)]
pub struct ExchangeReply {
    pub reply: Vec<u8>,
}

impl ExchangeRequest {
    /// A request that carries `command`.
    pub fn new(command: Vec<u8>) -> (request: ExchangeRequest)
        ensures
            request.command@ == command@,
    {
        ExchangeRequest { command }
    }
}

impl ExchangeReply {
    /// A reply that carries `reply`.
    pub fn new(reply: Vec<u8>) -> (message: ExchangeReply)
        ensures
            message.reply@ == reply@,
    {
        ExchangeReply { reply }
    }
}

} // verus!

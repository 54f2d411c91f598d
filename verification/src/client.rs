//! The client adapter: what goes onto the RPC channel for a command, and
//! what the caller is handed when the call has ended.

use vstd::prelude::*;
use crate::apdu::{APDUAnswer, APDUCommand};
use crate::errors::LedgerZemuError;
use crate::zemu::{ExchangeReply, ExchangeRequest};

verus! {

/// An RPC call that did not complete: the transport failed, the server
/// reported a fault, or the deadline passed.
#[derive(Debug, Clone, Copy, PartialEq, Eq, Structural)]
pub struct RpcFailure;

/// The client side of the bridge. It owns the channel `C` to the bridge
/// server; the caller drives the channel and lets the adapter decide what is
/// sent and what an outcome means. It keeps nothing from one exchange to the
/// next.
pub struct TransportZemuGrpc<C> {
    client: C,
}

impl<C> TransportZemuGrpc<C> {
    /// The channel that this adapter owns.
    pub closed spec fn channel(&self) -> C {
        self.client
    }

    /// Takes over a channel that the caller tried to open. Without a
    /// channel there is no adapter: the attempt ends in `ConnectError`.
    pub fn new(channel: Option<C>) -> (made: Result<TransportZemuGrpc<C>, LedgerZemuError>)
        ensures
            channel is None ==> made is Err && made->Err_0 == LedgerZemuError::ConnectError,
            channel matches Some(c) ==> made is Ok && made->Ok_0.channel() == c,
    {
        match channel {
            Some(client) => Ok(TransportZemuGrpc { client }),
            None => Err(LedgerZemuError::ConnectError),
        }
    }

    /// The channel, for the caller to make the call on.
    pub fn client(&self) -> (client: &C)
        ensures
            *client == self.channel(),
    {
        &self.client
    }

    /// The message to send for `command`: its wire form, unchanged. The
    /// command is not inspected.
    pub fn request(&self, command: &APDUCommand) -> (request: ExchangeRequest)
        ensures
            request.command@ == command.framed(),
    {
        ExchangeRequest::new(command.serialize())
    }

    /// What the caller is handed once the call has ended.
    ///
    /// A reply becomes an answer that holds exactly the reply's bytes,
    /// whatever they are and however few; nothing in them is read as a
    /// failure. Only a call that did not complete is an error, and it is
    /// always `ResponseError`.
    pub fn answer(&self, outcome: Result<ExchangeReply, RpcFailure>) -> (answer: Result<
        APDUAnswer,
        LedgerZemuError,
    >)
        ensures
            outcome matches Ok(message) ==> answer is Ok && answer->Ok_0@ == message.reply@,
            outcome is Err ==> answer is Err && answer->Err_0 == LedgerZemuError::ResponseError,
    {
        match outcome {
            Ok(message) => Ok(APDUAnswer::from_answer(message.reply)),
            Err(_) => Err(LedgerZemuError::ResponseError),
        }
    }
}

} // verus!

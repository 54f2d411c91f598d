//! What a caller of the client adapter can be told went wrong.

use vstd::prelude::*;

verus! {

/// The failures of the client side. Whatever went wrong behind the RPC
/// channel reaches the caller as `ResponseError`; the bytes of a reply are
/// never read as an error.
#[derive(Debug, Clone, Copy, PartialEq, Eq, Structural)]
pub enum LedgerZemuError {
    /// The channel to the bridge could not be set up.
    ConnectError,
    /// An exchange over the channel did not complete.
    ResponseError,
}

} // verus!

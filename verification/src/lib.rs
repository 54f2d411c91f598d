//! The protocol core of a bridge between APDU clients and the Zemu
//! emulator: hex codec, message shapes, and the decisions taken on each hop.

pub mod apdu;
pub mod client;
pub mod codec;
pub mod decimal;
pub mod errors;
pub mod server;
pub mod zemu;

pub use errors::LedgerZemuError;

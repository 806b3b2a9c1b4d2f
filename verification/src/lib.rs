//! Confidential perpetual-futures logic: the arithmetic that the encrypted
//! computations run on plaintext values, and the bookkeeping that the on-chain
//! program performs around queued computations and their callbacks.
//!
//! - `circuits`: opening a position from an order, the liquidation check, and the
//!   profit and loss of a close; `circuit_laws` states what holds of them for every
//!   input.
//! - `program`: the requests the program accepts, the argument lists it queues, and
//!   how callbacks update a position account; `program_laws` states the lifecycle.
//! - `bytes`: the little-endian nonce encoding and key comparison.
//! - `arcium`: the trusted calls into the Arcium toolkit.

pub mod arcium;
pub mod bytes;
pub mod circuit_laws;
pub mod circuits;
pub mod program;
pub mod program_laws;

//! Verified core of a BOLT12 offers negotiation component for a Lightning
//! node: the payment-negotiation state machine (payment ledger), the pending
//! outbound message queue, the inbound message-handling decisions, and the
//! believed-connectivity cache for peers.
//!
//! Cryptographic verification, wire-level message construction, and all
//! network I/O are collaborators that surround this core; their outcomes are
//! handed to the functions here as plain values, and every decision taken on
//! those outcomes is verified.

use vstd::prelude::*;

pub mod errors;
pub mod handler;
pub mod ids;
pub mod invoice;
pub mod keyed_map;
pub mod laws;
pub mod ledger;
pub mod peer_state;
pub mod protocol;
pub mod queue;

verus! {

/// Number of seconds to wait for an invoice when no override is given.
pub const DEFAULT_RESPONSE_INVOICE_TIMEOUT: u32 = 15;

} // verus!

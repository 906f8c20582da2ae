//! Typed failures of the negotiation core. Collaborator-reported causes
//! (build, dispatch, settlement, channel lookup) are carried as their own
//! variants and never retried here; cryptographic verification failures are
//! resolved per message and never surface as one of these.

use vstd::prelude::*;

use crate::ids::PaymentId;

verus! {

/// Failure of an offer negotiation or payment attempt.
#[derive(Clone, Copy, Debug, PartialEq, Eq)]
pub enum OfferError {
    /// A negotiation attempt for this identifier is already outstanding.
    AlreadyProcessing(PaymentId),
    /// No valid invoice arrived within the bound, in seconds.
    InvoiceTimeout(u32),
    /// A channel-referenced introduction node could not be resolved.
    ChannelInfoLookupFailure,
    /// The payment engine rejected the dispatch.
    DispatchFailure,
    /// The payment engine reported a failed settlement.
    SettlementFailure,
}

impl OfferError {
    pub fn description(&self) -> (r: &'static str)
        ensures
            *self matches OfferError::AlreadyProcessing(_) ==> r@ == "payment is already being processed"@,
            *self matches OfferError::InvoiceTimeout(_) ==> r@ == "did not receive an invoice in time"@,
            *self == OfferError::ChannelInfoLookupFailure ==> r@ == "could not resolve the channel's introduction node"@,
            *self == OfferError::DispatchFailure ==> r@ == "payment dispatch failed"@,
            *self == OfferError::SettlementFailure ==> r@ == "payment failed to settle"@,
    {
        match self {
            OfferError::AlreadyProcessing(_) => "payment is already being processed",
            OfferError::InvoiceTimeout(_) => "did not receive an invoice in time",
            OfferError::ChannelInfoLookupFailure => "could not resolve the channel's introduction node",
            OfferError::DispatchFailure => "payment dispatch failed",
            OfferError::SettlementFailure => "payment failed to settle",
        }
    }
}

/// Failure of a connectivity check. A confirmed negative is distinct from an
/// inconclusive query, so callers can tell "you are not connected" from "we
/// could not tell".
#[derive(Clone, Copy, Debug, PartialEq, Eq)]
pub enum PeerStateError {
    /// The peer is not connected.
    PeerNotConnected,
    /// The live-peer query failed; connectivity is undetermined.
    PeerConnectError,
}

impl PeerStateError {
    pub fn description(&self) -> (r: &'static str)
        ensures
            *self == PeerStateError::PeerNotConnected ==> r@ == "Peer not connected"@,
            *self == PeerStateError::PeerConnectError ==> r@
                == "We are not able to determine if the peer is connected"@,
    {
        match self {
            PeerStateError::PeerNotConnected => "Peer not connected",
            PeerStateError::PeerConnectError => "We are not able to determine if the peer is connected",
        }
    }
}

} // verus!

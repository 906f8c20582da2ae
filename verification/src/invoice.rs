//! The facts the core reads out of a received invoice artifact — its
//! payment hash and the introduction-node descriptor and fee terms of each
//! payment path — and the parameters it assembles for the payment engine.
//! The artifact itself (bytes, signatures) stays with the collaborators.

use vstd::prelude::*;

use crate::errors::OfferError;
use crate::ids::{NodeId, PaymentId};

verus! {

/// Which end of a channel the referenced introduction node is.
#[derive(Clone, Copy, Debug, PartialEq, Eq, Structural)]
pub enum ChannelDirection {
    NodeOne,
    NodeTwo,
}

/// The first hop of a blinded payment path: either a node identity, or a
/// channel reference that must be resolved against the host node's channel
/// table.
#[derive(Clone, Copy, Debug, PartialEq, Eq)]
pub enum IntroductionNodeRef {
    /// The introduction node, identified directly.
    Direct { node_id: NodeId },
    /// A short-channel-id plus the direction selecting which of the
    /// channel's two endpoints is the introduction node.
    Channel { scid: u64, direction: ChannelDirection },
}

/// One payment path of an invoice, as far as the core reads it.
#[derive(Clone, Copy, Debug, PartialEq, Eq)]
pub struct PaymentPathInfo {
    pub intro: IntroductionNodeRef,
    pub cltv_expiry_delta: u16,
    pub fee_base_msat: u32,
    pub fee_ppm: u32,
}

/// The extracted facts of a received invoice.
#[derive(Debug, PartialEq, Eq)]
pub struct InvoiceFacts {
    pub payment_hash: [u8; 32],
    pub paths: Vec<PaymentPathInfo>,
}

/// Parameters handed to the payment-dispatch collaborator.
#[derive(Clone, Copy, Debug, PartialEq, Eq)]
pub struct SendPaymentParams {
    /// The selected payment path.
    pub path: PaymentPathInfo,
    pub cltv_expiry_delta: u16,
    pub fee_base_msat: u32,
    pub fee_ppm: u32,
    pub payment_hash: [u8; 32],
    pub msats: u64,
    pub payment_id: PaymentId,
}

/// Assembles dispatch parameters from an invoice's first payment path —
/// paths are tried in the order presented, and the core dispatches along
/// one selected path.
pub fn prepare_send_payment(invoice: &InvoiceFacts, amount_msats: u64, payment_id: &PaymentId) -> (r:
    SendPaymentParams)
    requires
        invoice.paths@.len() > 0,
    ensures
        r.path == invoice.paths@[0],
        r.cltv_expiry_delta == invoice.paths@[0].cltv_expiry_delta,
        r.fee_base_msat == invoice.paths@[0].fee_base_msat,
        r.fee_ppm == invoice.paths@[0].fee_ppm,
        r.payment_hash@ == invoice.payment_hash@,
        r.msats == amount_msats,
        r.payment_id@ == payment_id@,
{
    let path = invoice.paths[0];
    SendPaymentParams {
        path,
        cltv_expiry_delta: path.cltv_expiry_delta,
        fee_base_msat: path.fee_base_msat,
        fee_ppm: path.fee_ppm,
        payment_hash: invoice.payment_hash,
        msats: amount_msats,
        payment_id: *payment_id,
    }
}

/// The two endpoints of a channel, as the host node reports them.
#[derive(Clone, Copy, Debug, PartialEq, Eq)]
pub struct ChannelEndpoints {
    pub node1: NodeId,
    pub node2: NodeId,
}

/// Selects the channel endpoint the direction names.
pub fn counterpart_node(endpoints: &ChannelEndpoints, direction: ChannelDirection) -> (r: NodeId)
    ensures
        direction == ChannelDirection::NodeOne ==> r == endpoints.node1,
        direction == ChannelDirection::NodeTwo ==> r == endpoints.node2,
{
    match direction {
        ChannelDirection::NodeOne => endpoints.node1,
        ChannelDirection::NodeTwo => endpoints.node2,
    }
}

/// Resolves a path's introduction node once the host node has answered any
/// needed channel lookup: a direct identity stands as it is; a channel
/// reference resolves to the endpoint its direction names, and a failed
/// lookup is a hard error for this path — there is no fallback resolution.
pub fn resolve_introduction_node(intro: &IntroductionNodeRef, lookup: Option<&ChannelEndpoints>) -> (r:
    Result<NodeId, OfferError>)
    ensures
        *intro matches IntroductionNodeRef::Direct { node_id } ==> r == Ok::<
            NodeId,
            OfferError,
        >(node_id),
        *intro matches IntroductionNodeRef::Channel { direction, .. } ==> (match lookup {
            Some(endpoints) => r == Ok::<NodeId, OfferError>(
                if direction == ChannelDirection::NodeOne {
                    endpoints.node1
                } else {
                    endpoints.node2
                },
            ),
            None => r == Err::<NodeId, OfferError>(OfferError::ChannelInfoLookupFailure),
        }),
{
    match intro {
        IntroductionNodeRef::Direct { node_id } => Ok(*node_id),
        IntroductionNodeRef::Channel { direction, .. } => match lookup {
            Some(endpoints) => Ok(counterpart_node(endpoints, *direction)),
            None => Err(OfferError::ChannelInfoLookupFailure),
        },
    }
}

} // verus!

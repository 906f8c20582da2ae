//! Classification of inbound protocol messages and the reply decisions the
//! handler takes on them. The transport hands the core each message's
//! context and whether a responder is available; the cryptographic checks
//! themselves are a collaborator's, and their outcomes arrive here as plain
//! values.

use vstd::prelude::*;

use crate::ids::{Nonce, PaymentId};

verus! {

/// The context under which an inbound onion message reached us, as far as
/// the core reads it.
#[derive(Clone, Copy, Debug, PartialEq, Eq)]
pub enum MessageContext {
    /// Attached to an invoice request someone sends us: carries the nonce
    /// that lets us verify the request is bound to one of our offers.
    InvoiceRequest { nonce: Nonce },
    /// Attached to an invoice answering a request of ours: carries the
    /// identifier of our attempt and the nonce it was bound with.
    OutboundPayment { payment_id: PaymentId, nonce: Nonce },
    /// Attached to a payment we expect to receive.
    InboundPayment { payment_hash: [u8; 32] },
}

/// Gate for answering an inbound invoice request: a request may only be
/// answered when a responder is present and the context carries a
/// request-kind nonce; anything else is dropped silently, since a malformed
/// or context-free request cannot be safely answered.
pub fn invoice_request_nonce(has_responder: bool, context: &Option<MessageContext>) -> (r: Option<
    Nonce,
>)
    ensures
        r is Some <==> (has_responder && *context matches Some(
            MessageContext::InvoiceRequest { .. },
        )),
        has_responder ==> (*context matches Some(MessageContext::InvoiceRequest { nonce }) ==> r
            == Some(nonce)),
{
    if !has_responder {
        return None;
    }
    match context {
        Some(MessageContext::InvoiceRequest { nonce }) => Some(*nonce),
        _ => None,
    }
}

/// Gate for treating an inbound invoice as the answer to an attempt of
/// ours: only a context of the outbound-payment kind carries the attempt's
/// identifier and nonce; any other context means an invoice we never
/// solicited, which is dropped.
pub fn outbound_payment_fields(context: &Option<MessageContext>) -> (r: Option<(PaymentId, Nonce)>)
    ensures
        r is Some <==> *context matches Some(MessageContext::OutboundPayment { .. }),
        *context matches Some(MessageContext::OutboundPayment { payment_id, nonce }) ==> r == Some(
            (payment_id, nonce),
        ),
{
    match context {
        Some(MessageContext::OutboundPayment { payment_id, nonce }) => Some((*payment_id, *nonce)),
        _ => None,
    }
}

/// How far handling of a well-formed inbound invoice request got before a
/// reply had to be chosen.
#[derive(Clone, Copy, Debug, PartialEq, Eq, Structural)]
pub enum InvoiceRequestOutcome {
    /// The request's binding to our offer did not verify.
    VerificationFailed,
    /// No collaborator is configured to construct an invoice.
    CreatorUnavailable,
    /// The collaborator could not produce payment paths and a payment hash.
    InfoFetchFailed,
    /// Building or signing the invoice from the fetched info failed.
    BuildFailed,
    /// A signed invoice is in hand.
    Built,
}

/// The reply the handler sends for an inbound invoice request.
#[derive(Clone, Copy, Debug, PartialEq, Eq, Structural)]
pub enum ReplyDecision {
    /// No reply at all.
    DropSilently,
    /// Reply with the signed invoice, under a fresh nonce-bound context.
    RespondWithInvoice,
    /// Reply with a protocol-level invoice-error message.
    RespondWithInvoiceError,
}

/// The reply owed for each invoice-request outcome: a built invoice is
/// sent; a build or signing failure is answered with an invoice error; a
/// verification failure or an unavailable collaborator is dropped silently.
pub fn invoice_request_reply(outcome: InvoiceRequestOutcome) -> (r: ReplyDecision)
    ensures
        r == ReplyDecision::RespondWithInvoice <==> outcome == InvoiceRequestOutcome::Built,
        r == ReplyDecision::RespondWithInvoiceError <==> outcome
            == InvoiceRequestOutcome::BuildFailed,
        r == ReplyDecision::DropSilently <==> (outcome == InvoiceRequestOutcome::VerificationFailed
            || outcome == InvoiceRequestOutcome::CreatorUnavailable || outcome
            == InvoiceRequestOutcome::InfoFetchFailed),
{
    match outcome {
        InvoiceRequestOutcome::Built => ReplyDecision::RespondWithInvoice,
        InvoiceRequestOutcome::BuildFailed => ReplyDecision::RespondWithInvoiceError,
        InvoiceRequestOutcome::VerificationFailed => ReplyDecision::DropSilently,
        InvoiceRequestOutcome::CreatorUnavailable => ReplyDecision::DropSilently,
        InvoiceRequestOutcome::InfoFetchFailed => ReplyDecision::DropSilently,
    }
}

/// What the handler did with an inbound invoice answering an attempt of
/// ours, and what the transport should do next.
#[derive(Clone, Copy, Debug, PartialEq, Eq, Structural)]
pub enum InboundInvoiceAction {
    /// First valid invoice for an outstanding attempt: stored, and the
    /// waiting orchestrator is thereby unblocked. No reply.
    Accepted,
    /// An invoice was already stored for this identifier: logged as a
    /// duplicate and dropped. No reply.
    DuplicateIgnored,
    /// The identifier is unknown (completed, timed out, or never ours):
    /// logged and dropped; the sender did nothing wrong, so no error is
    /// sent back.
    UnknownIgnored,
    /// Verification failed and a responder is available: reply with an
    /// invoice-error message.
    RejectedWithReply,
    /// Verification failed and there is no responder: drop.
    RejectedSilently,
}

} // verus!

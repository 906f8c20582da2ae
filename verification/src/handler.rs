//! The offer handler: the negotiation state machine shared by the
//! orchestrator (outbound flow) and the message handler (inbound flow).
//! Both synchronize exclusively through the payment ledger and the pending
//! outbound queue held here.
//!
//! The surrounding tasks perform the collaborator calls — request building,
//! sending, cryptographic verification, dispatch, settlement tracking — and
//! hand each outcome to one of these functions, which takes the verified
//! decision: what to record, what to return, and what must be cleaned up.
//! Every failure after registration removes the registered record before
//! the error is returned; no path leaks a ledger entry.
//!
//! Generic over `M`, the transport's (message, send-instructions) pair, and
//! `I`, the received invoice artifact; the core carries both without
//! reading them.

use vstd::prelude::*;

use crate::errors::OfferError;
use crate::ids::PaymentId;
use crate::ledger::{InvoiceAcceptance, PaymentInfo, PaymentLedger, PaymentState};
use crate::protocol::InboundInvoiceAction;
use crate::queue::PendingOutboundQueue;
use crate::DEFAULT_RESPONSE_INVOICE_TIMEOUT;

verus! {

/// Negotiation state machine and its two shared tables.
pub struct OfferHandler<M, I> {
    active_payments: PaymentLedger<I>,
    pending_messages: PendingOutboundQueue<M>,
    /// Seconds to wait for the offer creator's invoice when a call gives no
    /// override.
    response_invoice_timeout: u32,
}

impl<M, I> OfferHandler<M, I> {
    /// The handler-wide default wait bound, in seconds.
    pub closed spec fn default_timeout(&self) -> u32 {
        self.response_invoice_timeout
    }

    /// The handler-wide default wait bound, in seconds.
    pub fn response_invoice_timeout(&self) -> (r: u32)
        ensures
            r == self.default_timeout(),
    {
        self.response_invoice_timeout
    }

    /// The ledger's map: payment identifier to in-flight record.
    pub closed spec fn ledger(&self) -> Map<Seq<u8>, PaymentInfo<I>> {
        self.active_payments@
    }

    /// The messages queued for the transport, oldest first.
    pub closed spec fn pending(&self) -> Seq<M> {
        self.pending_messages@
    }

    pub closed spec fn wf(&self) -> bool {
        self.active_payments.wf()
    }

    pub fn new(response_invoice_timeout: Option<u32>) -> (r: Self)
        ensures
            r.wf(),
            r.ledger() =~= Map::<Seq<u8>, PaymentInfo<I>>::empty(),
            r.pending() =~= Seq::<M>::empty(),
            r.default_timeout() == match response_invoice_timeout {
                Some(t) => t,
                None => DEFAULT_RESPONSE_INVOICE_TIMEOUT,
            },
    {
        let timeout = match response_invoice_timeout {
            Some(t) => t,
            None => DEFAULT_RESPONSE_INVOICE_TIMEOUT,
        };
        OfferHandler {
            active_payments: PaymentLedger::new(),
            pending_messages: PendingOutboundQueue::new(),
            response_invoice_timeout: timeout,
        }
    }

    /// The wait bound a call runs under: its own override, else the
    /// handler-wide default.
    pub fn effective_timeout(&self, override_secs: Option<u32>) -> (r: u32)
        ensures
            r == match override_secs {
                Some(t) => t,
                None => self.default_timeout(),
            },
    {
        match override_secs {
            Some(t) => t,
            None => self.response_invoice_timeout,
        }
    }

    /// Atomically registers a fresh negotiation attempt. Exactly one of two
    /// registrations of the same identifier succeeds: if a record is
    /// already present, nothing is touched and the caller gets
    /// `AlreadyProcessing`.
    pub fn register_payment(&mut self, id: &PaymentId) -> (r: Result<(), OfferError>)
        requires
            old(self).wf(),
        ensures
            final(self).wf(),
            final(self).pending() == old(self).pending(),
            final(self).default_timeout() == old(self).default_timeout(),
            r is Ok <==> !old(self).ledger().contains_key(id@),
            old(self).ledger().contains_key(id@) ==> r == Err::<(), OfferError>(
                OfferError::AlreadyProcessing(*id),
            ) && final(self).ledger() == old(self).ledger(),
            !old(self).ledger().contains_key(id@) ==> final(self).ledger() =~= old(self).ledger().insert(id@, crate::ledger::fresh_record::<I>()),
    {
        if self.active_payments.register(id) {
            Ok(())
        } else {
            Err(OfferError::AlreadyProcessing(*id))
        }
    }

    /// Removes the identifier's record; every terminal outcome — success,
    /// timeout, send failure, dispatch failure, settlement, cancellation —
    /// comes through here or through a function that calls it.
    pub fn remove_active_payment(&mut self, id: &PaymentId)
        requires
            old(self).wf(),
        ensures
            final(self).wf(),
            final(self).pending() == old(self).pending(),
            final(self).default_timeout() == old(self).default_timeout(),
            final(self).ledger() =~= old(self).ledger().remove(id@),
            !final(self).ledger().contains_key(id@),
    {
        self.active_payments.remove(id);
    }

    /// Queues an outbound message for the transport.
    pub fn enqueue_message(&mut self, message: M)
        requires
            old(self).wf(),
        ensures
            final(self).wf(),
            final(self).ledger() == old(self).ledger(),
            final(self).default_timeout() == old(self).default_timeout(),
            final(self).pending() =~= old(self).pending().push(message),
    {
        self.pending_messages.enqueue(message);
    }

    /// Atomically drains the whole pending queue for the transport: every
    /// queued message is released exactly once, in order, and the queue is
    /// left empty.
    pub fn release_pending_messages(&mut self) -> (r: Vec<M>)
        requires
            old(self).wf(),
        ensures
            final(self).wf(),
            final(self).ledger() == old(self).ledger(),
            final(self).default_timeout() == old(self).default_timeout(),
            r@ == old(self).pending(),
            final(self).pending() =~= Seq::<M>::empty(),
    {
        self.pending_messages.release_all()
    }

    /// The invoice stored for an outstanding attempt, once a verified
    /// matching invoice has arrived. One poll of the bounded wait.
    pub fn stored_invoice(&self, id: &PaymentId) -> (r: Option<&I>)
        requires
            self.wf(),
        ensures
            match r {
                Some(v) => self.ledger().contains_key(id@) && self.ledger()[id@].invoice == Some(
                    *v,
                ),
                None => !self.ledger().contains_key(id@) || self.ledger()[id@].invoice is None,
            },
    {
        self.active_payments.stored_invoice(id)
    }

    /// Settles the bounded invoice wait. If an invoice arrived, the record
    /// is marked received and the call succeeds; if the bound elapsed
    /// first, the record is removed — a late invoice will then be treated
    /// as unknown and dropped, never resurrected — and the caller gets a
    /// timeout error carrying the elapsed bound.
    pub fn finish_invoice_wait(&mut self, id: &PaymentId, received: bool, timeout_secs: u32) -> (r:
        Result<(), OfferError>)
        requires
            old(self).wf(),
        ensures
            final(self).wf(),
            final(self).pending() == old(self).pending(),
            final(self).default_timeout() == old(self).default_timeout(),
            received ==> r == Ok::<(), OfferError>(()),
            received && old(self).ledger().contains_key(id@) ==> final(self).ledger() =~= old(self).ledger().insert(
                id@,
                PaymentInfo {
                    state: PaymentState::InvoiceReceived,
                    invoice: old(self).ledger()[id@].invoice,
                },
            ),
            received && !old(self).ledger().contains_key(id@) ==> final(self).ledger() == old(self).ledger(),
            !received ==> r == Err::<(), OfferError>(OfferError::InvoiceTimeout(timeout_secs))
                && final(self).ledger() =~= old(self).ledger().remove(id@) && !final(self).ledger().contains_key(id@),
    {
        if received {
            self.active_payments.mark_invoice_received(id);
            Ok(())
        } else {
            self.active_payments.remove(id);
            Err(OfferError::InvoiceTimeout(timeout_secs))
        }
    }

    /// Records the payment engine's dispatch outcome: on success the record
    /// advances to dispatched; on failure the record is removed before the
    /// error is surfaced.
    pub fn record_dispatch_outcome(&mut self, id: &PaymentId, dispatched: bool) -> (r: Result<
        (),
        OfferError,
    >)
        requires
            old(self).wf(),
        ensures
            final(self).wf(),
            final(self).pending() == old(self).pending(),
            final(self).default_timeout() == old(self).default_timeout(),
            dispatched ==> r == Ok::<(), OfferError>(()),
            dispatched && old(self).ledger().contains_key(id@) ==> final(self).ledger() =~= old(self).ledger().insert(
                id@,
                PaymentInfo {
                    state: PaymentState::PaymentDispatched,
                    invoice: old(self).ledger()[id@].invoice,
                },
            ),
            dispatched && !old(self).ledger().contains_key(id@) ==> final(self).ledger() == old(self).ledger(),
            !dispatched ==> r == Err::<(), OfferError>(OfferError::DispatchFailure) && final(self).ledger() =~= old(self).ledger().remove(id@) && !final(self).ledger().contains_key(
                id@,
            ),
    {
        if dispatched {
            self.active_payments.mark_dispatched(id);
            Ok(())
        } else {
            self.active_payments.remove(id);
            Err(OfferError::DispatchFailure)
        }
    }

    /// Records the tracked settlement outcome. The record is removed
    /// whatever the outcome was — settled or failed — before the result is
    /// returned.
    pub fn finish_payment(&mut self, id: &PaymentId, settled: bool) -> (r: Result<(), OfferError>)
        requires
            old(self).wf(),
        ensures
            final(self).wf(),
            final(self).pending() == old(self).pending(),
            final(self).default_timeout() == old(self).default_timeout(),
            final(self).ledger() =~= old(self).ledger().remove(id@),
            !final(self).ledger().contains_key(id@),
            settled ==> r == Ok::<(), OfferError>(()),
            !settled ==> r == Err::<(), OfferError>(OfferError::SettlementFailure),
    {
        self.active_payments.remove(id);
        if settled {
            Ok(())
        } else {
            Err(OfferError::SettlementFailure)
        }
    }

    /// Takes the handler's decision on an inbound invoice that answers an
    /// attempt of ours, after the collaborator has checked its signature
    /// binding. A failed verification never touches the ledger and is
    /// answered with an invoice error exactly when a responder is
    /// available. A verified invoice is stored only if the attempt is
    /// outstanding and has no invoice yet — the first valid invoice wins,
    /// a duplicate or unknown identifier changes nothing and sends nothing.
    pub fn record_invoice_outcome(
        &mut self,
        id: &PaymentId,
        verified: bool,
        invoice: I,
        has_responder: bool,
    ) -> (r: InboundInvoiceAction)
        requires
            old(self).wf(),
        ensures
            final(self).wf(),
            final(self).pending() == old(self).pending(),
            final(self).default_timeout() == old(self).default_timeout(),
            !verified ==> final(self).ledger() == old(self).ledger() && r == (if has_responder {
                InboundInvoiceAction::RejectedWithReply
            } else {
                InboundInvoiceAction::RejectedSilently
            }),
            verified && !old(self).ledger().contains_key(id@) ==> r
                == InboundInvoiceAction::UnknownIgnored && final(self).ledger() == old(self).ledger(),
            verified && old(self).ledger().contains_key(id@) && old(self).ledger()[id@].invoice is Some ==> r == InboundInvoiceAction::DuplicateIgnored
                && final(self).ledger() == old(self).ledger(),
            verified && old(self).ledger().contains_key(id@) && old(self).ledger()[id@].invoice is None ==> r == InboundInvoiceAction::Accepted && final(self).ledger() =~= old(self).ledger().insert(
                id@,
                PaymentInfo { state: PaymentState::InvoiceReceived, invoice: Some(invoice) },
            ),
    {
        if !verified {
            if has_responder {
                InboundInvoiceAction::RejectedWithReply
            } else {
                InboundInvoiceAction::RejectedSilently
            }
        } else {
            match self.active_payments.store_invoice(id, invoice) {
                InvoiceAcceptance::Accepted => InboundInvoiceAction::Accepted,
                InvoiceAcceptance::Duplicate => InboundInvoiceAction::DuplicateIgnored,
                InvoiceAcceptance::Unknown => InboundInvoiceAction::UnknownIgnored,
            }
        }
    }

    /// Whether an attempt for the identifier is outstanding.
    pub fn has_active_payment(&self, id: &PaymentId) -> (r: bool)
        requires
            self.wf(),
        ensures
            r == self.ledger().contains_key(id@),
    {
        self.active_payments.contains(id)
    }

    /// The outstanding attempt's state, if any.
    pub fn payment_state(&self, id: &PaymentId) -> (r: Option<PaymentState>)
        requires
            self.wf(),
        ensures
            self.ledger().contains_key(id@) ==> r == Some(self.ledger()[id@].state),
            !self.ledger().contains_key(id@) ==> r is None,
    {
        self.active_payments.state_of(id)
    }

    /// Number of outstanding attempts.
    pub fn active_payment_count(&self) -> (r: usize)
        requires
            self.wf(),
        ensures
            r == self.ledger().dom().len(),
            self.ledger().dom().finite(),
    {
        self.active_payments.len()
    }

    /// Whether no attempt is outstanding.
    pub fn no_active_payments(&self) -> (r: bool)
        requires
            self.wf(),
        ensures
            r == (self.ledger().dom() =~= Set::<Seq<u8>>::empty()),
    {
        self.active_payments.is_empty()
    }

    /// Number of messages awaiting the transport.
    pub fn pending_message_count(&self) -> (r: usize)
        ensures
            r == self.pending().len(),
    {
        self.pending_messages.len()
    }
}

impl<M, I> Default for OfferHandler<M, I> {
    /// A fresh handler with the default wait bound.
    fn default() -> (r: Self)
        ensures
            r.wf(),
            r.ledger() =~= Map::<Seq<u8>, PaymentInfo<I>>::empty(),
            r.pending() =~= Seq::<M>::empty(),
            r.default_timeout() == DEFAULT_RESPONSE_INVOICE_TIMEOUT,
    {
        Self::new(None)
    }
}

} // verus!

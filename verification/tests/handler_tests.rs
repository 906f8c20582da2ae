//! Scenario tests of the negotiation state machine: registration,
//! duplicate rejection, the bounded invoice wait, failure-path cleanup at
//! every stage, invoice acceptance, and the pending outbound queue.

use lndk_offers::errors::OfferError;
use lndk_offers::handler::OfferHandler;
use lndk_offers::ids::PaymentId;
use lndk_offers::ledger::PaymentState;
use lndk_offers::protocol::InboundInvoiceAction;
use lndk_offers::DEFAULT_RESPONSE_INVOICE_TIMEOUT;

fn id(tag: u8) -> PaymentId {
    PaymentId::new([tag; 32])
}

fn new_handler() -> OfferHandler<&'static str, u64> {
    OfferHandler::new(None)
}

#[test]
fn fresh_handler_is_empty() {
    let h = new_handler();
    assert_eq!(h.active_payment_count(), 0);
    assert!(h.no_active_payments());
    assert_eq!(h.pending_message_count(), 0);
    assert_eq!(h.response_invoice_timeout(), DEFAULT_RESPONSE_INVOICE_TIMEOUT);
}

#[test]
fn timeout_override_at_construction() {
    let h: OfferHandler<&'static str, u64> = OfferHandler::new(Some(33));
    assert_eq!(h.response_invoice_timeout(), 33);
    assert_eq!(h.effective_timeout(None), 33);
    assert_eq!(h.effective_timeout(Some(2)), 2);
}

#[test]
fn default_handler_uses_default_timeout() {
    let h: OfferHandler<&'static str, u64> = Default::default();
    assert_eq!(h.response_invoice_timeout(), 15);
    assert!(h.no_active_payments());
}

#[test]
fn registration_succeeds_once() {
    let mut h = new_handler();
    let p = id(1);
    assert!(h.register_payment(&p).is_ok());
    assert!(h.has_active_payment(&p));
    assert_eq!(h.payment_state(&p), Some(PaymentState::InvoiceRequestCreated));
    // Second registration of the same identifier: exactly one success.
    assert_eq!(h.register_payment(&p), Err(OfferError::AlreadyProcessing(p)));
    // The failed registration touched nothing.
    assert_eq!(h.active_payment_count(), 1);
    assert_eq!(h.payment_state(&p), Some(PaymentState::InvoiceRequestCreated));
}

#[test]
fn send_failure_deregisters() {
    let mut h = new_handler();
    let p = id(2);
    h.register_payment(&p).unwrap();
    // The collaborator failed to produce the outbound message: the
    // registered identifier must be deregistered before the error returns.
    h.remove_active_payment(&p);
    assert!(h.no_active_payments());
    assert!(!h.has_active_payment(&p));
}

#[test]
fn wait_timeout_deregisters_and_reports_bound() {
    let mut h = new_handler();
    let p = id(3);
    h.register_payment(&p).unwrap();
    let r = h.finish_invoice_wait(&p, false, 2);
    assert_eq!(r, Err(OfferError::InvoiceTimeout(2)));
    assert!(h.no_active_payments());
}

#[test]
fn late_invoice_after_timeout_is_unknown() {
    let mut h = new_handler();
    let p = id(4);
    h.register_payment(&p).unwrap();
    h.finish_invoice_wait(&p, false, 2).unwrap_err();
    // An invoice arriving for the timed-out identifier is dropped, never
    // resurrected.
    let action = h.record_invoice_outcome(&p, true, 77, false);
    assert_eq!(action, InboundInvoiceAction::UnknownIgnored);
    assert!(h.no_active_payments());
}

#[test]
fn verified_invoice_is_stored_and_unblocks_wait() {
    let mut h = new_handler();
    let p = id(5);
    h.register_payment(&p).unwrap();
    assert!(h.stored_invoice(&p).is_none());
    let action = h.record_invoice_outcome(&p, true, 41, false);
    assert_eq!(action, InboundInvoiceAction::Accepted);
    assert_eq!(h.payment_state(&p), Some(PaymentState::InvoiceReceived));
    assert_eq!(h.stored_invoice(&p), Some(&41));
    // The orchestrator's wait now completes successfully.
    assert_eq!(h.finish_invoice_wait(&p, true, 15), Ok(()));
    assert_eq!(h.payment_state(&p), Some(PaymentState::InvoiceReceived));
    assert!(h.has_active_payment(&p));
}

#[test]
fn duplicate_invoice_does_not_overwrite() {
    let mut h = new_handler();
    let p = id(6);
    h.register_payment(&p).unwrap();
    assert_eq!(h.record_invoice_outcome(&p, true, 100, false), InboundInvoiceAction::Accepted);
    // A second, different valid invoice for the same identifier is logged
    // as a duplicate and dropped.
    assert_eq!(
        h.record_invoice_outcome(&p, true, 200, false),
        InboundInvoiceAction::DuplicateIgnored
    );
    assert_eq!(h.stored_invoice(&p), Some(&100));
    assert_eq!(h.payment_state(&p), Some(PaymentState::InvoiceReceived));
}

#[test]
fn unverified_invoice_replies_only_with_responder() {
    let mut h = new_handler();
    let p = id(7);
    h.register_payment(&p).unwrap();
    assert_eq!(
        h.record_invoice_outcome(&p, false, 9, true),
        InboundInvoiceAction::RejectedWithReply
    );
    assert_eq!(
        h.record_invoice_outcome(&p, false, 9, false),
        InboundInvoiceAction::RejectedSilently
    );
    // Verification failure never touches the ledger.
    assert_eq!(h.payment_state(&p), Some(PaymentState::InvoiceRequestCreated));
    assert!(h.stored_invoice(&p).is_none());
}

#[test]
fn dispatch_failure_deregisters() {
    let mut h = new_handler();
    let p = id(8);
    h.register_payment(&p).unwrap();
    h.record_invoice_outcome(&p, true, 5, false);
    let r = h.record_dispatch_outcome(&p, false);
    assert_eq!(r, Err(OfferError::DispatchFailure));
    assert!(h.no_active_payments());
}

#[test]
fn settlement_failure_deregisters() {
    let mut h = new_handler();
    let p = id(9);
    h.register_payment(&p).unwrap();
    h.record_invoice_outcome(&p, true, 5, false);
    h.record_dispatch_outcome(&p, true).unwrap();
    assert_eq!(h.payment_state(&p), Some(PaymentState::PaymentDispatched));
    let r = h.finish_payment(&p, false);
    assert_eq!(r, Err(OfferError::SettlementFailure));
    assert!(h.no_active_payments());
}

#[test]
fn settlement_success_deregisters() {
    let mut h = new_handler();
    let p = id(10);
    h.register_payment(&p).unwrap();
    h.record_invoice_outcome(&p, true, 5, false);
    h.record_dispatch_outcome(&p, true).unwrap();
    assert_eq!(h.finish_payment(&p, true), Ok(()));
    assert!(h.no_active_payments());
}

#[test]
fn three_concurrent_attempts_are_independent() {
    let mut h = new_handler();
    let (a, b, c) = (id(11), id(12), id(13));
    assert!(h.register_payment(&a).is_ok());
    assert!(h.register_payment(&b).is_ok());
    assert!(h.register_payment(&c).is_ok());
    // Exactly three entries mid-flight.
    assert_eq!(h.active_payment_count(), 3);
    // Progress on one identifier never touches the others.
    assert_eq!(h.record_invoice_outcome(&a, true, 1, false), InboundInvoiceAction::Accepted);
    assert_eq!(h.payment_state(&b), Some(PaymentState::InvoiceRequestCreated));
    assert_eq!(h.payment_state(&c), Some(PaymentState::InvoiceRequestCreated));
    assert_eq!(h.record_invoice_outcome(&b, true, 2, false), InboundInvoiceAction::Accepted);
    assert_eq!(h.record_invoice_outcome(&c, true, 3, false), InboundInvoiceAction::Accepted);
    assert_eq!(h.stored_invoice(&a), Some(&1));
    assert_eq!(h.stored_invoice(&b), Some(&2));
    assert_eq!(h.stored_invoice(&c), Some(&3));
    h.record_dispatch_outcome(&a, true).unwrap();
    h.record_dispatch_outcome(&b, true).unwrap();
    h.record_dispatch_outcome(&c, true).unwrap();
    h.finish_payment(&a, true).unwrap();
    assert_eq!(h.active_payment_count(), 2);
    assert!(h.has_active_payment(&b) && h.has_active_payment(&c));
    h.finish_payment(&b, true).unwrap();
    h.finish_payment(&c, true).unwrap();
    // Zero at completion.
    assert!(h.no_active_payments());
}

#[test]
fn pending_messages_drain_exactly_once_in_order() {
    let mut h = new_handler();
    h.enqueue_message("first");
    h.enqueue_message("second");
    h.enqueue_message("third");
    assert_eq!(h.pending_message_count(), 3);
    let drained = h.release_pending_messages();
    assert_eq!(drained, vec!["first", "second", "third"]);
    assert_eq!(h.pending_message_count(), 0);
    // A second drain hands out nothing: no duplication.
    assert!(h.release_pending_messages().is_empty());
}

#[test]
fn error_descriptions() {
    assert_eq!(
        OfferError::AlreadyProcessing(id(1)).description(),
        "payment is already being processed"
    );
    assert_eq!(OfferError::InvoiceTimeout(2).description(), "did not receive an invoice in time");
    assert_eq!(
        OfferError::ChannelInfoLookupFailure.description(),
        "could not resolve the channel's introduction node"
    );
    assert_eq!(OfferError::DispatchFailure.description(), "payment dispatch failed");
    assert_eq!(OfferError::SettlementFailure.description(), "payment failed to settle");
}

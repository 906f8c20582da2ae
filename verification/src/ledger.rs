//! The payment ledger: the single source of truth for "is this payment
//! identifier currently being processed". A record exists exactly while a
//! negotiation attempt is outstanding; registration never overwrites; every
//! terminal outcome removes the record.
//!
//! The ledger is generic over `I`, the received invoice artifact it stores;
//! the artifact is opaque here and only held for the waiting orchestrator.

use vstd::prelude::*;

use crate::ids::PaymentId;
use crate::keyed_map::KeyedMap;

verus! {

/// Phase of an outstanding negotiation attempt.
#[derive(Clone, Copy, Debug, PartialEq, Eq, Structural)]
pub enum PaymentState {
    /// The signed invoice request exists and the identifier is registered.
    InvoiceRequestCreated,
    /// A verified matching invoice has arrived.
    InvoiceReceived,
    /// The payment was handed to the payment engine.
    PaymentDispatched,
}

/// In-flight state of one negotiation attempt.
pub struct PaymentInfo<I> {
    pub state: PaymentState,
    /// The received invoice artifact, absent until a verified matching
    /// invoice arrives; only the first one is ever stored.
    pub invoice: Option<I>,
}

/// How the ledger received an inbound verified invoice.
#[derive(Clone, Copy, Debug, PartialEq, Eq, Structural)]
pub enum InvoiceAcceptance {
    /// First valid invoice for a registered identifier: stored.
    Accepted,
    /// An invoice was already stored for the identifier: dropped.
    Duplicate,
    /// The identifier is not registered (completed, timed out, or never
    /// ours): dropped.
    Unknown,
}

/// The record a fresh registration creates.
pub open spec fn fresh_record<I>() -> PaymentInfo<I> {
    PaymentInfo { state: PaymentState::InvoiceRequestCreated, invoice: None }
}

/// What delivering a verified invoice does to the ledger's map: it is
/// stored only for an outstanding identifier that has none yet; a
/// duplicate or unknown identifier leaves the map as it is.
pub open spec fn store_invoice_step<I>(
    m: Map<Seq<u8>, PaymentInfo<I>>,
    id: Seq<u8>,
    invoice: I,
) -> Map<Seq<u8>, PaymentInfo<I>> {
    if m.contains_key(id) && m[id].invoice is None {
        m.insert(id, PaymentInfo { state: PaymentState::InvoiceReceived, invoice: Some(invoice) })
    } else {
        m
    }
}

/// Map from payment identifier to the in-flight state of its attempt.
pub struct PaymentLedger<I> {
    records: KeyedMap<32, PaymentInfo<I>>,
}

impl<I> View for PaymentLedger<I> {
    type V = Map<Seq<u8>, PaymentInfo<I>>;

    closed spec fn view(&self) -> Map<Seq<u8>, PaymentInfo<I>> {
        self.records@
    }
}

impl<I> PaymentLedger<I> {
    pub closed spec fn wf(&self) -> bool {
        self.records.wf()
    }

    pub fn new() -> (r: Self)
        ensures
            r.wf(),
            r@ =~= Map::<Seq<u8>, PaymentInfo<I>>::empty(),
    {
        PaymentLedger { records: KeyedMap::new() }
    }

    /// Atomic check-and-insert: registers the identifier unless an attempt
    /// for it is already outstanding, in which case nothing is touched.
    pub fn register(&mut self, id: &PaymentId) -> (r: bool)
        requires
            old(self).wf(),
        ensures
            final(self).wf(),
            r == !old(self)@.contains_key(id@),
            r ==> final(self)@ =~= old(self)@.insert(id@, fresh_record::<I>()),
            !r ==> final(self)@ == old(self)@,
    {
        if self.records.contains_key(&id.bytes) {
            false
        } else {
            self.records.insert(id.bytes, PaymentInfo { state: PaymentState::InvoiceRequestCreated, invoice: None });
            true
        }
    }

    /// Stores the first verified invoice for a registered identifier;
    /// a duplicate or an unknown identifier changes nothing.
    pub fn store_invoice(&mut self, id: &PaymentId, invoice: I) -> (r: InvoiceAcceptance)
        requires
            old(self).wf(),
        ensures
            final(self).wf(),
            final(self)@ =~= store_invoice_step(old(self)@, id@, invoice),
            !old(self)@.contains_key(id@) ==> r == InvoiceAcceptance::Unknown && final(self)@
                == old(self)@,
            old(self)@.contains_key(id@) && old(self)@[id@].invoice is Some ==> r
                == InvoiceAcceptance::Duplicate && final(self)@ == old(self)@,
            old(self)@.contains_key(id@) && old(self)@[id@].invoice is None ==> r
                == InvoiceAcceptance::Accepted && final(self)@ =~= old(self)@.insert(
                id@,
                PaymentInfo { state: PaymentState::InvoiceReceived, invoice: Some(invoice) },
            ),
    {
        match self.records.take(&id.bytes) {
            None => {
                proof {
                    assert(old(self)@.remove(id@) =~= old(self)@);
                }
                InvoiceAcceptance::Unknown
            },
            Some(info) => {
                if info.invoice.is_some() {
                    self.records.insert(id.bytes, info);
                    proof {
                        assert(old(self)@.remove(id@).insert(id@, old(self)@[id@]) =~= old(
                            self,
                        )@);
                    }
                    InvoiceAcceptance::Duplicate
                } else {
                    self.records.insert(
                        id.bytes,
                        PaymentInfo { state: PaymentState::InvoiceReceived, invoice: Some(invoice) },
                    );
                    proof {
                        assert(old(self)@.remove(id@).insert(
                            id@,
                            PaymentInfo {
                                state: PaymentState::InvoiceReceived,
                                invoice: Some(invoice),
                            },
                        ) =~= old(self)@.insert(
                            id@,
                            PaymentInfo {
                                state: PaymentState::InvoiceReceived,
                                invoice: Some(invoice),
                            },
                        ));
                    }
                    InvoiceAcceptance::Accepted
                }
            },
        }
    }

    /// Sets the state of a registered identifier, keeping its invoice;
    /// an unknown identifier changes nothing.
    fn set_state(&mut self, id: &PaymentId, state: PaymentState)
        requires
            old(self).wf(),
        ensures
            final(self).wf(),
            old(self)@.contains_key(id@) ==> final(self)@ =~= old(self)@.insert(
                id@,
                PaymentInfo { state, invoice: old(self)@[id@].invoice },
            ),
            !old(self)@.contains_key(id@) ==> final(self)@ == old(self)@,
    {
        match self.records.take(&id.bytes) {
            None => {
                proof {
                    assert(old(self)@.remove(id@) =~= old(self)@);
                }
            },
            Some(info) => {
                self.records.insert(id.bytes, PaymentInfo { state, invoice: info.invoice });
                proof {
                    assert(old(self)@.remove(id@).insert(
                        id@,
                        PaymentInfo { state, invoice: old(self)@[id@].invoice },
                    ) =~= old(self)@.insert(
                        id@,
                        PaymentInfo { state, invoice: old(self)@[id@].invoice },
                    ));
                }
            },
        }
    }

    /// Marks the attempt as having its invoice in hand.
    pub fn mark_invoice_received(&mut self, id: &PaymentId)
        requires
            old(self).wf(),
        ensures
            final(self).wf(),
            old(self)@.contains_key(id@) ==> final(self)@ =~= old(self)@.insert(
                id@,
                PaymentInfo {
                    state: PaymentState::InvoiceReceived,
                    invoice: old(self)@[id@].invoice,
                },
            ),
            !old(self)@.contains_key(id@) ==> final(self)@ == old(self)@,
    {
        self.set_state(id, PaymentState::InvoiceReceived);
    }

    /// Marks the attempt as handed to the payment engine.
    pub fn mark_dispatched(&mut self, id: &PaymentId)
        requires
            old(self).wf(),
        ensures
            final(self).wf(),
            old(self)@.contains_key(id@) ==> final(self)@ =~= old(self)@.insert(
                id@,
                PaymentInfo {
                    state: PaymentState::PaymentDispatched,
                    invoice: old(self)@[id@].invoice,
                },
            ),
            !old(self)@.contains_key(id@) ==> final(self)@ == old(self)@,
    {
        self.set_state(id, PaymentState::PaymentDispatched);
    }

    /// Removes the identifier's record; every terminal outcome ends here.
    pub fn remove(&mut self, id: &PaymentId)
        requires
            old(self).wf(),
        ensures
            final(self).wf(),
            final(self)@ =~= old(self)@.remove(id@),
            !final(self)@.contains_key(id@),
    {
        self.records.remove(&id.bytes);
    }

    pub fn contains(&self, id: &PaymentId) -> (r: bool)
        requires
            self.wf(),
        ensures
            r == self@.contains_key(id@),
    {
        self.records.contains_key(&id.bytes)
    }

    /// The stored invoice of an outstanding attempt, if one has arrived.
    pub fn stored_invoice(&self, id: &PaymentId) -> (r: Option<&I>)
        requires
            self.wf(),
        ensures
            match r {
                Some(v) => self@.contains_key(id@) && self@[id@].invoice == Some(*v),
                None => !self@.contains_key(id@) || self@[id@].invoice is None,
            },
    {
        match self.records.get(&id.bytes) {
            Some(info) => match &info.invoice {
                Some(v) => Some(v),
                None => None,
            },
            None => None,
        }
    }

    pub fn state_of(&self, id: &PaymentId) -> (r: Option<PaymentState>)
        requires
            self.wf(),
        ensures
            self@.contains_key(id@) ==> r == Some(self@[id@].state),
            !self@.contains_key(id@) ==> r is None,
    {
        match self.records.get(&id.bytes) {
            Some(info) => Some(info.state),
            None => None,
        }
    }

    /// Number of outstanding attempts.
    pub fn len(&self) -> (r: usize)
        requires
            self.wf(),
        ensures
            r == self@.dom().len(),
            self@.dom().finite(),
    {
        self.records.len()
    }

    pub fn is_empty(&self) -> (r: bool)
        requires
            self.wf(),
        ensures
            r == (self@.dom() =~= Set::<Seq<u8>>::empty()),
    {
        self.records.is_empty()
    }
}

} // verus!

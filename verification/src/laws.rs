//! The laws of the negotiation core that relate several operations, each
//! proved over the mathematical views the operations' own contracts are
//! stated in.
//!
//! Concurrency is linearized: the surrounding tasks serialize every ledger
//! and cache operation under the one lock guarding it, so a law over a
//! sequence of these transitions covers every interleaving of concurrent
//! calls.

use vstd::prelude::*;

use crate::ids::NodeId;
use crate::ledger::{fresh_record, store_invoice_step, PaymentInfo, PaymentState};
use crate::peer_state::listing_contains;

verus! {

/// No ledger entry leaks. A successful registration puts the identifier in
/// the ledger, and it stays there strictly until the owning call's
/// terminal outcome; each terminal path — send failure right after
/// registration, invoice-wait timeout, dispatch failure after the invoice
/// was stored, and settlement (success or failure) after dispatch — ends
/// in the removal its function's contract promises, which restores the
/// ledger to exactly what it was before the registration.
pub proof fn lemma_no_ledger_leak<I>(m: Map<Seq<u8>, PaymentInfo<I>>, id: Seq<u8>, invoice: I)
    requires
        !m.contains_key(id),
    ensures
        m.insert(id, fresh_record::<I>()).contains_key(id),
        m.insert(id, fresh_record::<I>()).remove(id) =~= m,
        store_invoice_step(m.insert(id, fresh_record::<I>()), id, invoice).contains_key(id),
        store_invoice_step(m.insert(id, fresh_record::<I>()), id, invoice).remove(id) =~= m,
        store_invoice_step(m.insert(id, fresh_record::<I>()), id, invoice).insert(
            id,
            PaymentInfo { state: PaymentState::InvoiceReceived, invoice: Some(invoice) },
        ).insert(
            id,
            PaymentInfo { state: PaymentState::PaymentDispatched, invoice: Some(invoice) },
        ).remove(id) =~= m,
{
}

/// Two registrations of one identifier cannot both succeed: the first
/// finds it absent and inserts it, so the second finds it present, and
/// `register_payment`'s contract then returns `AlreadyProcessing` and
/// touches nothing.
pub proof fn lemma_duplicate_registration_rejected<I>(m: Map<Seq<u8>, PaymentInfo<I>>, id: Seq<u8>)
    requires
        !m.contains_key(id),
    ensures
        m.insert(id, fresh_record::<I>()).contains_key(id),
{
}

/// Invoice acceptance is idempotent: after the first valid invoice for an
/// outstanding identifier is stored, delivering any second invoice leaves
/// the ledger — and in particular the stored invoice — exactly as the
/// first delivery left it.
pub proof fn lemma_invoice_acceptance_idempotent<I>(
    m: Map<Seq<u8>, PaymentInfo<I>>,
    id: Seq<u8>,
    first: I,
    second: I,
)
    requires
        m.contains_key(id),
        m[id].invoice is None,
    ensures
        store_invoice_step(m, id, first)[id].invoice == Some(first),
        store_invoice_step(m, id, first)[id].state == PaymentState::InvoiceReceived,
        store_invoice_step(store_invoice_step(m, id, first), id, second) == store_invoice_step(
            m,
            id,
            first,
        ),
{
}

/// The connectivity cache converges after a disconnect: marking a peer
/// disconnected leaves no stale "connected" belief, so the fast path
/// misses and `ensure_connected` must consult the host node's live peer
/// list; what the cache then believes is decided by that fresh listing
/// alone — connected exactly when the host node listed the peer —
/// whatever was believed before.
pub proof fn lemma_cache_convergence(s: Set<Seq<u8>>, p: Seq<u8>, listing: Seq<NodeId>)
    ensures
        !s.remove(p).contains(p),
        listing_contains(listing, p) ==> s.remove(p).insert(p).contains(p),
        !listing_contains(listing, p) ==> !s.remove(p).contains(p),
{
}

/// Distinct identifiers are fully independent: every ledger transition of
/// one attempt — registration, invoice storage, a state advance (all
/// inserts at its own key) or removal — leaves both the presence and the
/// record of every other identifier exactly as they were.
pub proof fn lemma_identifier_independence<I>(
    m: Map<Seq<u8>, PaymentInfo<I>>,
    id: Seq<u8>,
    other: Seq<u8>,
    record: PaymentInfo<I>,
)
    requires
        id != other,
    ensures
        m.insert(id, record).contains_key(other) == m.contains_key(other),
        m.contains_key(other) ==> m.insert(id, record)[other] == m[other],
        m.remove(id).contains_key(other) == m.contains_key(other),
        m.contains_key(other) ==> m.remove(id)[other] == m[other],
{
}

} // verus!

//! Fixed-size opaque tokens that the negotiation core keys its state by: the
//! payment identifier correlating an invoice request with its invoice, the
//! node identity used by the connectivity cache, and the nonce binding a
//! message to the context it was issued under.

use vstd::prelude::*;

verus! {

/// Compares two fixed-size byte strings; the mathematical meaning is equality
/// of their views.
pub fn bytes_eq<const N: usize>(a: &[u8; N], b: &[u8; N]) -> (r: bool)
    ensures
        r == (a@ == b@),
{
    let mut i: usize = 0;
    while i < N
        invariant
            i <= N,
            forall|j: int| 0 <= j < i ==> a@[j] == b@[j],
        decreases N - i,
    {
        if a[i] != b[i] {
            return false;
        }
        i += 1;
    }
    proof {
        assert(a@ =~= b@);
    }
    true
}

/// Process-assigned identifier of one negotiation attempt, set in the
/// metadata of an outbound invoice request and echoed by the matching
/// invoice. Opaque: the core only ever compares it.
#[derive(Clone, Copy, Debug, PartialEq, Eq)]
pub struct PaymentId {
    pub bytes: [u8; 32],
}

impl View for PaymentId {
    type V = Seq<u8>;

    open spec fn view(&self) -> Seq<u8> {
        self.bytes@
    }
}

impl PaymentId {
    pub fn new(bytes: [u8; 32]) -> (r: Self)
        ensures
            r@ == bytes@,
    {
        PaymentId { bytes }
    }

    /// Identifier equality, as the ledger decides it.
    pub fn same_as(&self, other: &Self) -> (r: bool)
        ensures
            r == (self@ == other@),
    {
        bytes_eq(&self.bytes, &other.bytes)
    }
}

/// A peer's node identity (a serialized public key). Opaque: the
/// connectivity cache only ever compares it.
#[derive(Clone, Copy, Debug, PartialEq, Eq)]
pub struct NodeId {
    pub bytes: [u8; 33],
}

impl View for NodeId {
    type V = Seq<u8>;

    open spec fn view(&self) -> Seq<u8> {
        self.bytes@
    }
}

impl NodeId {
    pub fn new(bytes: [u8; 33]) -> (r: Self)
        ensures
            r@ == bytes@,
    {
        NodeId { bytes }
    }

    pub fn same_as(&self, other: &Self) -> (r: bool)
        ensures
            r == (self@ == other@),
    {
        bytes_eq(&self.bytes, &other.bytes)
    }
}

/// Single-use cryptographic material binding a message to the context under
/// which it was issued. The core carries it between the transport and the
/// verification collaborator without reading it.
#[derive(Clone, Copy, Debug, PartialEq, Eq)]
pub struct Nonce {
    pub bytes: [u8; 16],
}

impl View for Nonce {
    type V = Seq<u8>;

    open spec fn view(&self) -> Seq<u8> {
        self.bytes@
    }
}

impl Nonce {
    pub fn new(bytes: [u8; 16]) -> (r: Self)
        ensures
            r@ == bytes@,
    {
        Nonce { bytes }
    }
}

} // verus!

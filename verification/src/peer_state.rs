//! The believed-connectivity cache: which peers we think our node holds a
//! live connection to. Not authoritative — a believed-connected peer may
//! have silently dropped — so it is reconciled lazily against the host
//! node's live peer list on a cache miss, and kept warm by
//! connection-lifecycle notifications the broader system already observes.

use vstd::prelude::*;

use crate::errors::PeerStateError;
use crate::ids::NodeId;
use crate::keyed_map::KeyedMap;

verus! {

/// Whether the host node's live peer listing holds the identity.
pub open spec fn listing_contains(listing: Seq<NodeId>, node_id: Seq<u8>) -> bool {
    exists|i: int| 0 <= i < listing.len() && (#[trigger] listing[i])@ == node_id
}

/// The believed-connected peer set.
pub struct PeerState {
    peers: KeyedMap<33, ()>,
}

impl PeerState {
    /// The set of node identities believed connected.
    pub closed spec fn connected(&self) -> Set<Seq<u8>> {
        self.peers@.dom()
    }

    pub closed spec fn wf(&self) -> bool {
        self.peers.wf()
    }

    pub fn new() -> (r: Self)
        ensures
            r.wf(),
            r.connected() =~= Set::<Seq<u8>>::empty(),
    {
        PeerState { peers: KeyedMap::new() }
    }

    /// The fast path: whether we currently believe the peer is connected.
    /// A negative answer is what forces a fresh query of the host node.
    pub fn is_connected(&self, node_id: &NodeId) -> (r: bool)
        requires
            self.wf(),
        ensures
            r == self.connected().contains(node_id@),
    {
        self.peers.contains_key(&node_id.bytes)
    }

    /// Call when we learn a peer got connected. No network query.
    pub fn mark_connected(&mut self, node_id: &NodeId)
        requires
            old(self).wf(),
        ensures
            final(self).wf(),
            final(self).connected() =~= old(self).connected().insert(node_id@),
    {
        self.peers.insert(node_id.bytes, ());
    }

    /// Call when we learn a peer got disconnected. No network query.
    pub fn mark_disconnected(&mut self, node_id: &NodeId)
        requires
            old(self).wf(),
        ensures
            final(self).wf(),
            final(self).connected() =~= old(self).connected().remove(node_id@),
            !final(self).connected().contains(node_id@),
    {
        self.peers.remove(&node_id.bytes);
    }

    /// Reconciles a cache miss against the host node's answer: `None` means
    /// the live-peer query itself failed, so connectivity stays
    /// undetermined and the cache untouched; a listing that holds the peer
    /// confirms it and warms the cache; a listing without it is a confirmed
    /// negative, also leaving the cache untouched.
    pub fn reconcile_peers(&mut self, node_id: &NodeId, listed_peers: Option<&Vec<NodeId>>) -> (r:
        Result<(), PeerStateError>)
        requires
            old(self).wf(),
        ensures
            final(self).wf(),
            listed_peers is None ==> r == Err::<(), PeerStateError>(PeerStateError::PeerConnectError)
                && final(self).connected() == old(self).connected(),
            listed_peers matches Some(l) && listing_contains(l@, node_id@) ==> r == Ok::<
                (),
                PeerStateError,
            >(()) && final(self).connected() =~= old(self).connected().insert(node_id@),
            listed_peers matches Some(l) && !listing_contains(l@, node_id@) ==> r == Err::<
                (),
                PeerStateError,
            >(PeerStateError::PeerNotConnected) && final(self).connected() == old(self).connected(),
    {
        match listed_peers {
            None => Err(PeerStateError::PeerConnectError),
            Some(listing) => {
                let n = listing.len();
                let mut i: usize = 0;
                while i < n
                    invariant
                        listed_peers == Some(listing),
                        self == old(self),
                        self.wf(),
                        i <= n,
                        n == listing@.len(),
                        forall|j: int| 0 <= j < i ==> (#[trigger] listing@[j])@ != node_id@,
                    decreases n - i,
                {
                    if listing[i].same_as(node_id) {
                        proof {
                            assert(listing_contains(listing@, node_id@)) by {
                                assert((#[trigger] listing@[i as int])@ == node_id@);
                            }
                        }
                        self.peers.insert(node_id.bytes, ());
                        return Ok(());
                    }
                    i += 1;
                }
                proof {
                    assert(!listing_contains(listing@, node_id@));
                }
                Err(PeerStateError::PeerNotConnected)
            },
        }
    }

    /// Number of peers believed connected.
    pub fn peer_count(&self) -> (r: usize)
        requires
            self.wf(),
        ensures
            r == self.connected().len(),
            self.connected().finite(),
    {
        self.peers.len()
    }
}

} // verus!

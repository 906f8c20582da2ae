//! Tests of the believed-connectivity cache: the fast path, the lazy
//! reconciliation against the host node's live peer list, and the
//! lifecycle hooks that keep the cache warm.

use lndk_offers::errors::PeerStateError;
use lndk_offers::ids::NodeId;
use lndk_offers::peer_state::PeerState;

/// The serialized public key 0313ba7ccbd754c117962b9afab6c2870eb3ef43f364a9f6c43d0fabb4553776ba.
fn test_pubkey() -> NodeId {
    NodeId::new([
        0x03, 0x13, 0xba, 0x7c, 0xcb, 0xd7, 0x54, 0xc1, 0x17, 0x96, 0x2b, 0x9a, 0xfa, 0xb6, 0xc2,
        0x87, 0x0e, 0xb3, 0xef, 0x43, 0xf3, 0x64, 0xa9, 0xf6, 0xc4, 0x3d, 0x0f, 0xab, 0xb4, 0x55,
        0x37, 0x76, 0xba,
    ])
}

fn other_pubkey() -> NodeId {
    NodeId::new([0x02; 33])
}

#[test]
fn test_ensure_connected_already_connected() {
    let mut peer_state = PeerState::new();
    let pubkey = test_pubkey();

    peer_state.mark_connected(&pubkey);

    // The fast path hits: no reconciliation against the host node needed.
    let result: Result<(), PeerStateError> = if peer_state.is_connected(&pubkey) {
        Ok(())
    } else {
        unreachable!()
    };

    assert!(result.is_ok());
    assert!(peer_state.is_connected(&pubkey));
}

#[test]
fn test_ensure_connected_not_connected() {
    let mut peer_state = PeerState::new();
    let pubkey = test_pubkey();

    // Cache miss: reconcile against the host node's live peer list, which
    // holds the peer.
    assert!(!peer_state.is_connected(&pubkey));
    let listing = vec![pubkey];
    let result = peer_state.reconcile_peers(&pubkey, Some(&listing));

    assert!(result.is_ok());
    assert!(peer_state.is_connected(&pubkey));
}

#[test]
fn test_mark_disconnected() {
    let mut peer_state = PeerState::new();
    let pubkey = test_pubkey();

    peer_state.mark_connected(&pubkey);
    assert!(peer_state.is_connected(&pubkey));

    peer_state.mark_disconnected(&pubkey);
    assert!(!peer_state.is_connected(&pubkey));
}

#[test]
fn disconnect_forces_fresh_query() {
    let mut peer_state = PeerState::new();
    let pubkey = test_pubkey();

    peer_state.mark_connected(&pubkey);
    peer_state.mark_disconnected(&pubkey);

    // No stale "connected" belief remains, so the fast path misses and the
    // outcome is decided by the fresh listing alone.
    assert!(!peer_state.is_connected(&pubkey));
    let empty_listing: Vec<NodeId> = Vec::new();
    let result = peer_state.reconcile_peers(&pubkey, Some(&empty_listing));
    assert_eq!(result, Err(PeerStateError::PeerNotConnected));
    assert!(!peer_state.is_connected(&pubkey));
}

#[test]
fn failed_query_is_not_a_confirmed_negative() {
    let mut peer_state = PeerState::new();
    let pubkey = test_pubkey();

    let result = peer_state.reconcile_peers(&pubkey, None);
    assert_eq!(result, Err(PeerStateError::PeerConnectError));
    // The two failures are distinguishable.
    assert_ne!(result, Err(PeerStateError::PeerNotConnected));
    assert!(!peer_state.is_connected(&pubkey));
}

#[test]
fn reconcile_ignores_other_peers() {
    let mut peer_state = PeerState::new();
    let pubkey = test_pubkey();
    let other = other_pubkey();

    let listing = vec![other];
    let result = peer_state.reconcile_peers(&pubkey, Some(&listing));
    assert_eq!(result, Err(PeerStateError::PeerNotConnected));
    assert!(!peer_state.is_connected(&pubkey));
    assert!(!peer_state.is_connected(&other));

    let listing = vec![other, pubkey];
    assert!(peer_state.reconcile_peers(&pubkey, Some(&listing)).is_ok());
    assert!(peer_state.is_connected(&pubkey));
    assert_eq!(peer_state.peer_count(), 1);
}

#[test]
fn lifecycle_hooks_are_idempotent() {
    let mut peer_state = PeerState::new();
    let pubkey = test_pubkey();

    peer_state.mark_connected(&pubkey);
    peer_state.mark_connected(&pubkey);
    assert_eq!(peer_state.peer_count(), 1);

    peer_state.mark_disconnected(&pubkey);
    peer_state.mark_disconnected(&pubkey);
    assert_eq!(peer_state.peer_count(), 0);
}

#[test]
fn peer_state_error_descriptions() {
    assert_eq!(PeerStateError::PeerNotConnected.description(), "Peer not connected");
    assert_eq!(
        PeerStateError::PeerConnectError.description(),
        "We are not able to determine if the peer is connected"
    );
}

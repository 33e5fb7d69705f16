use peer_sync::known_blocks::LruHashSet;
use peer_sync::outcome::{PeerRequest, PendingRecord, ReplySlot};
use peer_sync::peers::{Peer, PeerInfo, PeerSet, PeerTable, MAX_KNOWN_BLOCKS};
use peer_sync::pending::PendingResponses;
use peer_sync::primitives::{
    position_of, BlockHash, Key, PeerId, Roles, PEER_ID_CAPACITY, ROLE_FULL,
};
use peer_sync::reputation::{ReputationChange, FATAL};

fn hash(byte: u8) -> BlockHash {
    BlockHash { bytes: [byte; 32] }
}

fn peer(id: u64) -> PeerId {
    PeerId::from_bytes(&id.to_be_bytes().to_vec()).unwrap()
}

fn info(best_number: u64) -> PeerInfo {
    PeerInfo { roles: Roles { bits: ROLE_FULL }, best_hash: hash(1), best_number }
}

#[test]
fn hashes_are_the_same_when_all_bytes_are() {
    let mut other = hash(1);
    assert!(hash(1).same(&other));
    other.bytes[31] = 2;
    assert!(!hash(1).same(&other));
    other = hash(1);
    other.bytes[0] = 0;
    assert!(!hash(1).same(&other));
    assert!(peer(3).same(&peer(3)));
    assert!(!peer(3).same(&peer(4)));
}

#[test]
fn identities_are_their_bytes() {
    assert_eq!(PEER_ID_CAPACITY, 66);
    let bytes: Vec<u8> = (1..=38).collect();
    let id = PeerId::from_bytes(&bytes).unwrap();
    assert_eq!(id.to_bytes(), bytes);
    assert_eq!(PeerId::from_bytes(&id.to_bytes()), Some(id));
    assert_eq!(PeerId::from_bytes(&vec![]).unwrap().to_bytes(), Vec::<u8>::new());
    let longest = vec![7u8; 66];
    assert_eq!(PeerId::from_bytes(&longest).unwrap().to_bytes(), longest);
    assert_eq!(PeerId::from_bytes(&vec![7u8; 67]), None);
    // a zero at the end is a byte like any other
    let shorter = PeerId::from_bytes(&vec![1, 2]).unwrap();
    let longer = PeerId::from_bytes(&vec![1, 2, 0]).unwrap();
    assert!(!shorter.same(&longer));
    assert_ne!(shorter, longer);
    assert!(shorter.same(&PeerId::from_bytes(&vec![1, 2]).unwrap()));
    assert!(!shorter.same(&PeerId::from_bytes(&vec![1, 3]).unwrap()));
}

#[test]
fn position_is_that_of_the_first_occurrence() {
    let items = vec![peer(4), peer(5), peer(4)];
    assert_eq!(position_of(&items, &peer(4)), Some(0));
    assert_eq!(position_of(&items, &peer(5)), Some(1));
    assert_eq!(position_of(&items, &peer(6)), None);
    assert_eq!(position_of(&Vec::<PeerId>::new(), &peer(6)), None);
}

#[test]
fn bounded_set_forgets_the_oldest_first() {
    let mut set = LruHashSet::new(3);
    assert!(set.insert(as_key(1)));
    assert!(set.insert(as_key(2)));
    assert_eq!(set.to_vec(), vec![peer(1), peer(2)]);
    // inserting an element again makes it the newest
    assert!(!set.insert(peer(1)));
    assert_eq!(set.to_vec(), vec![peer(2), peer(1)]);
    assert!(set.insert(peer(3)));
    assert_eq!(set.len(), 3);
    // the set is full: the oldest element leaves
    assert!(set.insert(peer(4)));
    assert_eq!(set.to_vec(), vec![peer(1), peer(3), peer(4)]);
    assert!(!set.contains(&peer(2)));
    assert!(set.contains(&peer(4)));
    assert_eq!(set.len(), 3);
    let copy = set.clone();
    assert_eq!(copy.to_vec(), set.to_vec());
}

fn as_key(id: u64) -> PeerId {
    peer(id)
}

#[test]
fn bounded_set_of_one_keeps_the_last() {
    let mut set = LruHashSet::new(1);
    assert!(set.insert(hash(1)));
    assert!(set.insert(hash(2)));
    assert!(!set.insert(hash(2)));
    assert_eq!(set.to_vec(), vec![hash(2)]);
}

#[test]
fn peers_remember_a_bounded_number_of_blocks() {
    assert_eq!(MAX_KNOWN_BLOCKS, 1024);
    let mut table = PeerTable::new();
    table.insert(peer(1), Peer::new(info(1)));
    for i in 0..1030u32 {
        let mut h = hash(0);
        h.bytes[0] = (i % 256) as u8;
        h.bytes[1] = (i / 256) as u8;
        assert_eq!(table.insert_known_block(&peer(1), h), Some(true));
    }
    let entries = table.entries();
    assert_eq!(entries[0].1.known_blocks.len(), 1024);
    let mut first = hash(0);
    first.bytes[0] = 0;
    assert!(!entries[0].1.known_blocks.contains(&first));
    let mut sixth = hash(0);
    sixth.bytes[0] = 6;
    assert!(entries[0].1.known_blocks.contains(&sixth));
}

#[test]
fn table_holds_each_peer_once() {
    let mut table = PeerTable::new();
    assert_eq!(table.len(), 0);
    assert!(table.insert(peer(1), Peer::new(info(1))));
    assert!(table.insert(peer(2), Peer::new(info(2))));
    assert!(table.insert(peer(3), Peer::new(info(3))));
    // a peer that is in the table stays as it is
    assert!(!table.insert(peer(2), Peer::new(info(22))));
    assert_eq!(table.len(), 3);
    assert!(table.contains_key(&peer(2)));
    assert_eq!(table.info(&peer(2)), Some(info(2)));
    assert_eq!(table.info(&peer(9)), None);
    assert_eq!(table.insert_known_block(&peer(2), hash(5)), Some(true));
    assert_eq!(table.insert_known_block(&peer(2), hash(5)), Some(false));
    assert_eq!(table.insert_known_block(&peer(9), hash(5)), None);
    let removed = table.remove(&peer(2)).unwrap();
    assert_eq!(removed.info, info(2));
    assert_eq!(removed.known_blocks.to_vec(), vec![hash(5)]);
    assert!(table.remove(&peer(2)).is_none());
    assert!(!table.contains_key(&peer(2)));
    let ids: Vec<PeerId> = table.entries().into_iter().map(|(id, _)| id).collect();
    assert_eq!(ids, vec![peer(1), peer(3)]);
}

#[test]
fn peer_set_is_a_set() {
    let mut set = PeerSet::from_list(&vec![peer(1), peer(2), peer(1)]);
    assert_eq!(set.len(), 2);
    assert!(set.contains(&peer(1)));
    assert!(!set.insert(peer(2)));
    assert!(set.insert(peer(3)));
    assert!(set.remove(&peer(1)));
    assert!(!set.remove(&peer(1)));
    assert!(!set.contains(&peer(1)));
    assert_eq!(set.len(), 2);
    assert_eq!(PeerSet::new().len(), 0);
}

#[test]
fn pending_requests_are_kept_under_fresh_slots() {
    let mut pending = PendingResponses::new();
    let first = PendingRecord { peer: peer(1), request: PeerRequest::State };
    let second = PendingRecord { peer: peer(2), request: PeerRequest::WarpProof };
    assert_eq!(pending.register(first), Some(ReplySlot { id: 0 }));
    assert_eq!(pending.register(second), Some(ReplySlot { id: 1 }));
    assert_eq!(pending.len(), 2);
    assert_eq!(pending.take(&ReplySlot { id: 0 }), Some(first));
    assert_eq!(pending.take(&ReplySlot { id: 0 }), None);
    assert!(pending.contains(&ReplySlot { id: 1 }));
    // a slot that was given back is not handed out again
    assert_eq!(pending.register(first), Some(ReplySlot { id: 2 }));
    assert_eq!(pending.len(), 2);
}

#[test]
fn reputation_changes_have_their_values() {
    assert_eq!(ReputationChange::timeout().value, -(1 << 10));
    assert_eq!(ReputationChange::refused().value, -(1 << 10));
    assert_eq!(ReputationChange::bad_message().value, -(1 << 12));
    assert_eq!(ReputationChange::bad_block_announcement().value, -(1 << 12));
    assert_eq!(ReputationChange::genesis_mismatch().value, FATAL);
    assert_eq!(ReputationChange::bad_protocol().value, FATAL);
    assert_eq!(ReputationChange::bad_role().value, FATAL);
    assert_eq!(ReputationChange::invalid_justification().value, FATAL);
    assert!(ReputationChange::bad_role().is_fatal());
    assert!(!ReputationChange::timeout().is_fatal());
    assert_eq!(ReputationChange::bad_message().reason, "Bad message");
}

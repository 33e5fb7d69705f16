use peer_sync::handshake::BlockAnnouncesHandshake;
use peer_sync::announce_cache::AnnounceCache;
use peer_sync::helper::SyncingHelper;
use peer_sync::outcome::{CustomMessageOutcome, PeerEffect, ReplySlot};
use peer_sync::peers::MAX_KNOWN_BLOCKS;
use peer_sync::primitives::{BlockHash, PeerId, Roles, ROLE_FULL, ROLE_LIGHT};
use peer_sync::reactor::{SyncEvent, SyncReply};
use peer_sync::reputation::ReputationChange;
use peer_sync::scripted::{CallKind, ScriptedSync};
use peer_sync::sync_types::{
    BlockAnnounce, BlockAttributes, BlockOrigin, BlockRequest, BlockState, Direction, FromBlock,
    Header, IncomingBlock, OnBlockData, PollBlockAnnounceValidation,
};

fn hash(byte: u8) -> BlockHash {
    BlockHash { bytes: [byte; 32] }
}

fn peer(id: u64) -> PeerId {
    PeerId::from_bytes(&id.to_be_bytes().to_vec()).unwrap()
}

fn helper(cache: usize) -> SyncingHelper<ScriptedSync> {
    let mut helper = SyncingHelper::new(
        ScriptedSync::new(),
        cache,
        hash(1),
        Roles { bits: ROLE_FULL },
        &vec![],
        5,
        5,
    );
    for (id, roles) in [(1, ROLE_FULL), (2, ROLE_LIGHT)] {
        let status = BlockAnnouncesHandshake {
            roles: Roles { bits: roles },
            best_number: 1,
            best_hash: hash(2),
            genesis_hash: hash(1),
        };
        assert_eq!(helper.on_sync_peer_connected(peer(id), status, 0), Ok(None));
    }
    helper.chain_sync.seen.clear();
    helper
}

fn announce(byte: u8, data: Option<Vec<u8>>) -> BlockAnnounce {
    BlockAnnounce {
        header: Header { number: byte as u64, hash: hash(byte), encoded: vec![byte] },
        state: None,
        data,
    }
}

fn known(helper: &SyncingHelper<ScriptedSync>, who: PeerId) -> Vec<BlockHash> {
    helper
        .get_peers()
        .into_iter()
        .find(|(id, _)| *id == who)
        .map(|(_, p)| p.known_blocks.to_vec())
        .unwrap()
}

const BAD_ANNOUNCEMENT: ReputationChange =
    ReputationChange { value: -4096, reason: "Bad block announcement" };

#[test]
fn announced_blocks_are_known_to_the_announcer() {
    let mut helper = helper(4);
    assert_eq!(helper.notification(peer(1), Some(announce(5, None))), CustomMessageOutcome::Nothing);
    assert_eq!(helper.notification(peer(1), Some(announce(6, None))), CustomMessageOutcome::Nothing);
    assert_eq!(helper.notification(peer(1), Some(announce(5, None))), CustomMessageOutcome::Nothing);
    assert_eq!(known(&helper, peer(1)), vec![hash(6), hash(5)]);
    assert_eq!(known(&helper, peer(2)), Vec::<BlockHash>::new());
    assert_eq!(
        helper.chain_sync.seen,
        vec![
            CallKind::PushBlockAnnounceValidation,
            CallKind::PushBlockAnnounceValidation,
            CallKind::PushBlockAnnounceValidation,
        ]
    );
    assert!(helper.get_events().is_empty());
}

#[test]
fn no_more_blocks_are_known_of_a_peer_than_the_limit() {
    let mut helper = helper(4);
    assert_eq!(MAX_KNOWN_BLOCKS, 1024);
    for i in 0..1030u32 {
        let mut announced = announce(0, None);
        announced.header.hash.bytes[0] = (i % 256) as u8;
        announced.header.hash.bytes[1] = (i / 256) as u8;
        helper.notification(peer(2), Some(announced));
    }
    let blocks = known(&helper, peer(2));
    assert_eq!(blocks.len(), 1024);
    // the six oldest have left, the newest is the last
    let mut seventh = hash(0);
    seventh.bytes[0] = 6;
    assert_eq!(blocks[0], seventh);
    let mut newest = hash(0);
    newest.bytes[0] = (1029 % 256) as u8;
    newest.bytes[1] = (1029 / 256) as u8;
    assert_eq!(blocks[1023], newest);
    assert_eq!(known(&helper, peer(1)), Vec::<BlockHash>::new());
}

#[test]
fn announcements_of_light_peers_are_not_validated() {
    let mut helper = helper(4);
    let mut normal = announce(5, None);
    normal.state = Some(BlockState::Normal);
    helper.notification(peer(2), Some(normal));
    assert_eq!(known(&helper, peer(2)), vec![hash(5)]);
    assert!(helper.chain_sync.seen.is_empty());
}

#[test]
fn notifications_of_unknown_peers_are_dropped() {
    let mut helper = helper(4);
    match helper.handle_command(SyncEvent::Notification(peer(9), Some(announce(5, None)))) {
        SyncReply::Event(event) => assert_eq!(event, CustomMessageOutcome::Nothing),
        other => panic!("unexpected reply {:?}", other),
    }
    helper.notification(peer(9), None);
    assert!(helper.chain_sync.seen.is_empty());
    assert!(helper.take_peer_effects().is_empty());
    assert_eq!(helper.num_connected_peers(), 2);
}

#[test]
fn bytes_that_are_no_announcement_are_a_violation() {
    let mut helper = helper(4);
    helper.notification(peer(1), None);
    assert_eq!(
        helper.take_peer_effects(),
        vec![
            PeerEffect::Disconnect(peer(1)),
            PeerEffect::Report(peer(1), ReputationChange { value: -4096, reason: "Bad message" }),
        ]
    );
    assert!(helper.chain_sync.seen.is_empty());
}

#[test]
fn skipped_validation_does_nothing() {
    let mut helper = helper(4);
    let event = helper.process_block_announce_validation_result(PollBlockAnnounceValidation::Skip);
    assert_eq!(event, CustomMessageOutcome::Nothing);
    assert!(helper.take_peer_effects().is_empty());
    assert_eq!(helper.block_announce_data_cache.len(), 0);
}

#[test]
fn failed_validation_costs_the_announcer() {
    let mut helper = helper(4);
    helper.process_block_announce_validation_result(PollBlockAnnounceValidation::Failure {
        who: peer(1),
        disconnect: false,
    });
    assert_eq!(helper.take_peer_effects(), vec![PeerEffect::Report(peer(1), BAD_ANNOUNCEMENT)]);
    helper.process_block_announce_validation_result(PollBlockAnnounceValidation::Failure {
        who: peer(1),
        disconnect: true,
    });
    assert_eq!(
        helper.take_peer_effects(),
        vec![PeerEffect::Disconnect(peer(1)), PeerEffect::Report(peer(1), BAD_ANNOUNCEMENT)]
    );
    assert!(helper.chain_sync.seen.is_empty());
}

#[test]
fn data_of_validated_announcements_is_cached() {
    let mut helper = helper(2);
    let nothing = |byte: u8, data: Option<Vec<u8>>| PollBlockAnnounceValidation::Nothing {
        who: peer(1),
        is_best: true,
        announce: announce(byte, data),
    };
    helper.process_block_announce_validation_result(nothing(5, Some(vec![1, 2])));
    helper.process_block_announce_validation_result(nothing(6, Some(vec![])));
    helper.process_block_announce_validation_result(nothing(7, None));
    assert_eq!(helper.block_announce_data_cache.len(), 1);
    assert_eq!(helper.block_announce_data(&hash(5)), Some(vec![1, 2]));
    assert_eq!(helper.block_announce_data(&hash(6)), None);
    assert_eq!(helper.block_announce_data(&hash(7)), None);
    // new data for a block replaces the old
    helper.process_block_announce_validation_result(nothing(5, Some(vec![3])));
    assert_eq!(helper.block_announce_data(&hash(5)), Some(vec![3]));
    assert_eq!(helper.block_announce_data_cache.len(), 1);
    // a third block drives out the least recently used one
    helper.process_block_announce_validation_result(nothing(8, Some(vec![8])));
    helper.process_block_announce_validation_result(nothing(9, Some(vec![9])));
    assert_eq!(helper.block_announce_data_cache.len(), 2);
    assert_eq!(helper.block_announce_data(&hash(5)), None);
    assert_eq!(helper.block_announce_data(&hash(8)), Some(vec![8]));
    assert_eq!(helper.block_announce_data(&hash(9)), Some(vec![9]));
    assert!(helper.chain_sync.seen.is_empty());
}

#[test]
fn cache_keeps_the_most_recently_used_entries() {
    let mut cache = AnnounceCache::new(2);
    assert_eq!(cache.len(), 0);
    cache.put(hash(1), vec![1]);
    cache.put(hash(2), vec![2]);
    // putting under the first key again makes it the most recently used one
    cache.put(hash(1), vec![11]);
    cache.put(hash(3), vec![3]);
    assert_eq!(cache.len(), 2);
    assert_eq!(cache.peek(&hash(1)), Some(vec![11]));
    assert_eq!(cache.peek(&hash(2)), None);
    assert_eq!(cache.peek(&hash(3)), Some(vec![3]));
    // looking does not count as use
    cache.put(hash(4), vec![4]);
    assert_eq!(cache.peek(&hash(1)), None);
    assert_eq!(cache.peek(&hash(3)), Some(vec![3]));
    assert_eq!(cache.peek(&hash(4)), Some(vec![4]));
}

#[test]
fn cache_of_capacity_zero_keeps_nothing() {
    let mut cache = AnnounceCache::new(0);
    cache.put(hash(1), vec![1]);
    assert_eq!(cache.len(), 0);
    assert_eq!(cache.peek(&hash(1)), None);
}

#[test]
fn announced_header_is_imported_through_the_state_machine() {
    let mut helper = helper(4);
    let block = IncomingBlock {
        hash: hash(5),
        header: Some(Header { number: 5, hash: hash(5), encoded: vec![5] }),
        body: None,
        justifications: None,
        origin: Some(peer(1)),
        skip_execution: false,
    };
    helper.chain_sync.block_data_answers =
        vec![Ok(OnBlockData::Import(BlockOrigin::NetworkBroadcast, vec![block.clone()]))];
    let event = helper.process_block_announce_validation_result(
        PollBlockAnnounceValidation::ImportHeader {
            who: peer(1),
            is_best: true,
            announce: announce(5, Some(vec![4, 2])),
        },
    );
    assert_eq!(event, CustomMessageOutcome::BlockImport(BlockOrigin::NetworkBroadcast, vec![block]));
    assert_eq!(helper.block_announce_data(&hash(5)), Some(vec![4, 2]));
    assert_eq!(helper.chain_sync.seen, vec![CallKind::OnBlockData]);
}

#[test]
fn finished_validations_are_fetched_one_by_one() {
    let mut helper = helper(4);
    let follow_up = BlockRequest {
        id: 3,
        fields: BlockAttributes { bits: 1 },
        from: FromBlock::Hash(hash(5)),
        direction: Direction::Descending,
        max: Some(1),
    };
    helper.chain_sync.block_data_answers = vec![Ok(OnBlockData::Request(peer(1), follow_up))];
    helper.chain_sync.validation_results = vec![
        PollBlockAnnounceValidation::Skip,
        PollBlockAnnounceValidation::ImportHeader {
            who: peer(1),
            is_best: false,
            announce: announce(5, None),
        },
    ];
    assert!(helper.poll_block_announce_validation());
    assert!(helper.get_events().is_empty());
    assert!(helper.poll_block_announce_validation());
    let events = helper.get_events();
    assert_eq!(events.len(), 1);
    assert!(matches!(
        &events[0],
        CustomMessageOutcome::BlockRequest { target, pending_response, .. }
            if *target == peer(1) && *pending_response == (ReplySlot { id: 0 })
    ));
    assert!(!helper.poll_block_announce_validation());
    assert!(helper.get_events().is_empty());
}

use peer_sync::admission::{
    Admission, GenericMessage, ReceivedHandshake, StatusMessage, LIGHT_MAXIMAL_BLOCKS_DIFFERENCE,
};
use peer_sync::handshake::BlockAnnouncesHandshake;
use peer_sync::helper::SyncingHelper;
use peer_sync::outcome::{CustomMessageOutcome, PeerAction, PeerEffect, ReplySlot};
use peer_sync::primitives::{
    BlockHash, PeerId, Roles, ROLE_AUTHORITY, ROLE_FULL, ROLE_LIGHT,
};
use peer_sync::reputation::{ReputationChange, FATAL};
use peer_sync::scripted::{CallKind, ScriptedSync};
use peer_sync::sync_types::{
    BlockAttributes, BlockOrigin, BlockRequest, Direction, FromBlock, IncomingBlock, OnBlockData,
    OpaqueBlockRequest,
};

fn hash(byte: u8) -> BlockHash {
    BlockHash { bytes: [byte; 32] }
}

fn peer(id: u64) -> PeerId {
    PeerId::from_bytes(&id.to_be_bytes().to_vec()).unwrap()
}

fn handshake(roles: u8, genesis: u8, best_number: u64) -> BlockAnnouncesHandshake {
    BlockAnnouncesHandshake {
        roles: Roles { bits: roles },
        best_number,
        best_hash: hash(7),
        genesis_hash: hash(genesis),
    }
}

fn helper_with(
    roles: u8,
    no_slot: Vec<PeerId>,
    full: usize,
    light: usize,
) -> SyncingHelper<ScriptedSync> {
    SyncingHelper::new(ScriptedSync::new(), 4, hash(1), Roles { bits: roles }, &no_slot, full, light)
}

fn full_count(helper: &SyncingHelper<ScriptedSync>) -> usize {
    helper.get_peers().iter().filter(|(_, p)| p.info.roles.is_full()).count()
}

fn request(id: u64) -> BlockRequest {
    BlockRequest {
        id,
        fields: BlockAttributes { bits: 3 },
        from: FromBlock::Number(5),
        direction: Direction::Ascending,
        max: Some(8),
    }
}

#[test]
fn roles_are_full_or_light() {
    assert!(Roles { bits: ROLE_FULL }.is_full());
    assert!(Roles { bits: ROLE_AUTHORITY }.is_full());
    assert!(Roles { bits: ROLE_FULL | ROLE_LIGHT }.is_full());
    assert!(Roles { bits: ROLE_LIGHT }.is_light());
    assert!(Roles { bits: 0 }.is_light());
    assert!(!Roles { bits: ROLE_LIGHT }.is_full());
    assert!(!Roles { bits: ROLE_AUTHORITY }.is_light());
}

#[test]
fn every_verdict_has_its_inputs() {
    let mut light = helper_with(ROLE_LIGHT, vec![], 1, 1);
    assert_eq!(light.judge(peer(1), handshake(ROLE_FULL, 9, 10), 0), Admission::GenesisMismatch);
    assert_eq!(light.judge(peer(1), handshake(ROLE_LIGHT, 1, 10), 0), Admission::BadRole);
    assert_eq!(light.judge(peer(1), handshake(ROLE_FULL, 1, 10), 8203), Admission::PeerBehind);
    assert_eq!(light.judge(peer(1), handshake(ROLE_FULL, 1, 10), 8202), Admission::Accepted);
    assert_eq!(light.on_sync_peer_connected(peer(1), handshake(ROLE_FULL, 1, 10), 0), Ok(None));
    assert_eq!(
        light.judge(peer(1), handshake(ROLE_FULL, 9, 10), 0),
        Admission::AlreadyConnected
    );
    assert_eq!(light.judge(peer(2), handshake(ROLE_FULL, 1, 10), 0), Admission::TooManyFull);
    // a mismatch of the chain is found before anything else
    assert_eq!(light.judge(peer(2), handshake(ROLE_LIGHT, 9, 10), 0), Admission::GenesisMismatch);

    let mut full = helper_with(ROLE_FULL, vec![], 1, 1);
    assert_eq!(full.judge(peer(1), handshake(ROLE_LIGHT, 1, 10), 0), Admission::Accepted);
    assert_eq!(full.on_sync_peer_connected(peer(1), handshake(ROLE_LIGHT, 1, 10), 0), Ok(None));
    assert_eq!(full.judge(peer(2), handshake(ROLE_LIGHT, 1, 10), 0), Admission::TooManyLight);
    assert_eq!(full.judge(peer(2), handshake(ROLE_FULL, 1, 10), 1_000_000), Admission::Accepted);
}

#[test]
fn every_verdict_has_its_cost() {
    let fatal = |reason| PeerAction::DisconnectAndReport(ReputationChange { value: FATAL, reason });
    assert_eq!(Admission::AlreadyConnected.cost(), PeerAction::Ignore);
    assert_eq!(Admission::GenesisMismatch.cost(), fatal("Genesis mismatch"));
    assert_eq!(Admission::BadRole.cost(), fatal("Unsupported role"));
    assert_eq!(Admission::PeerBehind.cost(), PeerAction::Disconnect);
    assert_eq!(Admission::TooManyFull.cost(), PeerAction::Disconnect);
    assert_eq!(Admission::TooManyLight.cost(), PeerAction::Disconnect);
    assert_eq!(Admission::Accepted.cost(), PeerAction::Ignore);
}

#[test]
fn genesis_mismatch_is_rejected_and_penalized() {
    let mut helper = helper_with(ROLE_FULL, vec![], 2, 2);
    let r = helper.on_sync_peer_connected(peer(1), handshake(ROLE_FULL, 9, 10), 0);
    assert_eq!(r, Err(()));
    assert_eq!(helper.num_connected_peers(), 0);
    assert!(helper.get_peers().is_empty());
    assert_eq!(
        helper.take_peer_effects(),
        vec![
            PeerEffect::Disconnect(peer(1)),
            PeerEffect::Report(
                peer(1),
                ReputationChange { value: FATAL, reason: "Genesis mismatch" }
            ),
        ]
    );
    assert!(helper.chain_sync.seen.is_empty());
    assert!(helper.get_events().is_empty());
}

#[test]
fn genesis_mismatch_through_the_protocol_gives_no_event() {
    let mut helper = helper_with(ROLE_FULL, vec![], 2, 2);
    let received =
        ReceivedHandshake { legacy: None, bytes: handshake(ROLE_FULL, 9, 10).encode() };
    let events = helper.custom_protocol_open(peer(1), received, 0);
    assert_eq!(events, vec![CustomMessageOutcome::Nothing]);
    assert_eq!(helper.num_connected_peers(), 0);
    assert_eq!(helper.take_peer_effects().len(), 2);
}

#[test]
fn third_light_peer_is_rejected_with_disconnect_only() {
    let mut helper = helper_with(ROLE_FULL, vec![], 2, 2);
    assert_eq!(helper.on_sync_peer_connected(peer(1), handshake(ROLE_LIGHT, 1, 10), 0), Ok(None));
    assert_eq!(helper.on_sync_peer_connected(peer(2), handshake(ROLE_LIGHT, 1, 10), 0), Ok(None));
    assert!(helper.take_peer_effects().is_empty());
    assert_eq!(helper.on_sync_peer_connected(peer(3), handshake(ROLE_LIGHT, 1, 10), 0), Err(()));
    assert_eq!(helper.take_peer_effects(), vec![PeerEffect::Disconnect(peer(3))]);
    assert_eq!(helper.num_connected_peers(), 2);
    assert!(helper.chain_sync.seen.is_empty());
}

#[test]
fn light_node_turns_light_peers_away_as_bad_role() {
    let mut helper = helper_with(ROLE_LIGHT, vec![], 2, 2);
    for id in 1..=3 {
        assert_eq!(
            helper.on_sync_peer_connected(peer(id), handshake(ROLE_LIGHT, 1, 10), 0),
            Err(())
        );
        assert_eq!(
            helper.take_peer_effects(),
            vec![
                PeerEffect::Disconnect(peer(id)),
                PeerEffect::Report(
                    peer(id),
                    ReputationChange { value: FATAL, reason: "Unsupported role" }
                ),
            ]
        );
    }
    assert_eq!(helper.num_connected_peers(), 0);
}

#[test]
fn light_node_turns_away_full_peers_that_are_far_behind() {
    let mut helper = helper_with(ROLE_LIGHT, vec![], 4, 4);
    let local_best = 100_000;
    let at_the_limit = local_best - LIGHT_MAXIMAL_BLOCKS_DIFFERENCE;
    assert_eq!(LIGHT_MAXIMAL_BLOCKS_DIFFERENCE, 8192);
    assert_eq!(
        helper.on_sync_peer_connected(peer(1), handshake(ROLE_FULL, 1, at_the_limit), local_best),
        Ok(None)
    );
    assert_eq!(
        helper.on_sync_peer_connected(
            peer(2),
            handshake(ROLE_FULL, 1, at_the_limit - 1),
            local_best
        ),
        Err(())
    );
    assert_eq!(helper.take_peer_effects(), vec![PeerEffect::Disconnect(peer(2))]);
    assert!(helper.chain_sync.seen.len() == 1);
    // a peer that is ahead is not behind at all
    assert_eq!(
        helper.on_sync_peer_connected(peer(3), handshake(ROLE_FULL, 1, u64::MAX), local_best),
        Ok(None)
    );
    assert_eq!(helper.num_connected_peers(), 2);
}

#[test]
fn full_node_does_not_mind_peers_that_are_behind() {
    let mut helper = helper_with(ROLE_FULL, vec![], 4, 4);
    assert_eq!(
        helper.on_sync_peer_connected(peer(1), handshake(ROLE_FULL, 1, 0), 1_000_000),
        Ok(None)
    );
}

#[test]
fn full_peers_stop_at_the_full_budget() {
    let mut helper = helper_with(ROLE_FULL, vec![], 2, 5);
    assert_eq!(helper.on_sync_peer_connected(peer(1), handshake(ROLE_FULL, 1, 10), 0), Ok(None));
    assert_eq!(
        helper.on_sync_peer_connected(peer(2), handshake(ROLE_AUTHORITY, 1, 10), 0),
        Ok(None)
    );
    assert_eq!(helper.on_sync_peer_connected(peer(3), handshake(ROLE_FULL, 1, 10), 0), Err(()));
    assert_eq!(helper.take_peer_effects(), vec![PeerEffect::Disconnect(peer(3))]);
    assert_eq!(full_count(&helper), 2);
    assert_eq!(helper.chain_sync.registered, vec![peer(1), peer(2)]);
    assert_eq!(helper.chain_sync.seen, vec![CallKind::NewPeer, CallKind::NewPeer]);
    // a light peer still finds room
    assert_eq!(helper.on_sync_peer_connected(peer(4), handshake(ROLE_LIGHT, 1, 10), 0), Ok(None));
    assert_eq!(helper.num_connected_peers(), 3);
}

#[test]
fn zero_budgets_admit_nobody() {
    let mut helper = helper_with(ROLE_FULL, vec![], 0, 0);
    assert_eq!(helper.on_sync_peer_connected(peer(1), handshake(ROLE_FULL, 1, 10), 0), Err(()));
    assert_eq!(helper.on_sync_peer_connected(peer(2), handshake(ROLE_LIGHT, 1, 10), 0), Err(()));
    assert_eq!(
        helper.take_peer_effects(),
        vec![PeerEffect::Disconnect(peer(1)), PeerEffect::Disconnect(peer(2))]
    );
}

#[test]
fn no_slot_peers_do_not_use_up_slots() {
    let mut helper = helper_with(ROLE_FULL, vec![peer(7), peer(8)], 1, 1);
    assert_eq!(helper.on_sync_peer_connected(peer(1), handshake(ROLE_FULL, 1, 10), 0), Ok(None));
    // the budget is used up for ordinary peers, not for the exempt one
    assert_eq!(helper.on_sync_peer_connected(peer(2), handshake(ROLE_FULL, 1, 10), 0), Err(()));
    assert_eq!(helper.on_sync_peer_connected(peer(7), handshake(ROLE_FULL, 1, 10), 0), Ok(None));
    // one exempt peer is connected: the budget is 1 + 1, and two are registered
    assert_eq!(helper.on_sync_peer_connected(peer(3), handshake(ROLE_FULL, 1, 10), 0), Err(()));
    assert_eq!(helper.on_sync_peer_connected(peer(8), handshake(ROLE_FULL, 1, 10), 0), Ok(None));
    assert_eq!(full_count(&helper), 3);
    assert!(helper.default_peers_set_no_slot_connected_peers.contains(&peer(7)));
    assert!(helper.default_peers_set_no_slot_connected_peers.contains(&peer(8)));
    assert_eq!(helper.default_peers_set_no_slot_connected_peers.len(), 2);
    assert!(full_count(&helper) <= 1 + helper.default_peers_set_no_slot_connected_peers.len());
}

#[test]
fn full_peers_stay_within_budget_over_a_long_sequence() {
    let mut helper = helper_with(ROLE_FULL, vec![peer(3), peer(11)], 3, 2);
    for id in 0..20u64 {
        let roles = if id % 3 == 0 { ROLE_LIGHT } else { ROLE_FULL };
        let genesis = if id % 7 == 6 { 9 } else { 1 };
        let _ = helper.on_sync_peer_connected(peer(id), handshake(roles, genesis, 10), 0);
        let exempt = helper.default_peers_set_no_slot_connected_peers.len();
        assert!(full_count(&helper) <= 3 + exempt);
        assert_eq!(helper.chain_sync.registered.len(), full_count(&helper));
    }
    // three slots, and the two exempt peers that are connected: peer 3, which
    // is light, and peer 11, which is full
    assert_eq!(full_count(&helper), 5);
    assert_eq!(helper.default_peers_set_no_slot_connected_peers.len(), 2);
}

#[test]
fn admitted_peer_is_listed_once_until_it_disconnects() {
    let mut helper = helper_with(ROLE_FULL, vec![peer(1)], 2, 2);
    assert_eq!(helper.on_sync_peer_connected(peer(1), handshake(ROLE_FULL, 1, 42), 0), Ok(None));
    assert_eq!(helper.on_sync_peer_connected(peer(2), handshake(ROLE_LIGHT, 1, 10), 0), Ok(None));
    let listed = helper.get_peers();
    assert_eq!(listed.iter().filter(|(id, _)| *id == peer(1)).count(), 1);
    assert_eq!(listed[0].0, peer(1));
    assert_eq!(listed[0].1.info.best_number, 42);
    assert_eq!(listed[0].1.info.best_hash, hash(7));
    assert_eq!(listed[0].1.known_blocks.len(), 0);
    // connecting again changes nothing and costs nothing
    assert_eq!(helper.on_sync_peer_connected(peer(1), handshake(ROLE_FULL, 1, 43), 0), Err(()));
    assert!(helper.take_peer_effects().is_empty());
    assert_eq!(helper.get_peers().len(), 2);
    assert_eq!(helper.get_peers()[0].1.info.best_number, 42);
    assert!(helper.default_peers_set_no_slot_connected_peers.contains(&peer(1)));

    assert_eq!(helper.custom_protocol_close(peer(1)), CustomMessageOutcome::SyncDisconnected(peer(1)));
    assert!(helper.get_peers().iter().all(|(id, _)| *id != peer(1)));
    assert!(!helper.default_peers_set_no_slot_connected_peers.contains(&peer(1)));
    assert_eq!(helper.num_connected_peers(), 1);
    assert_eq!(helper.chain_sync.registered, Vec::<PeerId>::new());
    // a second close finds nobody
    assert_eq!(helper.custom_protocol_close(peer(1)), CustomMessageOutcome::Nothing);
    assert_eq!(helper.on_sync_peer_disconnected(peer(1)), Err(()));
    assert_eq!(
        helper.chain_sync.seen,
        vec![CallKind::NewPeer, CallKind::PeerDisconnected]
    );
}

#[test]
fn disconnect_hands_on_the_blocks_that_became_ready() {
    let mut helper = helper_with(ROLE_FULL, vec![], 2, 2);
    assert_eq!(helper.on_sync_peer_connected(peer(1), handshake(ROLE_FULL, 1, 10), 0), Ok(None));
    let block = IncomingBlock {
        hash: hash(3),
        header: None,
        body: None,
        justifications: None,
        origin: Some(peer(1)),
        skip_execution: false,
    };
    helper.chain_sync.disconnect_answer =
        Some(OnBlockData::Import(BlockOrigin::NetworkInitialSync, vec![block.clone()]));
    assert_eq!(
        helper.on_sync_peer_disconnected(peer(1)),
        Ok(Some(CustomMessageOutcome::BlockImport(BlockOrigin::NetworkInitialSync, vec![block])))
    );
    assert_eq!(helper.num_connected_peers(), 0);
}

#[test]
fn state_machine_may_turn_a_full_peer_down() {
    let mut helper = helper_with(ROLE_FULL, vec![peer(1)], 2, 2);
    let change = ReputationChange { value: -7, reason: "scripted" };
    helper.chain_sync.refuse_new_peers = Some(change);
    assert_eq!(helper.on_sync_peer_connected(peer(1), handshake(ROLE_FULL, 1, 10), 0), Err(()));
    assert_eq!(
        helper.take_peer_effects(),
        vec![PeerEffect::Disconnect(peer(1)), PeerEffect::Report(peer(1), change)]
    );
    assert_eq!(helper.num_connected_peers(), 0);
    assert_eq!(helper.default_peers_set_no_slot_connected_peers.len(), 0);
    // light peers are not registered, so they are not turned down
    assert_eq!(helper.on_sync_peer_connected(peer(2), handshake(ROLE_LIGHT, 1, 10), 0), Ok(None));
    assert_eq!(helper.chain_sync.seen, vec![CallKind::NewPeer]);
}

#[test]
fn first_request_goes_out_with_the_connection() {
    let mut helper = helper_with(ROLE_FULL, vec![], 2, 2);
    helper.chain_sync.first_request = Some(request(1));
    let received = ReceivedHandshake { legacy: None, bytes: handshake(ROLE_FULL, 1, 10).encode() };
    let events = helper.custom_protocol_open(peer(1), received, 0);
    assert_eq!(
        events,
        vec![
            CustomMessageOutcome::BlockRequest {
                target: peer(1),
                request: OpaqueBlockRequest {
                    fields: 3,
                    from: FromBlock::Number(5),
                    direction: Direction::Ascending,
                    max_blocks: 8,
                    support_multiple_justifications: true,
                },
                pending_response: ReplySlot { id: 0 },
            },
            CustomMessageOutcome::SyncConnected(peer(1)),
        ]
    );
    assert!(helper.pending_responses.contains(&ReplySlot { id: 0 }));
    assert_eq!(helper.pending_responses.len(), 1);
    // the events are the answer, they are not queued as well
    assert!(helper.get_events().is_empty());
}

#[test]
fn status_message_wins_over_plain_handshake() {
    let mut helper = helper_with(ROLE_FULL, vec![], 2, 2);
    let status = StatusMessage {
        version: 1,
        min_supported_version: 1,
        roles: Roles { bits: ROLE_LIGHT },
        best_number: 77,
        best_hash: hash(5),
        genesis_hash: hash(1),
        chain_status: vec![],
    };
    let received = ReceivedHandshake {
        legacy: Some(GenericMessage::Status(status)),
        bytes: handshake(ROLE_FULL, 9, 10).encode(),
    };
    assert_eq!(
        helper.custom_protocol_open(peer(1), received, 0),
        vec![CustomMessageOutcome::SyncConnected(peer(1))]
    );
    let listed = helper.get_peers();
    assert_eq!(listed[0].1.info.best_number, 77);
    assert_eq!(listed[0].1.info.best_hash, hash(5));
    assert!(listed[0].1.info.roles.is_light());
}

#[test]
fn handshake_is_read_from_its_bytes() {
    let mut helper = helper_with(ROLE_FULL, vec![], 2, 2);
    let mut bytes = vec![ROLE_LIGHT];
    bytes.extend_from_slice(&[44, 1, 0, 0, 0, 0, 0, 0]);
    bytes.extend_from_slice(&[6; 32]);
    bytes.extend_from_slice(&[1; 32]);
    let received = ReceivedHandshake { legacy: None, bytes };
    assert_eq!(
        helper.custom_protocol_open(peer(1), received, 0),
        vec![CustomMessageOutcome::SyncConnected(peer(1))]
    );
    let listed = helper.get_peers();
    assert_eq!(listed[0].1.info.best_number, 300);
    assert_eq!(listed[0].1.info.best_hash, hash(6));
    assert!(listed[0].1.info.roles.is_light());
}

#[test]
fn bytes_that_are_no_handshake_are_a_violation() {
    let mut helper = helper_with(ROLE_FULL, vec![], 2, 2);
    let bad_message = ReputationChange { value: -4096, reason: "Bad message" };
    let other = ReceivedHandshake {
        legacy: Some(GenericMessage::Other),
        bytes: handshake(ROLE_FULL, 1, 10).encode(),
    };
    assert_eq!(helper.custom_protocol_open(peer(1), other, 0), vec![CustomMessageOutcome::Nothing]);
    let garbage = ReceivedHandshake { legacy: None, bytes: vec![1, 2, 3] };
    assert_eq!(
        helper.custom_protocol_open(peer(2), garbage, 0),
        vec![CustomMessageOutcome::Nothing]
    );
    assert_eq!(
        helper.take_peer_effects(),
        vec![
            PeerEffect::Disconnect(peer(1)),
            PeerEffect::Report(peer(1), bad_message),
            PeerEffect::Disconnect(peer(2)),
            PeerEffect::Report(peer(2), bad_message),
        ]
    );
    assert_eq!(helper.num_connected_peers(), 0);
    assert!(helper.chain_sync.seen.is_empty());
}

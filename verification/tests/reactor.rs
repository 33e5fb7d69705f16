use peer_sync::admission::ReceivedHandshake;
use peer_sync::handshake::BlockAnnouncesHandshake;
use peer_sync::helper::SyncingHelper;
use peer_sync::outcome::{
    Canceled, CustomMessageOutcome, OutboundFailure, PeerEffect, ReplySlot, RequestFailure,
};
use peer_sync::primitives::{BlockHash, PeerId, Roles, ROLE_FULL, ROLE_LIGHT};
use peer_sync::reactor::{ReactorEvent, SyncEvent, SyncReply};
use peer_sync::reputation::{ReputationChange, FATAL};
use peer_sync::scripted::{CallKind, ScriptedSync};
use peer_sync::sync_types::{
    BadPeer, BlockAttributes, BlockImportError, BlockImportResult, BlockImportStatus,
    BlockRequest, Direction, FromBlock, Header, OpaqueBlockRequest, OpaqueStateRequest,
    SyncState, SyncStatus, WarpProofRequest, ATTRIBUTE_JUSTIFICATION,
};
use std::collections::VecDeque;

fn hash(byte: u8) -> BlockHash {
    BlockHash { bytes: [byte; 32] }
}

fn peer(id: u64) -> PeerId {
    PeerId::from_bytes(&id.to_be_bytes().to_vec()).unwrap()
}

fn slot(id: u64) -> ReplySlot {
    ReplySlot { id }
}

fn helper() -> SyncingHelper<ScriptedSync> {
    SyncingHelper::new(ScriptedSync::new(), 4, hash(1), Roles { bits: ROLE_FULL }, &vec![], 5, 5)
}

fn request(id: u64) -> BlockRequest {
    BlockRequest {
        id,
        fields: BlockAttributes { bits: 1 },
        from: FromBlock::Number(id),
        direction: Direction::Ascending,
        max: None,
    }
}

fn opaque(id: u64, fields: u32) -> OpaqueBlockRequest {
    OpaqueBlockRequest {
        fields,
        from: FromBlock::Number(id),
        direction: Direction::Ascending,
        max_blocks: 0,
        support_multiple_justifications: true,
    }
}

fn handshake(roles: u8) -> BlockAnnouncesHandshake {
    BlockAnnouncesHandshake {
        roles: Roles { bits: roles },
        best_number: 3,
        best_hash: hash(3),
        genesis_hash: hash(1),
    }
}

fn slots_of(events: &VecDeque<CustomMessageOutcome>) -> Vec<ReplySlot> {
    let mut slots = vec![];
    for event in events {
        match event {
            CustomMessageOutcome::BlockRequest { pending_response, .. } => {
                slots.push(*pending_response)
            },
            CustomMessageOutcome::StateRequest { pending_response, .. } => {
                slots.push(*pending_response)
            },
            CustomMessageOutcome::WarpSyncRequest { pending_response, .. } => {
                slots.push(*pending_response)
            },
            _ => {},
        }
    }
    slots
}

#[test]
fn tick_sends_two_block_requests_and_one_warp_request() {
    let mut helper = helper();
    helper.chain_sync.due_block_requests = vec![(peer(1), request(10)), (peer(2), request(20))];
    helper.chain_sync.due_warp_sync_request = Some((peer(3), WarpProofRequest { begin: hash(9) }));
    helper.on_tick();
    let events = helper.get_events();
    assert_eq!(
        events,
        vec![
            CustomMessageOutcome::BlockRequest {
                target: peer(1),
                request: opaque(10, 1),
                pending_response: slot(0),
            },
            CustomMessageOutcome::BlockRequest {
                target: peer(2),
                request: opaque(20, 1),
                pending_response: slot(1),
            },
            CustomMessageOutcome::WarpSyncRequest {
                target: peer(3),
                request: WarpProofRequest { begin: hash(9) },
                pending_response: slot(2),
            },
        ]
    );
    let slots = slots_of(&events);
    assert_eq!(slots.len(), 3);
    assert!(slots[0] != slots[1] && slots[1] != slots[2] && slots[0] != slots[2]);
    assert_eq!(helper.pending_responses.len(), 3);
    assert_eq!(
        helper.chain_sync.seen,
        vec![
            CallKind::BlockRequests,
            CallKind::StateRequest,
            CallKind::JustificationRequests,
            CallKind::WarpSyncRequest,
        ]
    );
}

#[test]
fn tick_sends_every_kind_in_order() {
    let mut helper = helper();
    let state = OpaqueStateRequest { block: hash(4), start: vec![1, 2], no_proof: false };
    helper.chain_sync.due_block_requests = vec![(peer(1), request(10))];
    helper.chain_sync.due_state_request = Some((peer(2), state.clone()));
    helper.chain_sync.due_justification_requests = vec![(
        peer(3),
        BlockRequest { fields: BlockAttributes { bits: ATTRIBUTE_JUSTIFICATION }, ..request(30) },
    )];
    helper.chain_sync.due_warp_sync_request = Some((peer(4), WarpProofRequest { begin: hash(9) }));
    assert_eq!(helper.react(ReactorEvent::Tick).is_none(), true);
    let events = helper.get_events();
    assert_eq!(
        events,
        vec![
            CustomMessageOutcome::BlockRequest {
                target: peer(1),
                request: opaque(10, 1),
                pending_response: slot(0),
            },
            CustomMessageOutcome::StateRequest {
                target: peer(2),
                request: state,
                pending_response: slot(1),
            },
            CustomMessageOutcome::BlockRequest {
                target: peer(3),
                request: opaque(30, 16),
                pending_response: slot(2),
            },
            CustomMessageOutcome::WarpSyncRequest {
                target: peer(4),
                request: WarpProofRequest { begin: hash(9) },
                pending_response: slot(3),
            },
        ]
    );
}

#[test]
fn tick_with_nothing_due_sends_nothing() {
    let mut helper = helper();
    helper.on_tick();
    assert!(helper.get_events().is_empty());
    assert_eq!(helper.pending_responses.len(), 0);
    assert_eq!(helper.chain_sync.seen.len(), 4);
    // what was due once is not due again
    helper.chain_sync.due_block_requests = vec![(peer(1), request(10))];
    helper.on_tick();
    helper.on_tick();
    assert_eq!(helper.get_events().len(), 1);
}

#[test]
fn events_come_out_in_the_order_in_which_they_went_in() {
    let mut helper = helper();
    helper.chain_sync.due_block_requests = vec![(peer(1), request(10))];
    helper.on_tick();
    helper.handle_pending_response(slot(0), Ok(Ok(vec![1])));
    helper.chain_sync.due_block_requests = vec![(peer(2), request(20))];
    helper.on_tick();
    let events = match helper.handle_command(SyncEvent::GetEvents) {
        SyncReply::Events(events) => events,
        other => panic!("unexpected reply {:?}", other),
    };
    assert_eq!(
        events,
        vec![
            CustomMessageOutcome::BlockRequest {
                target: peer(1),
                request: opaque(10, 1),
                pending_response: slot(0),
            },
            CustomMessageOutcome::Nothing,
            CustomMessageOutcome::BlockRequest {
                target: peer(2),
                request: opaque(20, 1),
                pending_response: slot(1),
            },
        ]
    );
    assert!(helper.get_events().is_empty());
}

#[test]
fn queries_answer_from_the_table_and_the_state_machine() {
    let mut helper = helper();
    helper.chain_sync.best_seen_block = Some(55);
    helper.chain_sync.queued_blocks = 6;
    helper.chain_sync.downloaded_blocks = 7;
    helper.chain_sync.sync_requests = 8;
    assert_eq!(helper.on_sync_peer_connected(peer(1), handshake(ROLE_FULL), 0), Ok(None));
    assert_eq!(helper.on_sync_peer_connected(peer(2), handshake(ROLE_LIGHT), 0), Ok(None));
    assert!(matches!(helper.handle_command(SyncEvent::NumConnectedPeers), SyncReply::Count(2)));
    assert!(matches!(helper.handle_command(SyncEvent::NumSyncPeers), SyncReply::Number(1)));
    assert!(matches!(helper.handle_command(SyncEvent::NumQueuedBlocks), SyncReply::Number(6)));
    assert!(matches!(helper.handle_command(SyncEvent::NumDownloadedBlocks), SyncReply::Count(7)));
    assert!(matches!(helper.handle_command(SyncEvent::NumSyncRequests), SyncReply::Count(8)));
    assert!(matches!(
        helper.handle_command(SyncEvent::BestSeenBlock),
        SyncReply::BestSeenBlock(Some(55))
    ));
    match helper.handle_command(SyncEvent::SyncState) {
        SyncReply::Status(status) => assert_eq!(
            status,
            SyncStatus {
                state: SyncState::Downloading,
                best_seen_block: Some(55),
                num_peers: 1,
                queued_blocks: 6,
            }
        ),
        other => panic!("unexpected reply {:?}", other),
    }
    match helper.handle_command(SyncEvent::GetPeers) {
        SyncReply::Peers(list) => {
            assert_eq!(list.len(), 2);
            assert_eq!(list[0].0, peer(1));
            assert_eq!(list[1].0, peer(2));
            assert!(list[1].1.info.roles.is_light());
        },
        other => panic!("unexpected reply {:?}", other),
    }
    assert_eq!(helper.best_seen_block(), Some(55));
    assert_eq!(helper.num_sync_peers(), 1);
    assert_eq!(helper.status().queued_blocks, 6);
}

#[test]
fn notices_are_passed_on_to_the_state_machine() {
    let mut helper = helper();
    let header = Header { number: 9, hash: hash(9), encoded: vec![] };
    assert!(matches!(
        helper.handle_command(SyncEvent::UpdateChainInfo(hash(2), 2)),
        SyncReply::Done
    ));
    assert!(matches!(
        helper.handle_command(SyncEvent::OnBlockFinalized(hash(9), header)),
        SyncReply::Done
    ));
    assert!(matches!(
        helper.handle_command(SyncEvent::RequestJustification(hash(3), 3)),
        SyncReply::Done
    ));
    assert!(matches!(
        helper.handle_command(SyncEvent::ClearJustificationRequests),
        SyncReply::Done
    ));
    assert!(matches!(
        helper.handle_command(SyncEvent::SetSyncForkRequest(vec![peer(1)], hash(4), 4)),
        SyncReply::Done
    ));
    assert_eq!(
        helper.chain_sync.seen,
        vec![
            CallKind::UpdateChainInfo,
            CallKind::OnBlockFinalized,
            CallKind::RequestJustification,
            CallKind::ClearJustificationRequests,
            CallKind::SetSyncForkRequest,
        ]
    );
    assert!(helper.take_peer_effects().is_empty());
    assert!(helper.get_events().is_empty());
}

#[test]
fn failed_justification_import_bans_the_peer() {
    let mut helper = helper();
    helper.handle_command(SyncEvent::JustificationImportResult(peer(1), hash(2), 2, true));
    assert!(helper.take_peer_effects().is_empty());
    helper.handle_command(SyncEvent::JustificationImportResult(peer(1), hash(2), 2, false));
    assert_eq!(
        helper.take_peer_effects(),
        vec![
            PeerEffect::Disconnect(peer(1)),
            PeerEffect::Report(
                peer(1),
                ReputationChange { value: FATAL, reason: "Invalid justification" }
            ),
        ]
    );
    assert_eq!(
        helper.chain_sync.seen,
        vec![CallKind::OnJustificationImport, CallKind::OnJustificationImport]
    );
}

#[test]
fn processed_blocks_lead_to_requests_and_penalties() {
    let mut helper = helper();
    let change = ReputationChange { value: -3, reason: "scripted" };
    helper.chain_sync.processed_answers = vec![
        Ok((peer(1), request(10))),
        Err(BadPeer(peer(2), change)),
        Ok((peer(3), request(30))),
    ];
    let results = vec![
        BlockImportResult {
            hash: hash(1),
            outcome: Ok(BlockImportStatus::ImportedUnknown(1, Some(peer(1)))),
        },
        BlockImportResult { hash: hash(2), outcome: Err(BlockImportError::BadBlock(Some(peer(2)))) },
    ];
    let reply = helper.handle_command(SyncEvent::OnBlocksProcessed(1, 2, results));
    match reply {
        SyncReply::Events(events) => assert_eq!(
            events,
            vec![
                CustomMessageOutcome::BlockRequest {
                    target: peer(1),
                    request: opaque(10, 1),
                    pending_response: slot(0),
                },
                CustomMessageOutcome::BlockRequest {
                    target: peer(3),
                    request: opaque(30, 1),
                    pending_response: slot(1),
                },
            ]
        ),
        other => panic!("unexpected reply {:?}", other),
    }
    assert_eq!(
        helper.take_peer_effects(),
        vec![PeerEffect::Disconnect(peer(2)), PeerEffect::Report(peer(2), change)]
    );
    assert_eq!(helper.pending_responses.len(), 2);
    assert!(helper.get_events().is_empty());
}

#[test]
fn requests_are_encoded_by_the_state_machine() {
    let mut helper = helper();
    let descending = OpaqueBlockRequest { direction: Direction::Descending, ..opaque(1, 1) };
    match helper.handle_command(SyncEvent::EncodeBlockRequest(descending)) {
        SyncReply::Encoded(bytes) => assert_eq!(bytes, Ok(vec![1, 1])),
        other => panic!("unexpected reply {:?}", other),
    }
    assert_eq!(helper.encode_block_request(&opaque(1, 1)), Ok(vec![0, 1]));
    let state = OpaqueStateRequest { block: hash(4), start: vec![4, 5, 6], no_proof: false };
    match helper.handle_command(SyncEvent::EncodeStateRequest(state)) {
        SyncReply::Encoded(bytes) => assert_eq!(bytes, Ok(vec![4, 5, 6])),
        other => panic!("unexpected reply {:?}", other),
    }
}

#[test]
fn protocol_commands_open_and_close_connections() {
    let mut helper = helper();
    let received = ReceivedHandshake { legacy: None, bytes: handshake(ROLE_FULL).encode() };
    match helper.handle_command(SyncEvent::CustomProtocolOpen(peer(1), received, 0)) {
        SyncReply::Events(events) => {
            assert_eq!(events, vec![CustomMessageOutcome::SyncConnected(peer(1))])
        },
        other => panic!("unexpected reply {:?}", other),
    }
    match helper.handle_command(SyncEvent::CustomProtocolClosed(peer(1))) {
        SyncReply::Event(event) => {
            assert_eq!(event, CustomMessageOutcome::SyncDisconnected(peer(1)))
        },
        other => panic!("unexpected reply {:?}", other),
    }
    match helper.handle_command(SyncEvent::CustomProtocolClosed(peer(1))) {
        SyncReply::Event(event) => assert_eq!(event, CustomMessageOutcome::Nothing),
        other => panic!("unexpected reply {:?}", other),
    }
}

#[test]
fn reactor_serves_commands_answers_and_ticks() {
    let mut helper = helper();
    helper.chain_sync.due_block_requests = vec![(peer(1), request(10))];
    assert!(helper.react(ReactorEvent::Tick).is_none());
    assert!(helper
        .react(ReactorEvent::Response(
            slot(0),
            Ok(Err(RequestFailure::Network(OutboundFailure::DialFailure)))
        ))
        .is_none());
    assert!(helper.react(ReactorEvent::Response(slot(0), Err(Canceled))).is_none());
    assert_eq!(helper.take_peer_effects(), vec![PeerEffect::Disconnect(peer(1))]);
    assert!(matches!(
        helper.react(ReactorEvent::Command(SyncEvent::NumConnectedPeers)),
        Some(SyncReply::Count(0))
    ));
    match helper.react(ReactorEvent::Command(SyncEvent::GetEvents)) {
        Some(SyncReply::Events(events)) => assert_eq!(events.len(), 1),
        other => panic!("unexpected reply {:?}", other),
    }
}

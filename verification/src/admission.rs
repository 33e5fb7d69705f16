//! Admission of peers: which handshakes are accepted, what a rejection costs
//! the peer, and how a peer enters and leaves the table.

use crate::chain_sync::{Call, ChainSync};
use crate::dispatch::block_request_event;
use crate::handshake::{decoded_handshake, BlockAnnouncesHandshake};
use crate::helper::{HelperState, SyncingHelper};
use crate::outcome::{CustomMessageOutcome, PeerAction, PeerRequest};
use crate::peers::{fresh_peer, Peer, PeerInfo};
use crate::primitives::{BlockHash, BlockNumber, Key, PeerId, Roles};
use crate::reputation::{bad_message, bad_role, genesis_mismatch, ReputationChange};
use crate::sync_types::{BadPeer, BlockRequest, OnBlockData};
use std::collections::VecDeque;
use vstd::prelude::*;

verus! {

/// Largest distance, in blocks, that a full peer may trail a light node's
/// own best block and still be accepted.
pub const LIGHT_MAXIMAL_BLOCKS_DIFFERENCE: u64 = 8192;

/// The status message with which older peers present themselves.
#[derive(Clone, Debug, PartialEq, Eq)]
pub struct StatusMessage {
    pub version: u32,
    pub min_supported_version: u32,
    pub roles: Roles,
    pub best_number: BlockNumber,
    pub best_hash: BlockHash,
    pub genesis_hash: BlockHash,
    pub chain_status: Vec<u8>,
}

/// A message of the older protocol, as far as the handshake cares.
#[derive(Clone, Debug, PartialEq, Eq)]
pub enum GenericMessage {
    /// The peer presents itself.
    Status(StatusMessage),
    /// Any other message.
    Other,
}

/// What a peer sent as its handshake: the bytes, and their reading as a
/// message of the older protocol, if they are one.
#[derive(Clone, Debug, PartialEq, Eq)]
pub struct ReceivedHandshake {
    pub legacy: Option<GenericMessage>,
    pub bytes: Vec<u8>,
}

/// The handshake that the received bytes stand for: a status message of
/// the older protocol wins; any other message of it is not a handshake;
/// bytes that are no such message count as a handshake if they are the
/// bytes of one.
pub open spec fn handshake_of(received: ReceivedHandshake) -> Option<BlockAnnouncesHandshake> {
    match received.legacy {
        Some(GenericMessage::Status(status)) => Some(
            BlockAnnouncesHandshake {
                roles: status.roles,
                best_number: status.best_number,
                best_hash: status.best_hash,
                genesis_hash: status.genesis_hash,
            },
        ),
        Some(GenericMessage::Other) => None,
        None => decoded_handshake(received.bytes@),
    }
}

/// The verdict on a handshake.
#[derive(Clone, Copy, Debug, PartialEq, Eq, Structural)]
pub enum Admission {
    /// The peer is in the table already.
    AlreadyConnected,
    /// The peer is on another chain.
    GenesisMismatch,
    /// A light node has no use for a light peer.
    BadRole,
    /// A light node has no use for a full peer that is far behind.
    PeerBehind,
    /// All slots for full peers are taken.
    TooManyFull,
    /// All slots for light peers are taken.
    TooManyLight,
    /// The peer may join.
    Accepted,
}

/// How many blocks a peer with best block `peer_best` is behind a node with
/// best block `local_best`; zero if it is ahead.
pub open spec fn blocks_behind(local_best: BlockNumber, peer_best: BlockNumber) -> int {
    if local_best >= peer_best {
        local_best - peer_best
    } else {
        0
    }
}

/// The number of full peers that may be registered with the state machine
/// when `who` asks to join: the slots for full peers, one more for each
/// connected no-slot peer, and one more if `who` is a no-slot peer itself.
pub open spec fn full_budget(s: HelperState, who: PeerId) -> int {
    s.num_full + s.no_slot_connected.len() + (if s.no_slot_peers.contains(who) {
        1int
    } else {
        0int
    })
}

/// The verdict on the handshake `status` of `who`, when the local best
/// block is `local_best` and the state machine keeps `registered` peers.
pub open spec fn admission(
    s: HelperState,
    who: PeerId,
    status: BlockAnnouncesHandshake,
    local_best: BlockNumber,
    registered: usize,
) -> Admission {
    if s.peers.dom().contains(who) {
        Admission::AlreadyConnected
    } else if status.genesis_hash != s.genesis_hash {
        Admission::GenesisMismatch
    } else if s.roles.is_light() && status.roles.is_light() {
        Admission::BadRole
    } else if s.roles.is_light() && blocks_behind(local_best, status.best_number)
        > LIGHT_MAXIMAL_BLOCKS_DIFFERENCE {
        Admission::PeerBehind
    } else if status.roles.is_full() && registered >= full_budget(s, who) {
        Admission::TooManyFull
    } else if status.roles.is_light() && s.peers.dom().len() - registered >= s.num_light {
        Admission::TooManyLight
    } else {
        Admission::Accepted
    }
}

impl Admission {
    /// What the verdict costs the peer.
    pub fn cost(self) -> (action: PeerAction)
        ensures
            action == rejection_action(self),
    {
        match self {
            Admission::AlreadyConnected => PeerAction::Ignore,
            Admission::GenesisMismatch => PeerAction::DisconnectAndReport(
                ReputationChange::genesis_mismatch(),
            ),
            Admission::BadRole => PeerAction::DisconnectAndReport(ReputationChange::bad_role()),
            Admission::PeerBehind => PeerAction::Disconnect,
            Admission::TooManyFull => PeerAction::Disconnect,
            Admission::TooManyLight => PeerAction::Disconnect,
            Admission::Accepted => PeerAction::Ignore,
        }
    }
}

/// Whether judging the handshake `status` of `who` leads to a call to the
/// state machine: only a full peer that is accepted is registered with it.
pub open spec fn registers(
    s: HelperState,
    who: PeerId,
    status: BlockAnnouncesHandshake,
    local_best: BlockNumber,
    registered: usize,
) -> bool {
    admission(s, who, status, local_best, registered) == Admission::Accepted
        && status.roles.is_full()
}

/// What a verdict costs the peer.
pub open spec fn rejection_action(verdict: Admission) -> PeerAction {
    match verdict {
        Admission::AlreadyConnected => PeerAction::Ignore,
        Admission::GenesisMismatch => PeerAction::DisconnectAndReport(genesis_mismatch()),
        Admission::BadRole => PeerAction::DisconnectAndReport(bad_role()),
        Admission::PeerBehind => PeerAction::Disconnect,
        Admission::TooManyFull => PeerAction::Disconnect,
        Admission::TooManyLight => PeerAction::Disconnect,
        Admission::Accepted => PeerAction::Ignore,
    }
}

/// What the table keeps of a handshake.
pub open spec fn info_of(status: BlockAnnouncesHandshake) -> PeerInfo {
    PeerInfo { roles: status.roles, best_hash: status.best_hash, best_number: status.best_number }
}

impl HelperState {
    /// The state after `who` has joined with the handshake `status`.
    pub open spec fn admitted(self, who: PeerId, status: BlockAnnouncesHandshake) -> HelperState {
        HelperState {
            peers: self.peers.insert(who, fresh_peer(info_of(status))),
            no_slot_connected: if self.no_slot_peers.contains(who) {
                self.no_slot_connected.insert(who)
            } else {
                self.no_slot_connected
            },
            ..self
        }
    }

    /// The state after `who` has left.
    pub open spec fn disconnected(self, who: PeerId) -> HelperState {
        HelperState {
            peers: self.peers.remove(who),
            no_slot_connected: self.no_slot_connected.remove(who),
            ..self
        }
    }
}

/// State and result after the state machine has answered to the
/// registration of the full peer `who`: a peer that it turns down is
/// disconnected and reported and does not join; otherwise the peer joins,
/// and a first request goes out to it if the answer holds one.
pub open spec fn after_registration<C: ChainSync>(
    s: HelperState,
    who: PeerId,
    status: BlockAnnouncesHandshake,
    answer: Result<Option<BlockRequest>, BadPeer>,
) -> (HelperState, Result<Option<CustomMessageOutcome>, ()>) {
    match answer {
        Err(BadPeer(id, change)) => (
            s.with_action(id, PeerAction::DisconnectAndReport(change)),
            Err(()),
        ),
        Ok(None) => (s.admitted(who, status), Ok(None)),
        Ok(Some(request)) => (
            s.admitted(who, status).dispatched(who, PeerRequest::Block(request)),
            Ok(Some(block_request_event::<C>(s.admitted(who, status), who, request))),
        ),
    }
}

/// What holds after the handshake `status` of `who` was judged. A
/// rejection costs the peer what its verdict says and changes nothing
/// else. An accepted light peer joins. An accepted full peer is registered
/// with the state machine, whose answer decides.
pub open spec fn peer_connected_post<C: ChainSync>(
    pre: HelperState,
    registered: usize,
    who: PeerId,
    status: BlockAnnouncesHandshake,
    local_best: BlockNumber,
    post: HelperState,
    r: Result<Option<CustomMessageOutcome>, ()>,
) -> bool {
    let verdict = admission(pre, who, status, local_best, registered);
    if verdict != Admission::Accepted {
        r == Err::<Option<CustomMessageOutcome>, ()>(()) && post == pre.with_action(
            who,
            rejection_action(verdict),
        )
    } else if !status.roles.is_full() {
        r == Ok::<Option<CustomMessageOutcome>, ()>(None) && post == pre.admitted(who, status)
    } else {
        exists|answer: Result<Option<BlockRequest>, BadPeer>|
            (post, r) == #[trigger] after_registration::<C>(
                pre.with_call(Call::NewPeer(who, status.best_hash, status.best_number, answer)),
                who,
                status,
                answer,
            )
    }
}

/// The event that a disconnect brings, if any: blocks that became ready
/// for import.
pub open spec fn import_event(answer: Option<OnBlockData>) -> Option<CustomMessageOutcome> {
    match answer {
        Some(OnBlockData::Import(origin, blocks)) => Some(
            CustomMessageOutcome::BlockImport(origin, blocks),
        ),
        _ => None,
    }
}

/// What holds after `who` was reported to have disconnected: a peer that
/// is not in the table is unknown and nothing happens; otherwise it leaves
/// the table and the connected no-slot peers, and the state machine is
/// told.
pub open spec fn peer_disconnected_post(
    pre: HelperState,
    who: PeerId,
    post: HelperState,
    r: Result<Option<CustomMessageOutcome>, ()>,
) -> bool {
    if !pre.peers.dom().contains(who) {
        r == Err::<Option<CustomMessageOutcome>, ()>(()) && post == pre
    } else {
        exists|answer: Option<OnBlockData>|
            post == #[trigger] pre.disconnected(who).with_call(
                Call::PeerDisconnected(who, answer),
            ) && r == Ok::<Option<CustomMessageOutcome>, ()>(import_event(answer))
    }
}

/// The events with which an opened protocol is answered.
pub open spec fn open_events(
    who: PeerId,
    r: Result<Option<CustomMessageOutcome>, ()>,
) -> Seq<CustomMessageOutcome> {
    match r {
        Ok(Some(inner)) => seq![inner, CustomMessageOutcome::SyncConnected(who)],
        Ok(None) => seq![CustomMessageOutcome::SyncConnected(who)],
        Err(_) => seq![CustomMessageOutcome::Nothing],
    }
}

/// Whether opening the protocol to `who` leads to a call to the state
/// machine: it does when the received bytes stand for the handshake of a
/// full peer that is accepted.
pub open spec fn open_registers(
    s: HelperState,
    who: PeerId,
    received: ReceivedHandshake,
    local_best: BlockNumber,
    registered: usize,
) -> bool {
    handshake_of(received) matches Some(status) && registers(
        s,
        who,
        status,
        local_best,
        registered,
    )
}

/// What holds after the protocol to `who` has opened with the handshake
/// bytes read as `received`. Bytes that are no handshake are a protocol
/// violation. Otherwise the handshake is judged.
pub open spec fn protocol_open_post<C: ChainSync>(
    pre: HelperState,
    registered: usize,
    who: PeerId,
    received: ReceivedHandshake,
    local_best: BlockNumber,
    post: HelperState,
    events: Seq<CustomMessageOutcome>,
) -> bool {
    match handshake_of(received) {
        None => post == pre.with_action(who, PeerAction::DisconnectAndReport(bad_message()))
            && events == seq![CustomMessageOutcome::Nothing],
        Some(status) => exists|r: Result<Option<CustomMessageOutcome>, ()>|
            #[trigger] peer_connected_post::<C>(pre, registered, who, status, local_best, post, r)
                && events == open_events(who, r),
    }
}

/// What holds after the protocol to `who` has closed.
pub open spec fn protocol_close_post(
    pre: HelperState,
    who: PeerId,
    post: HelperState,
    event: CustomMessageOutcome,
) -> bool {
    if pre.peers.dom().contains(who) {
        event == CustomMessageOutcome::SyncDisconnected(who) && exists|
            answer: Option<OnBlockData>,
        |
            post == #[trigger] pre.disconnected(who).with_call(
                Call::PeerDisconnected(who, answer),
            )
    } else {
        post == pre && event == CustomMessageOutcome::Nothing
    }
}

impl<C: ChainSync> SyncingHelper<C> {
    /// The verdict on the handshake `status` of `who`, given the number of
    /// the local best block.
    pub fn judge(&self, who: PeerId, status: BlockAnnouncesHandshake, local_best: BlockNumber) -> (verdict:
        Admission)
        requires
            self.wf(),
        ensures
            verdict == admission(self@, who, status, local_best, self.chain_sync.num_peers_spec()),
    {
        if self.peers.contains_key(&who) {
            return Admission::AlreadyConnected;
        }
        if !status.genesis_hash.same(&self.genesis_hash) {
            return Admission::GenesisMismatch;
        }
        if self.roles.is_light() {
            if status.roles.is_light() {
                return Admission::BadRole;
            }
            let blocks_difference: u64 = if local_best >= status.best_number {
                local_best - status.best_number
            } else {
                0
            };
            if blocks_difference > LIGHT_MAXIMAL_BLOCKS_DIFFERENCE {
                return Admission::PeerBehind;
            }
        }
        let this_peer_reserved_slot: u128 = if self.default_peers_set_no_slot_peers.contains(
            &who,
        ) {
            1
        } else {
            0
        };
        let num_peers = self.chain_sync.num_peers();
        let no_slot_connected = self.default_peers_set_no_slot_connected_peers.len();
        if status.roles.is_full() && num_peers as u128 >= self.default_peers_set_num_full as u128
            + no_slot_connected as u128 + this_peer_reserved_slot {
            return Admission::TooManyFull;
        }
        if status.roles.is_light() && self.peers.len() as u128
            >= self.default_peers_set_num_light as u128 + num_peers as u128 {
            return Admission::TooManyLight;
        }
        Admission::Accepted
    }

    /// Judges the handshake `status` of `who`, given the number of the
    /// local best block, and lets the peer join if it is accepted.
    pub fn on_sync_peer_connected(
        &mut self,
        who: PeerId,
        status: BlockAnnouncesHandshake,
        local_best: BlockNumber,
    ) -> (r: Result<Option<CustomMessageOutcome>, ()>)
        requires
            old(self).wf(),
        ensures
            final(self).wf(),
            peer_connected_post::<C>(
                old(self)@,
                old(self).chain_sync.num_peers_spec(),
                who,
                status,
                local_best,
                final(self)@,
                r,
            ),
            r is Ok <==> final(self)@.peers.dom().contains(who) && !old(self)@.peers.dom().contains(
                who,
            ),
            !registers(
                old(self)@,
                who,
                status,
                local_best,
                old(self).chain_sync.num_peers_spec(),
            ) ==> final(self).chain_sync == old(self).chain_sync,
    {
        let ghost pre = self@;
        let ghost registered = self.chain_sync.num_peers_spec();
        let verdict = self.judge(who, status, local_best);
        if verdict != Admission::Accepted {
            self.apply_action(who, verdict.cost());
            return Err(());
        }
        let no_slot_peer = self.default_peers_set_no_slot_peers.contains(&who);
        assert(admission(pre, who, status, local_best, registered) == Admission::Accepted);
        let peer = Peer::new(
            PeerInfo {
                roles: status.roles,
                best_hash: status.best_hash,
                best_number: status.best_number,
            },
        );
        let ghost answer: Result<Option<BlockRequest>, BadPeer> = Ok(None);
        let req = if peer.info.roles.is_full() {
            let given = self.chain_sync.new_peer(who, peer.info.best_hash, peer.info.best_number);
            proof {
                answer = given;
            }
            match given {
                Ok(req) => req,
                Err(BadPeer(id, repu)) => {
                    self.disconnect_and_report_peer(id, repu);
                    proof {
                        assert((self@, Err::<Option<CustomMessageOutcome>, ()>(()))
                            == after_registration::<C>(
                            pre.with_call(
                                Call::NewPeer(who, status.best_hash, status.best_number, answer),
                            ),
                            who,
                            status,
                            answer,
                        ));
                    }
                    return Err(());
                },
            }
        } else {
            None
        };
        let ghost called = self@;
        self.peers.insert(who, peer);
        if no_slot_peer {
            self.default_peers_set_no_slot_connected_peers.insert(who);
        }
        proof {
            self.default_peers_set_no_slot_connected_peers.lemma_finite();
            self.peers.lemma_order();
            assert(self@ =~= called.admitted(who, status));
        }
        if let Some(req) = req {
            let event = self.prepare_block_request(who, req);
            proof {
                assert((self@, Ok::<Option<CustomMessageOutcome>, ()>(Some(event)))
                    == after_registration::<C>(
                    pre.with_call(
                        Call::NewPeer(who, status.best_hash, status.best_number, answer),
                    ),
                    who,
                    status,
                    answer,
                ));
            }
            Ok(Some(event))
        } else {
            proof {
                if status.roles.is_full() {
                    assert((self@, Ok::<Option<CustomMessageOutcome>, ()>(None))
                        == after_registration::<C>(
                        pre.with_call(
                            Call::NewPeer(who, status.best_hash, status.best_number, answer),
                        ),
                        who,
                        status,
                        answer,
                    ));
                }
            }
            Ok(None)
        }
    }

    /// Takes `peer` out of the table when it has disconnected. `Err` if
    /// the peer was never admitted.
    pub fn on_sync_peer_disconnected(&mut self, peer: PeerId) -> (r: Result<
        Option<CustomMessageOutcome>,
        (),
    >)
        requires
            old(self).wf(),
        ensures
            final(self).wf(),
            peer_disconnected_post(old(self)@, peer, final(self)@, r),
            !old(self)@.peers.dom().contains(peer) ==> final(self).chain_sync == old(
                self,
            ).chain_sync,
    {
        match self.peers.remove(&peer) {
            Some(_peer_data) => {
                let answer = self.chain_sync.peer_disconnected(&peer);
                let ghost given = answer;
                let msg = match answer {
                    Some(OnBlockData::Import(origin, blocks)) => Some(
                        CustomMessageOutcome::BlockImport(origin, blocks),
                    ),
                    _ => None,
                };
                self.default_peers_set_no_slot_connected_peers.remove(&peer);
                proof {
                    self.default_peers_set_no_slot_connected_peers.lemma_finite();
                    self.peers.lemma_order();
                    assert(msg == import_event(given));
                    assert(self@ =~= old(self)@.disconnected(peer).with_call(
                        Call::PeerDisconnected(peer, given),
                    ));
                }
                Ok(msg)
            },
            None => {
                proof {
                    assert(self@ =~= old(self)@);
                }
                Err(())
            },
        }
    }

    /// The protocol to `peer` has closed.
    pub fn custom_protocol_close(&mut self, peer: PeerId) -> (event: CustomMessageOutcome)
        requires
            old(self).wf(),
        ensures
            final(self).wf(),
            protocol_close_post(old(self)@, peer, final(self)@, event),
            !old(self)@.peers.dom().contains(peer) ==> final(self).chain_sync == old(
                self,
            ).chain_sync,
    {
        if self.on_sync_peer_disconnected(peer).is_ok() {
            CustomMessageOutcome::SyncDisconnected(peer)
        } else {
            CustomMessageOutcome::Nothing
        }
    }

    /// The protocol to `peer_id` has opened with a handshake whose bytes
    /// were read as `received`; `local_best` is the number of the local
    /// best block.
    pub fn custom_protocol_open(
        &mut self,
        peer_id: PeerId,
        received: ReceivedHandshake,
        local_best: BlockNumber,
    ) -> (events: VecDeque<CustomMessageOutcome>)
        requires
            old(self).wf(),
        ensures
            final(self).wf(),
            protocol_open_post::<C>(
                old(self)@,
                old(self).chain_sync.num_peers_spec(),
                peer_id,
                received,
                local_best,
                final(self)@,
                events@,
            ),
            !open_registers(
                old(self)@,
                peer_id,
                received,
                local_best,
                old(self).chain_sync.num_peers_spec(),
            ) ==> final(self).chain_sync == old(self).chain_sync,
    {
        let ghost pre = self@;
        let ghost registered = self.chain_sync.num_peers_spec();
        let handshake = match received.legacy {
            Some(GenericMessage::Status(status)) => Some(
                BlockAnnouncesHandshake {
                    roles: status.roles,
                    best_number: status.best_number,
                    best_hash: status.best_hash,
                    genesis_hash: status.genesis_hash,
                },
            ),
            Some(GenericMessage::Other) => None,
            None => BlockAnnouncesHandshake::decode_all(&received.bytes),
        };
        let mut events: VecDeque<CustomMessageOutcome> = VecDeque::new();
        match handshake {
            Some(handshake) => {
                let r = self.on_sync_peer_connected(peer_id, handshake, local_best);
                let ghost given = r;
                match r {
                    Ok(Some(inner)) => {
                        events.push_back(inner);
                        events.push_back(CustomMessageOutcome::SyncConnected(peer_id));
                    },
                    Ok(None) => {
                        events.push_back(CustomMessageOutcome::SyncConnected(peer_id));
                    },
                    Err(_) => {
                        events.push_back(CustomMessageOutcome::Nothing);
                    },
                }
                proof {
                    assert(peer_connected_post::<C>(
                        pre,
                        registered,
                        peer_id,
                        handshake,
                        local_best,
                        self@,
                        given,
                    ));
                    assert(events@ =~= open_events(peer_id, given));
                }
            },
            None => {
                self.disconnect_and_report_peer(peer_id, ReputationChange::bad_message());
                events.push_back(CustomMessageOutcome::Nothing);
                proof {
                    assert(events@ =~= seq![CustomMessageOutcome::Nothing]);
                }
            },
        }
        events
    }
}

} // verus!

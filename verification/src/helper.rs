//! The orchestrator's state, and the small operations on it.

use crate::announce_cache::{AnnounceCache, MAX_CACHE_CAPACITY};
use crate::chain_sync::{Call, ChainSync};
use crate::outcome::{
    effects_of, CustomMessageOutcome, PeerAction, PeerEffect, PendingRecord, ReplySlot,
};
use crate::peers::{within_known_limit, PeerSet, PeerTable, PeerView};
use crate::pending::PendingResponses;
use crate::primitives::{BlockHash, PeerId, Roles};
use crate::reputation::ReputationChange;
use std::collections::VecDeque;
use vstd::prelude::*;

verus! {

/// The orchestrator's state as contracts speak of it.
#[verifier::ext_equal]
pub struct HelperState {
    /// Hash of the first block of the local chain.
    pub genesis_hash: BlockHash,
    /// Roles of the local node.
    pub roles: Roles,
    /// Slots for full peers.
    pub num_full: usize,
    /// Slots for light peers.
    pub num_light: usize,
    /// Peers that never take up a slot.
    pub no_slot_peers: Set<PeerId>,
    /// The peers of `no_slot_peers` that are connected.
    pub no_slot_connected: Set<PeerId>,
    /// The connected peers.
    pub peers: Map<PeerId, PeerView>,
    /// The requests in flight.
    pub pending: Map<ReplySlot, PendingRecord>,
    /// The number of the reply slot that is handed out next.
    pub next_slot: u64,
    /// The outcome events that wait to be fetched, oldest first.
    pub events: Seq<CustomMessageOutcome>,
    /// The effects on peers that wait to be fetched, oldest first.
    pub effects: Seq<PeerEffect>,
    /// The cached announcement data, most recently used first.
    pub cache: Seq<([u8; 32], Seq<u8>)>,
    /// The number of announcements that the cache holds at most.
    pub cache_limit: nat,
    /// The calls made to the state machine, oldest first.
    pub calls: Seq<Call>,
}

impl HelperState {
    /// The state with `effects` added to the effects on peers.
    pub open spec fn with_effects(self, effects: Seq<PeerEffect>) -> HelperState {
        HelperState { effects: self.effects + effects, ..self }
    }

    /// The state after `action` was taken on `who`.
    pub open spec fn with_action(self, who: PeerId, action: PeerAction) -> HelperState {
        self.with_effects(effects_of(who, action))
    }

    /// The state with `event` added to the outcome events.
    pub open spec fn with_event(self, event: CustomMessageOutcome) -> HelperState {
        HelperState { events: self.events.push(event), ..self }
    }

    /// The state after `call` was made to the state machine.
    pub open spec fn with_call(self, call: Call) -> HelperState {
        HelperState { calls: self.calls.push(call), ..self }
    }

    /// The no-slot peers that are connected are among the connected peers,
    /// of every peer at most `MAX_KNOWN_BLOCKS` blocks are known, no request
    /// is in flight under a slot that is still to be handed out, and
    /// everything is finite.
    pub open spec fn wf(self) -> bool {
        &&& self.peers.dom().finite()
        &&& forall|who: PeerId| #[trigger]
            self.peers.dom().contains(who) ==> within_known_limit(self.peers[who])
        &&& self.no_slot_connected.finite()
        &&& self.no_slot_connected.subset_of(self.peers.dom())
        &&& self.pending.dom().finite()
        &&& forall|slot: ReplySlot| self.pending.dom().contains(slot) ==> slot.id < self.next_slot
    }
}

/// The peer-synchronisation orchestrator around a state machine `C`.
pub struct SyncingHelper<C: ChainSync> {
    /// The requests in flight.
    pub pending_responses: PendingResponses,
    /// The state machine that plans requests and reads answers. Only full
    /// peers are registered with it.
    pub chain_sync: C,
    /// The data that came with block announcements.
    pub block_announce_data_cache: AnnounceCache,
    /// Hash of the first block of the local chain.
    pub genesis_hash: BlockHash,
    /// The connected peers.
    pub peers: PeerTable,
    /// Roles of the local node.
    pub roles: Roles,
    /// Slots for full peers.
    pub default_peers_set_num_full: usize,
    /// Peers that never take up a slot.
    pub default_peers_set_no_slot_peers: PeerSet,
    /// The no-slot peers that are connected.
    pub default_peers_set_no_slot_connected_peers: PeerSet,
    /// Slots for light peers.
    pub default_peers_set_num_light: usize,
    /// The outcome events that wait to be fetched.
    pub pending_messages: VecDeque<CustomMessageOutcome>,
    /// The effects on peers that wait to be fetched.
    pub peer_effects: Vec<PeerEffect>,
}

impl<C: ChainSync> SyncingHelper<C> {
    pub open spec fn view(&self) -> HelperState {
        HelperState {
            genesis_hash: self.genesis_hash,
            roles: self.roles,
            num_full: self.default_peers_set_num_full,
            num_light: self.default_peers_set_num_light,
            no_slot_peers: self.default_peers_set_no_slot_peers@,
            no_slot_connected: self.default_peers_set_no_slot_connected_peers@,
            peers: self.peers@,
            pending: self.pending_responses@,
            next_slot: self.pending_responses.next_slot(),
            events: self.pending_messages@,
            effects: self.peer_effects@,
            cache: self.block_announce_data_cache@,
            cache_limit: self.block_announce_data_cache.limit(),
            calls: self.chain_sync.history(),
        }
    }

    /// Every part is well-formed, and so is the state as a whole.
    pub open spec fn wf(&self) -> bool {
        &&& self.pending_responses.wf()
        &&& self.peers.wf()
        &&& self.default_peers_set_no_slot_peers.wf()
        &&& self.default_peers_set_no_slot_connected_peers.wf()
        &&& self@.wf()
    }

    /// An orchestrator without peers, requests or events.
    pub fn new(
        chain_sync: C,
        cache_size: usize,
        genesis_hash: BlockHash,
        roles: Roles,
        no_slot_peers: &Vec<PeerId>,
        default_peers_set_num_full: usize,
        default_peers_set_num_light: usize,
    ) -> (helper: Self)
        requires
            cache_size <= MAX_CACHE_CAPACITY,
        ensures
            helper.wf(),
            helper.chain_sync == chain_sync,
            helper@ == (HelperState {
                genesis_hash,
                roles,
                num_full: default_peers_set_num_full,
                num_light: default_peers_set_num_light,
                no_slot_peers: no_slot_peers@.to_set(),
                no_slot_connected: Set::empty(),
                peers: Map::empty(),
                pending: Map::empty(),
                next_slot: 0,
                events: Seq::empty(),
                effects: Seq::empty(),
                cache: Seq::empty(),
                cache_limit: cache_size as nat,
                calls: chain_sync.history(),
            }),
    {
        let helper = SyncingHelper {
            chain_sync,
            pending_responses: PendingResponses::new(),
            block_announce_data_cache: AnnounceCache::new(cache_size),
            genesis_hash,
            roles,
            peers: PeerTable::new(),
            default_peers_set_no_slot_peers: PeerSet::from_list(no_slot_peers),
            default_peers_set_no_slot_connected_peers: PeerSet::new(),
            default_peers_set_num_full,
            default_peers_set_num_light,
            pending_messages: VecDeque::new(),
            peer_effects: Vec::new(),
        };
        proof {
            helper.pending_responses.lemma_slots();
        }
        helper
    }

    /// Asks the network layer to drop the connection to `who`.
    pub fn disconnect_peer(&mut self, who: PeerId)
        ensures
            final(self).wf() == old(self).wf(),
            final(self).chain_sync == old(self).chain_sync,
            final(self)@ == old(self)@.with_action(who, PeerAction::Disconnect),
    {
        self.peer_effects.push(PeerEffect::Disconnect(who));
    }

    /// Asks the network layer to change the reputation of `who`.
    pub fn report_peer(&mut self, who: PeerId, score_diff: ReputationChange)
        ensures
            final(self).wf() == old(self).wf(),
            final(self).chain_sync == old(self).chain_sync,
            final(self)@ == old(self)@.with_action(who, PeerAction::Report(score_diff)),
    {
        self.peer_effects.push(PeerEffect::Report(who, score_diff));
    }

    /// Asks the network layer to drop the connection to `who` and to change
    /// its reputation.
    pub fn disconnect_and_report_peer(&mut self, who: PeerId, score_diff: ReputationChange)
        ensures
            final(self).wf() == old(self).wf(),
            final(self).chain_sync == old(self).chain_sync,
            final(self)@ == old(self)@.with_action(
                who,
                PeerAction::DisconnectAndReport(score_diff),
            ),
    {
        self.disconnect_peer(who);
        self.report_peer(who, score_diff);
    }

    /// Carries out `action` on `who`.
    pub fn apply_action(&mut self, who: PeerId, action: PeerAction)
        ensures
            final(self).wf() == old(self).wf(),
            final(self).chain_sync == old(self).chain_sync,
            final(self)@ == old(self)@.with_action(who, action),
    {
        match action {
            PeerAction::Ignore => {},
            PeerAction::Disconnect => self.disconnect_peer(who),
            PeerAction::DisconnectAndReport(change) => self.disconnect_and_report_peer(
                who,
                change,
            ),
            PeerAction::Report(change) => self.report_peer(who, change),
        }
    }
}

} // verus!

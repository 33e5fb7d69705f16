//! The command surface: what callers may ask of the orchestrator, and what
//! each command does and answers.

use crate::announce_cache::entry_value;
use crate::chain_sync::{encoded_view, Call, ChainSync};
use crate::dispatch::block_request_event;
use crate::helper::{HelperState, SyncingHelper};
use crate::outcome::{CustomMessageOutcome, PeerAction, PeerEffect, PeerRequest};
use crate::peers::Peer;
use crate::primitives::{BlockHash, BlockNumber, PeerId};
use crate::reputation::{invalid_justification, ReputationChange};
use crate::sync_types::{
    BadPeer, BlockImportResult, BlockRequest, Header, OpaqueBlockRequest, OpaqueStateRequest,
    SyncStatus,
};
use std::collections::VecDeque;
use vstd::prelude::*;

verus! {

/// State and events after the state machine has answered to processed
/// blocks: every request in the answer goes out, in order, and every peer
/// that is turned down is disconnected and reported.
pub open spec fn after_blocks_processed<C: ChainSync>(
    s: HelperState,
    answers: Seq<Result<(PeerId, BlockRequest), BadPeer>>,
) -> (HelperState, Seq<CustomMessageOutcome>)
    decreases answers.len(),
{
    if answers.len() == 0 {
        (s, Seq::empty())
    } else {
        let (before, events) = after_blocks_processed::<C>(s, answers.drop_last());
        match answers.last() {
            Ok((id, request)) => (
                before.dispatched(id, PeerRequest::Block(request)),
                events.push(block_request_event::<C>(before, id, request)),
            ),
            Err(BadPeer(id, change)) => (
                before.with_action(id, PeerAction::DisconnectAndReport(change)),
                events,
            ),
        }
    }
}

/// What holds after the import queue's report on processed blocks was
/// handled.
pub open spec fn blocks_processed_post<C: ChainSync>(
    pre: HelperState,
    imported: usize,
    count: usize,
    results: Vec<BlockImportResult>,
    post: HelperState,
    events: Seq<CustomMessageOutcome>,
) -> bool {
    exists|answers: Vec<Result<(PeerId, BlockRequest), BadPeer>>|
        (post, events) == #[trigger] after_blocks_processed::<C>(
            pre.with_call(Call::OnBlocksProcessed(imported, count, results, answers)),
            answers@,
        )
}

/// The state after the import of a justification from `who` was reported:
/// the state machine is told, and a failed import costs the peer.
pub open spec fn after_justification_import(
    pre: HelperState,
    who: PeerId,
    hash: BlockHash,
    number: BlockNumber,
    success: bool,
) -> HelperState {
    let told = pre.with_call(Call::OnJustificationImport(hash, number, success));
    if success {
        told
    } else {
        told.with_action(who, PeerAction::DisconnectAndReport(invalid_justification()))
    }
}

impl<C: ChainSync> SyncingHelper<C> {
    /// The import of a justification from `who` has ended.
    pub fn justification_import_result(
        &mut self,
        who: PeerId,
        hash: BlockHash,
        number: BlockNumber,
        success: bool,
    )
        ensures
            final(self).wf() == old(self).wf(),
            final(self)@ == after_justification_import(old(self)@, who, hash, number, success),
    {
        self.chain_sync.on_justification_import(hash, number, success);
        if !success {
            self.disconnect_and_report_peer(who, ReputationChange::invalid_justification());
        }
    }

    /// Encodes a block request.
    pub fn encode_block_request(&self, request: &OpaqueBlockRequest) -> (r: Result<Vec<u8>, String>)
        ensures
            encoded_view(r) == C::encoded_block_request_spec(*request),
    {
        self.chain_sync.encode_block_request(request)
    }

    /// Encodes a state request.
    pub fn encode_state_request(&self, request: &OpaqueStateRequest) -> (r: Result<Vec<u8>, String>)
        ensures
            encoded_view(r) == C::encoded_state_request_spec(*request),
    {
        self.chain_sync.encode_state_request(request)
    }

    /// The current state of synchronisation.
    pub fn status(&self) -> (status: SyncStatus)
        ensures
            status == self.chain_sync.status_spec(),
    {
        self.chain_sync.status()
    }

    /// Number of the best block seen on the network.
    pub fn best_seen_block(&self) -> (number: Option<BlockNumber>)
        ensures
            number == self.chain_sync.status_spec().best_seen_block,
    {
        self.chain_sync.status().best_seen_block
    }

    /// Number of peers that take part in synchronisation.
    pub fn num_sync_peers(&self) -> (n: u32)
        ensures
            n == self.chain_sync.status_spec().num_peers,
    {
        self.chain_sync.status().num_peers
    }

    /// Number of blocks in the import queue.
    pub fn num_queued_blocks(&self) -> (n: u32)
        ensures
            n == self.chain_sync.status_spec().queued_blocks,
    {
        self.chain_sync.status().queued_blocks
    }

    /// Number of blocks that have been downloaded.
    pub fn num_downloaded_blocks(&self) -> (n: usize)
        ensures
            n == self.chain_sync.num_downloaded_blocks_spec(),
    {
        self.chain_sync.num_downloaded_blocks()
    }

    /// Number of fork requests that are active.
    pub fn num_sync_requests(&self) -> (n: usize)
        ensures
            n == self.chain_sync.num_sync_requests_spec(),
    {
        self.chain_sync.num_sync_requests()
    }

    /// The local chain has a new best block.
    pub fn update_chain_info(&mut self, hash: BlockHash, number: BlockNumber)
        ensures
            final(self).wf() == old(self).wf(),
            final(self)@ == old(self)@.with_call(Call::UpdateChainInfo(hash, number)),
    {
        self.chain_sync.update_chain_info(&hash, number);
    }

    /// The block with the given hash and header has been finalized.
    pub fn on_block_finalized(&mut self, hash: BlockHash, header: Header)
        ensures
            final(self).wf() == old(self).wf(),
            final(self)@ == old(self)@.with_call(Call::OnBlockFinalized(hash, header.number)),
    {
        self.chain_sync.on_block_finalized(&hash, header.number)
    }

    /// Asks for the justification of a block.
    pub fn request_justification(&mut self, hash: &BlockHash, number: BlockNumber)
        ensures
            final(self).wf() == old(self).wf(),
            final(self)@ == old(self)@.with_call(Call::RequestJustification(*hash, number)),
    {
        self.chain_sync.request_justification(hash, number)
    }

    /// Drops all requests for justifications.
    pub fn clear_justification_requests(&mut self)
        ensures
            final(self).wf() == old(self).wf(),
            final(self)@ == old(self)@.with_call(Call::ClearJustificationRequests),
    {
        self.chain_sync.clear_justification_requests();
    }

    /// Asks for a block of a fork from the given peers.
    pub fn set_sync_fork_request(&mut self, peers: Vec<PeerId>, hash: &BlockHash, number: BlockNumber)
        ensures
            final(self).wf() == old(self).wf(),
            final(self)@ == old(self)@.with_call(Call::SetSyncForkRequest(peers, *hash, number)),
    {
        self.chain_sync.set_sync_fork_request(peers, hash, number)
    }

    /// The import queue has processed blocks.
    pub fn on_blocks_processed(
        &mut self,
        imported: usize,
        count: usize,
        results: Vec<BlockImportResult>,
    ) -> (out: VecDeque<CustomMessageOutcome>)
        requires
            old(self).wf(),
        ensures
            final(self).wf(),
            blocks_processed_post::<C>(old(self)@, imported, count, results, final(self)@, out@),
    {
        let mut out: VecDeque<CustomMessageOutcome> = VecDeque::new();
        let answers = self.chain_sync.on_blocks_processed(imported, count, results);
        let ghost told = self@;
        assert(told == old(self)@.with_call(
            Call::OnBlocksProcessed(imported, count, results, answers),
        ));
        let mut i: usize = 0;
        while i < answers.len()
            invariant
                self.wf(),
                i <= answers@.len(),
                (self@, out@) == after_blocks_processed::<C>(told, answers@.take(i as int)),
            decreases answers@.len() - i,
        {
            let ghost before = self@;
            let ghost events = out@;
            match answers[i] {
                Ok((id, req)) => {
                    let event = self.prepare_block_request(id, req);
                    out.push_back(event);
                },
                Err(BadPeer(id, repu)) => {
                    self.disconnect_and_report_peer(id, repu);
                },
            }
            proof {
                let next = answers@.take(i + 1);
                assert(next.drop_last() =~= answers@.take(i as int));
                assert(next.last() == answers@[i as int]);
            }
            i = i + 1;
        }
        proof {
            assert(answers@.take(answers@.len() as int) =~= answers@);
            assert((self@, out@) == after_blocks_processed::<C>(told, answers@));
        }
        out
    }

    /// The connected peers with their identities, in connection order.
    pub fn get_peers(&self) -> (list: Vec<(PeerId, Peer)>)
        requires
            self.wf(),
        ensures
            list@.len() == self.peers.order().len(),
            forall|i: int|
                0 <= i < list@.len() ==> (#[trigger] list@[i]).0 == self.peers.order()[i]
                    && list@[i].1@ == self@.peers[self.peers.order()[i]],
    {
        self.peers.entries()
    }

    /// Number of connected peers.
    pub fn num_connected_peers(&self) -> (n: usize)
        requires
            self.wf(),
        ensures
            n == self@.peers.dom().len(),
    {
        self.peers.len()
    }

    /// Hands out the outcome events that have gathered, oldest first, and
    /// leaves none behind.
    pub fn get_events(&mut self) -> (events: VecDeque<CustomMessageOutcome>)
        ensures
            final(self).wf() == old(self).wf(),
            final(self).chain_sync == old(self).chain_sync,
            events@ == old(self)@.events,
            final(self)@ == (HelperState { events: Seq::empty(), ..old(self)@ }),
    {
        let mut events: VecDeque<CustomMessageOutcome> = VecDeque::new();
        core::mem::swap(&mut self.pending_messages, &mut events);
        events
    }

    /// Hands out the effects on peers that have gathered, oldest first,
    /// and leaves none behind.
    pub fn take_peer_effects(&mut self) -> (effects: Vec<PeerEffect>)
        ensures
            final(self).wf() == old(self).wf(),
            final(self).chain_sync == old(self).chain_sync,
            effects@ == old(self)@.effects,
            final(self)@ == (HelperState { effects: Seq::empty(), ..old(self)@ }),
    {
        let mut effects: Vec<PeerEffect> = Vec::new();
        core::mem::swap(&mut self.peer_effects, &mut effects);
        effects
    }

    /// The data that came with the announcement of the block `hash`, if it
    /// is still cached.
    pub fn block_announce_data(&self, hash: &BlockHash) -> (data: Option<Vec<u8>>)
        ensures
            match data {
                Some(bytes) => entry_value(self@.cache, hash.bytes) == Some(
                    bytes@,
                ),
                None => entry_value(self@.cache, hash.bytes).is_none(),
            },
    {
        self.block_announce_data_cache.peek(hash)
    }
}

} // verus!

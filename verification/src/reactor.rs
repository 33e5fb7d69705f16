//! The reactor: the commands that callers send, the periodic dispatch of the
//! requests that are due, and one step of the loop that serves both
//! together with the answers to requests.
//!
//! The loop itself belongs to the caller: it waits for whichever comes
//! first, a command, an answer or the dispatch timer, and hands it to
//! [`SyncingHelper::react`]. The verdicts of the state machine on block
//! announcements are not part of a step. They are fetched after every step,
//! with [`SyncingHelper::poll_block_announce_validation`], until there is
//! none left.

use crate::admission::{
    open_registers, protocol_close_post, protocol_open_post, ReceivedHandshake,
};
use crate::announce::{after_notification, is_validated};
use crate::chain_sync::{encoded_view, Call, ChainSync};
use crate::commands::{after_justification_import, blocks_processed_post};
use crate::dispatch::{block_request_event, state_request_event, warp_sync_request_event};
use crate::failure::cannot_occur;
use crate::helper::{HelperState, SyncingHelper};
use crate::outcome::{CustomMessageOutcome, PeerRequest, ReplySlot};
use crate::peers::Peer;
use crate::primitives::{BlockHash, BlockNumber, PeerId};
use crate::responses::{pending_response_post, reaches_state_machine, RawResponse};
use crate::sync_types::{
    BlockAnnounce, BlockImportResult, BlockRequest, Header, OpaqueBlockRequest,
    OpaqueStateRequest, SyncStatus, WarpProofRequest,
};
use std::collections::VecDeque;
use vstd::prelude::*;

verus! {

/// A command to the orchestrator.
#[derive(Clone, Debug, PartialEq, Eq)]
pub enum SyncEvent {
    NumConnectedPeers,
    SyncState,
    BestSeenBlock,
    NumSyncPeers,
    NumQueuedBlocks,
    NumDownloadedBlocks,
    NumSyncRequests,
    UpdateChainInfo(BlockHash, BlockNumber),
    OnBlockFinalized(BlockHash, Header),
    RequestJustification(BlockHash, BlockNumber),
    ClearJustificationRequests,
    SetSyncForkRequest(Vec<PeerId>, BlockHash, BlockNumber),
    JustificationImportResult(PeerId, BlockHash, BlockNumber, bool),
    OnBlocksProcessed(usize, usize, Vec<BlockImportResult>),
    EncodeBlockRequest(OpaqueBlockRequest),
    EncodeStateRequest(OpaqueStateRequest),
    GetPeers,
    CustomProtocolClosed(PeerId),
    /// The protocol to a peer has opened; with the two readings of its
    /// handshake and the number of the local best block.
    CustomProtocolOpen(PeerId, ReceivedHandshake, BlockNumber),
    GetEvents,
    /// A notification from a peer, read as an announcement if it is one.
    Notification(PeerId, Option<BlockAnnounce>),
}

/// The answer to a command.
#[derive(Debug)]
pub enum SyncReply {
    /// The command asks for no answer.
    Done,
    Count(usize),
    Number(u32),
    Status(SyncStatus),
    BestSeenBlock(Option<BlockNumber>),
    Encoded(Result<Vec<u8>, String>),
    Peers(Vec<(PeerId, Peer)>),
    Event(CustomMessageOutcome),
    Events(VecDeque<CustomMessageOutcome>),
}

/// What the reactor loop serves in one step.
#[derive(Debug, PartialEq, Eq)]
pub enum ReactorEvent {
    /// A command has arrived.
    Command(SyncEvent),
    /// The raw result for the request under a reply slot has arrived.
    Response(ReplySlot, RawResponse),
    /// The dispatch timer has fired.
    Tick,
}

/// The state after the block requests `due` have gone out, in order, each
/// with its event queued.
pub open spec fn after_block_requests<C: ChainSync>(
    s: HelperState,
    due: Seq<(PeerId, BlockRequest)>,
) -> HelperState
    decreases due.len(),
{
    if due.len() == 0 {
        s
    } else {
        let before = after_block_requests::<C>(s, due.drop_last());
        let (id, request) = due.last();
        before.dispatched(id, PeerRequest::Block(request)).with_event(
            block_request_event::<C>(before, id, request),
        )
    }
}

/// The state after the state request that is due, if any, has gone out.
pub open spec fn after_state_request(
    s: HelperState,
    due: Option<(PeerId, OpaqueStateRequest)>,
) -> HelperState {
    match due {
        Some((id, request)) => s.dispatched(id, PeerRequest::State).with_event(
            state_request_event(s, id, request),
        ),
        None => s,
    }
}

/// The state after the warp proof request that is due, if any, has gone
/// out.
pub open spec fn after_warp_sync_request(
    s: HelperState,
    due: Option<(PeerId, WarpProofRequest)>,
) -> HelperState {
    match due {
        Some((id, request)) => s.dispatched(id, PeerRequest::WarpProof).with_event(
            warp_sync_request_event(s, id, request),
        ),
        None => s,
    }
}

/// The state after a dispatch tick on which the state machine reported the
/// given requests as due: it was asked, in this order, for its block
/// requests, its state request, its justification requests and its warp
/// proof request, and each request went out as soon as it was reported.
pub open spec fn after_tick<C: ChainSync>(
    pre: HelperState,
    blocks: Vec<(PeerId, BlockRequest)>,
    state: Option<(PeerId, OpaqueStateRequest)>,
    justifications: Vec<(PeerId, BlockRequest)>,
    warp: Option<(PeerId, WarpProofRequest)>,
) -> HelperState {
    let s1 = after_block_requests::<C>(pre.with_call(Call::BlockRequests(blocks)), blocks@);
    let s2 = after_state_request(s1.with_call(Call::StateRequest(state)), state);
    let s3 = after_block_requests::<C>(
        s2.with_call(Call::JustificationRequests(justifications)),
        justifications@,
    );
    after_warp_sync_request(s3.with_call(Call::WarpSyncRequest(warp)), warp)
}

/// What holds after a dispatch tick.
pub open spec fn tick_post<C: ChainSync>(pre: HelperState, post: HelperState) -> bool {
    exists|
        blocks: Vec<(PeerId, BlockRequest)>,
        state: Option<(PeerId, OpaqueStateRequest)>,
        justifications: Vec<(PeerId, BlockRequest)>,
        warp: Option<(PeerId, WarpProofRequest)>,
    |
        post == #[trigger] after_tick::<C>(pre, blocks, state, justifications, warp)
}

/// What holds after a command was served.
pub open spec fn command_post<C: ChainSync>(
    pre: SyncingHelper<C>,
    event: SyncEvent,
    post: SyncingHelper<C>,
    reply: SyncReply,
) -> bool {
    match event {
        SyncEvent::NumConnectedPeers => {
            &&& post == pre
            &&& reply matches SyncReply::Count(n)
            &&& n == pre@.peers.dom().len()
        },
        SyncEvent::SyncState => post == pre && reply == SyncReply::Status(
            pre.chain_sync.status_spec(),
        ),
        SyncEvent::BestSeenBlock => post == pre && reply == SyncReply::BestSeenBlock(
            pre.chain_sync.status_spec().best_seen_block,
        ),
        SyncEvent::NumSyncPeers => post == pre && reply == SyncReply::Number(
            pre.chain_sync.status_spec().num_peers,
        ),
        SyncEvent::NumQueuedBlocks => post == pre && reply == SyncReply::Number(
            pre.chain_sync.status_spec().queued_blocks,
        ),
        SyncEvent::NumDownloadedBlocks => post == pre && reply == SyncReply::Count(
            pre.chain_sync.num_downloaded_blocks_spec(),
        ),
        SyncEvent::NumSyncRequests => post == pre && reply == SyncReply::Count(
            pre.chain_sync.num_sync_requests_spec(),
        ),
        SyncEvent::UpdateChainInfo(hash, number) => post@ == pre@.with_call(
            Call::UpdateChainInfo(hash, number),
        ) && reply is Done,
        SyncEvent::OnBlockFinalized(hash, header) => post@ == pre@.with_call(
            Call::OnBlockFinalized(hash, header.number),
        ) && reply is Done,
        SyncEvent::RequestJustification(hash, number) => post@ == pre@.with_call(
            Call::RequestJustification(hash, number),
        ) && reply is Done,
        SyncEvent::ClearJustificationRequests => post@ == pre@.with_call(
            Call::ClearJustificationRequests,
        ) && reply is Done,
        SyncEvent::SetSyncForkRequest(peers, hash, number) => post@ == pre@.with_call(
            Call::SetSyncForkRequest(peers, hash, number),
        ) && reply is Done,
        SyncEvent::JustificationImportResult(who, hash, number, success) => post@
            == after_justification_import(pre@, who, hash, number, success) && reply is Done,
        SyncEvent::OnBlocksProcessed(imported, count, results) => reply matches SyncReply::Events(
            out,
        ) && blocks_processed_post::<C>(pre@, imported, count, results, post@, out@),
        SyncEvent::EncodeBlockRequest(request) => {
            &&& post == pre
            &&& reply matches SyncReply::Encoded(r)
            &&& encoded_view(r) == C::encoded_block_request_spec(request)
        },
        SyncEvent::EncodeStateRequest(request) => {
            &&& post == pre
            &&& reply matches SyncReply::Encoded(r)
            &&& encoded_view(r) == C::encoded_state_request_spec(request)
        },
        SyncEvent::GetPeers => {
            &&& post == pre
            &&& reply matches SyncReply::Peers(list)
            &&& list@.len() == pre.peers.order().len()
            &&& forall|i: int|
                0 <= i < list@.len() ==> (#[trigger] list@[i]).0 == pre.peers.order()[i]
                    && list@[i].1@ == pre@.peers[pre.peers.order()[i]]
        },
        SyncEvent::CustomProtocolClosed(peer) => {
            &&& reply matches SyncReply::Event(event)
            &&& protocol_close_post(pre@, peer, post@, event)
            &&& !pre@.peers.dom().contains(peer) ==> post.chain_sync == pre.chain_sync
        },
        SyncEvent::CustomProtocolOpen(peer, received, local_best) => {
            &&& reply matches SyncReply::Events(out)
            &&& protocol_open_post::<C>(
                pre@,
                pre.chain_sync.num_peers_spec(),
                peer,
                received,
                local_best,
                post@,
                out@,
            )
            &&& !open_registers(
                pre@,
                peer,
                received,
                local_best,
                pre.chain_sync.num_peers_spec(),
            ) ==> post.chain_sync == pre.chain_sync
        },
        SyncEvent::GetEvents => reply matches SyncReply::Events(out) && out@ == pre@.events
            && post@ == (HelperState { events: Seq::empty(), ..pre@ }) && post.chain_sync
            == pre.chain_sync,
        SyncEvent::Notification(peer, announce) => {
            &&& reply == SyncReply::Event(CustomMessageOutcome::Nothing)
            &&& post@ == after_notification(pre@, peer, announce)
            &&& !(announce is Some && is_validated(pre@, peer)) ==> post.chain_sync
                == pre.chain_sync
        },
    }
}

/// What holds after one step of the reactor loop.
pub open spec fn react_post<C: ChainSync>(
    pre: SyncingHelper<C>,
    event: ReactorEvent,
    post: SyncingHelper<C>,
    reply: Option<SyncReply>,
) -> bool {
    match event {
        ReactorEvent::Command(command) => reply matches Some(answer) && command_post(
            pre,
            command,
            post,
            answer,
        ),
        ReactorEvent::Response(slot, response) => {
            &&& reply is None
            &&& pending_response_post::<C>(pre@, slot, response, post@)
            &&& !reaches_state_machine::<C>(pre@, slot, response) ==> post.chain_sync
                == pre.chain_sync
        },
        ReactorEvent::Tick => reply is None && tick_post::<C>(pre@, post@),
    }
}

impl<C: ChainSync> SyncingHelper<C> {
    /// Sends the block requests of `due`, in order, and queues their events.
    fn dispatch_block_requests(&mut self, due: Vec<(PeerId, BlockRequest)>)
        requires
            old(self).wf(),
        ensures
            final(self).wf(),
            final(self).chain_sync == old(self).chain_sync,
            final(self)@ == after_block_requests::<C>(old(self)@, due@),
    {
        let mut i: usize = 0;
        while i < due.len()
            invariant
                self.wf(),
                i <= due@.len(),
                self.chain_sync == old(self).chain_sync,
                self@ == after_block_requests::<C>(old(self)@, due@.take(i as int)),
            decreases due@.len() - i,
        {
            let (id, request) = due[i];
            let event = self.prepare_block_request(id, request);
            self.pending_messages.push_back(event);
            proof {
                let next = due@.take(i + 1);
                assert(next.drop_last() =~= due@.take(i as int));
                assert(next.last() == due@[i as int]);
            }
            i = i + 1;
        }
        proof {
            assert(due@.take(due@.len() as int) =~= due@);
        }
    }

    /// The dispatch timer has fired: asks the state machine for the
    /// requests that are due and sends each of them.
    pub fn on_tick(&mut self)
        requires
            old(self).wf(),
        ensures
            final(self).wf(),
            tick_post::<C>(old(self)@, final(self)@),
    {
        let ghost pre = self@;
        let blocks = self.chain_sync.block_requests();
        let ghost blocks_due = blocks;
        self.dispatch_block_requests(blocks);
        let state = self.chain_sync.state_request();
        let ghost state_due = state;
        let ghost asked = self@;
        if let Some((id, request)) = state {
            let event = self.prepare_state_request(id, request);
            self.pending_messages.push_back(event);
        }
        assert(self@ == after_state_request(asked, state_due));
        let justifications = self.chain_sync.justification_requests();
        let ghost justifications_due = justifications;
        self.dispatch_block_requests(justifications);
        let warp = self.chain_sync.warp_sync_request();
        let ghost warp_due = warp;
        let ghost asked = self@;
        if let Some((id, request)) = warp {
            let event = self.prepare_warp_sync_request(id, request);
            self.pending_messages.push_back(event);
        }
        proof {
            assert(self@ == after_warp_sync_request(asked, warp_due));
            assert(self@ == after_tick::<C>(
                pre,
                blocks_due,
                state_due,
                justifications_due,
                warp_due,
            ));
        }
    }

    /// Serves one command and gives its answer.
    pub fn handle_command(&mut self, event: SyncEvent) -> (reply: SyncReply)
        requires
            old(self).wf(),
        ensures
            final(self).wf(),
            command_post(*old(self), event, *final(self), reply),
    {
        match event {
            SyncEvent::NumConnectedPeers => SyncReply::Count(self.num_connected_peers()),
            SyncEvent::SyncState => SyncReply::Status(self.status()),
            SyncEvent::BestSeenBlock => SyncReply::BestSeenBlock(self.best_seen_block()),
            SyncEvent::NumSyncPeers => SyncReply::Number(self.num_sync_peers()),
            SyncEvent::NumQueuedBlocks => SyncReply::Number(self.num_queued_blocks()),
            SyncEvent::NumDownloadedBlocks => SyncReply::Count(self.num_downloaded_blocks()),
            SyncEvent::NumSyncRequests => SyncReply::Count(self.num_sync_requests()),
            SyncEvent::UpdateChainInfo(hash, number) => {
                self.update_chain_info(hash, number);
                SyncReply::Done
            },
            SyncEvent::OnBlockFinalized(hash, header) => {
                self.on_block_finalized(hash, header);
                SyncReply::Done
            },
            SyncEvent::RequestJustification(hash, number) => {
                self.request_justification(&hash, number);
                SyncReply::Done
            },
            SyncEvent::ClearJustificationRequests => {
                self.clear_justification_requests();
                SyncReply::Done
            },
            SyncEvent::SetSyncForkRequest(peers, hash, number) => {
                self.set_sync_fork_request(peers, &hash, number);
                SyncReply::Done
            },
            SyncEvent::JustificationImportResult(peer_id, hash, number, success) => {
                self.justification_import_result(peer_id, hash, number, success);
                SyncReply::Done
            },
            SyncEvent::OnBlocksProcessed(imported, count, results) => SyncReply::Events(
                self.on_blocks_processed(imported, count, results),
            ),
            SyncEvent::EncodeBlockRequest(request) => SyncReply::Encoded(
                self.encode_block_request(&request),
            ),
            SyncEvent::EncodeStateRequest(request) => SyncReply::Encoded(
                self.encode_state_request(&request),
            ),
            SyncEvent::GetPeers => SyncReply::Peers(self.get_peers()),
            SyncEvent::CustomProtocolClosed(peer_id) => SyncReply::Event(
                self.custom_protocol_close(peer_id),
            ),
            SyncEvent::CustomProtocolOpen(peer_id, received, local_best) => SyncReply::Events(
                self.custom_protocol_open(peer_id, received, local_best),
            ),
            SyncEvent::GetEvents => SyncReply::Events(self.get_events()),
            SyncEvent::Notification(peer, announce) => SyncReply::Event(
                self.notification(peer, announce),
            ),
        }
    }

    /// One step of the reactor loop: serves a command, the answer to a
    /// request, or a dispatch tick. Commands are answered.
    pub fn react(&mut self, event: ReactorEvent) -> (reply: Option<SyncReply>)
        requires
            old(self).wf(),
            !(event matches ReactorEvent::Response(_, Ok(Err(failure))) && cannot_occur(failure)),
        ensures
            final(self).wf(),
            react_post(*old(self), event, *final(self), reply),
    {
        match event {
            ReactorEvent::Command(command) => Some(self.handle_command(command)),
            ReactorEvent::Response(slot, response) => {
                self.handle_pending_response(slot, response);
                None
            },
            ReactorEvent::Tick => {
                self.on_tick();
                None
            },
        }
    }
}

} // verus!

//! Answers to requests: from the raw result that the network layer hands in
//! to the outcome events, the effects on the peer and the calls to the state
//! machine.

use crate::chain_sync::{Call, ChainSync};
use crate::dispatch::block_request_event;
use crate::failure::{action_for, action_for_canceled, cannot_occur, classify};
use crate::helper::{HelperState, SyncingHelper};
use crate::outcome::{
    Canceled, CustomMessageOutcome, PeerAction, PeerRequest, ReplySlot, RequestFailure,
};
use crate::primitives::PeerId;
use crate::reputation::{bad_message, ReputationChange};
use crate::sync_types::{
    BadPeer, BlockData, BlockRequest, BlockResponse, EncodedProof, IncomingBlock, OnBlockData,
    OnBlockJustification, OnStateData, OpaqueBlockResponse, OpaqueStateResponse,
};
use vstd::prelude::*;

verus! {

/// What the network layer hands in for a request: the bytes of the answer,
/// a failure, or the news that the reply slot was dropped.
pub type RawResponse = Result<Result<Vec<u8>, RequestFailure>, Canceled>;

impl HelperState {
    /// The state after the request under `slot` has left flight.
    pub open spec fn completed(self, slot: ReplySlot) -> HelperState {
        HelperState { pending: self.pending.remove(slot), ..self }
    }
}

/// State and event after the state machine has answered to block data.
pub open spec fn after_block_data<C: ChainSync>(
    s: HelperState,
    answer: Result<OnBlockData, BadPeer>,
) -> (HelperState, CustomMessageOutcome) {
    match answer {
        Ok(OnBlockData::Import(origin, blocks)) => (
            s,
            CustomMessageOutcome::BlockImport(origin, blocks),
        ),
        Ok(OnBlockData::Request(peer, request)) => (
            s.dispatched(peer, PeerRequest::Block(request)),
            block_request_event::<C>(s, peer, request),
        ),
        Ok(OnBlockData::Continue) => (s, CustomMessageOutcome::Nothing),
        Err(BadPeer(id, change)) => (
            s.with_action(id, PeerAction::DisconnectAndReport(change)),
            CustomMessageOutcome::Nothing,
        ),
    }
}

/// State and event after the state machine has answered to justifications.
pub open spec fn after_justification(
    s: HelperState,
    answer: Result<OnBlockJustification, BadPeer>,
) -> (HelperState, CustomMessageOutcome) {
    match answer {
        Ok(OnBlockJustification::Nothing) => (s, CustomMessageOutcome::Nothing),
        Ok(OnBlockJustification::Import { peer, hash, number, justifications }) => (
            s,
            CustomMessageOutcome::JustificationImport(peer, hash, number, justifications),
        ),
        Err(BadPeer(id, change)) => (
            s.with_action(id, PeerAction::DisconnectAndReport(change)),
            CustomMessageOutcome::Nothing,
        ),
    }
}

/// The state after the state machine has answered to state data or to a
/// warp proof: a peer that it turns down is disconnected and reported.
pub open spec fn after_verdict<T>(s: HelperState, answer: Result<T, BadPeer>) -> HelperState {
    match answer {
        Ok(_) => s,
        Err(BadPeer(id, change)) => s.with_action(id, PeerAction::DisconnectAndReport(change)),
    }
}

/// Whether `event` is what follows from the answer to state data: the
/// import of the one block whose state is complete, or nothing.
pub open spec fn is_state_data_event(
    answer: Result<OnStateData, BadPeer>,
    event: CustomMessageOutcome,
) -> bool {
    match answer {
        Ok(OnStateData::Import(origin, block)) => event matches CustomMessageOutcome::BlockImport(
            o,
            blocks,
        ) && o == origin && blocks@ == seq![block],
        _ => event == CustomMessageOutcome::Nothing,
    }
}

/// What holds after a decoded block response was handled. Blocks that do
/// not answer the request are a protocol violation. Otherwise the state
/// machine gets the blocks, as justifications if the request asked for
/// nothing else, and its answer decides.
pub open spec fn block_response_post<C: ChainSync>(
    pre: HelperState,
    peer_id: PeerId,
    request: BlockRequest,
    decoded: Seq<BlockData>,
    post: HelperState,
    event: CustomMessageOutcome,
) -> bool {
    match C::blocks_of_response(request, decoded) {
        None => post == pre.with_action(peer_id, PeerAction::DisconnectAndReport(bad_message()))
            && event == CustomMessageOutcome::Nothing,
        Some(blocks) => if request.is_justification_request() {
            exists|handed: BlockResponse, answer: Result<OnBlockJustification, BadPeer>|
                handed.id == request.id && handed.blocks@ == blocks && (post, event)
                    == #[trigger] after_justification(
                    pre.with_call(Call::OnBlockJustification(peer_id, handed, answer)),
                    answer,
                )
        } else {
            exists|handed: BlockResponse, answer: Result<OnBlockData, BadPeer>|
                handed.id == request.id && handed.blocks@ == blocks && (post, event)
                    == #[trigger] after_block_data::<C>(
                    pre.with_call(Call::OnBlockData(peer_id, Some(request), handed, answer)),
                    answer,
                )
        },
    }
}

/// What holds after a decoded state response was handled: the state
/// machine got it, and its answer decides.
pub open spec fn state_response_post(
    pre: HelperState,
    peer_id: PeerId,
    response: OpaqueStateResponse,
    post: HelperState,
    event: CustomMessageOutcome,
) -> bool {
    exists|answer: Result<OnStateData, BadPeer>|
        post == #[trigger] after_verdict(
            pre.with_call(Call::OnStateData(peer_id, response, answer)),
            answer,
        ) && is_state_data_event(answer, event)
}

/// What holds after a warp proof was handled: the state machine got it,
/// and a peer that it turns down is disconnected and reported.
pub open spec fn warp_sync_response_post(
    pre: HelperState,
    peer_id: PeerId,
    response: EncodedProof,
    post: HelperState,
    event: CustomMessageOutcome,
) -> bool {
    event == CustomMessageOutcome::Nothing && exists|answer: Result<(), BadPeer>|
        post == #[trigger] after_verdict(
            pre.with_call(Call::OnWarpSyncData(peer_id, response, answer)),
            answer,
        )
}

/// The state after the answer under `slot` turned out not to decode: the
/// request has left flight, its peer is disconnected and reported, and
/// nothing else has happened.
pub open spec fn after_decode_failure(pre: HelperState, slot: ReplySlot) -> HelperState {
    pre.completed(slot).with_action(
        pre.pending[slot].peer,
        PeerAction::DisconnectAndReport(bad_message()),
    )
}

/// The state after the request under `slot` failed with `action` as the
/// consequence for its peer.
pub open spec fn after_failure(pre: HelperState, slot: ReplySlot, action: PeerAction) -> HelperState {
    pre.completed(slot).with_action(pre.pending[slot].peer, action)
}

/// Whether the raw result for the request under `slot` reaches the state
/// machine: it does when a request is in flight under the slot and the
/// result is an answer that decodes and, for blocks, answers the request.
pub open spec fn reaches_state_machine<C: ChainSync>(
    pre: HelperState,
    slot: ReplySlot,
    response: RawResponse,
) -> bool {
    &&& pre.pending.dom().contains(slot)
    &&& response matches Ok(Ok(bytes))
    &&& match pre.pending[slot].request {
        PeerRequest::Block(request) => C::decoded_block_response(bytes@) matches Some(decoded)
            && C::blocks_of_response(request, decoded) is Some,
        PeerRequest::State => C::decoded_state_response(bytes@) is Some,
        PeerRequest::WarpProof => true,
    }
}

/// What holds after the raw result for the request under `slot` was
/// handled. Without a request in flight under `slot` nothing happens.
/// Otherwise the request leaves flight, and:
/// a dropped reply slot disconnects the peer; a failure is classified;
/// bytes that do not decode are a protocol violation; a decoded answer
/// goes to the state machine, and the event that follows is queued.
pub open spec fn pending_response_post<C: ChainSync>(
    pre: HelperState,
    slot: ReplySlot,
    response: RawResponse,
    post: HelperState,
) -> bool {
    if !pre.pending.dom().contains(slot) {
        post == pre
    } else {
        let peer = pre.pending[slot].peer;
        let s = pre.completed(slot);
        match response {
            Err(_) => post == after_failure(pre, slot, action_for_canceled()),
            Ok(Err(failure)) => post == after_failure(pre, slot, action_for(failure)),
            Ok(Ok(bytes)) => match pre.pending[slot].request {
                PeerRequest::Block(request) => if C::decoded_block_response(bytes@) is None {
                    post == after_decode_failure(pre, slot)
                } else {
                    exists|mid: HelperState, event: CustomMessageOutcome|
                        #[trigger] block_response_post::<C>(
                            s,
                            peer,
                            request,
                            C::decoded_block_response(bytes@)->Some_0,
                            mid,
                            event,
                        ) && post == mid.with_event(event)
                },
                PeerRequest::State => if C::decoded_state_response(bytes@) is None {
                    post == after_decode_failure(pre, slot)
                } else {
                    exists|decoded: OpaqueStateResponse, mid: HelperState, event: CustomMessageOutcome|
                        C::decoded_state_response(bytes@) == Some((decoded.entries@, decoded.proof@))
                            && #[trigger] state_response_post(s, peer, decoded, mid, event)
                            && post == mid.with_event(event)
                },
                PeerRequest::WarpProof => exists|mid: HelperState, event: CustomMessageOutcome|
                    #[trigger] warp_sync_response_post(
                        s,
                        peer,
                        EncodedProof { bytes },
                        mid,
                        event,
                    ) && post == mid.with_event(event),
            },
        }
    }
}

impl<C: ChainSync> SyncingHelper<C> {
    /// Turns the state machine's answer to block data into an event.
    pub fn apply_block_data(&mut self, answer: Result<OnBlockData, BadPeer>) -> (event:
        CustomMessageOutcome)
        requires
            old(self).wf(),
        ensures
            final(self).wf(),
            final(self).chain_sync == old(self).chain_sync,
            (final(self)@, event) == after_block_data::<C>(old(self)@, answer),
    {
        match answer {
            Ok(OnBlockData::Import(origin, blocks)) => CustomMessageOutcome::BlockImport(
                origin,
                blocks,
            ),
            Ok(OnBlockData::Request(peer, request)) => self.prepare_block_request(peer, request),
            Ok(OnBlockData::Continue) => CustomMessageOutcome::Nothing,
            Err(BadPeer(id, change)) => {
                self.disconnect_and_report_peer(id, change);
                CustomMessageOutcome::Nothing
            },
        }
    }

    /// Turns the state machine's answer to justifications into an event.
    pub fn apply_justification(&mut self, answer: Result<OnBlockJustification, BadPeer>) -> (event:
        CustomMessageOutcome)
        requires
            old(self).wf(),
        ensures
            final(self).wf(),
            final(self).chain_sync == old(self).chain_sync,
            (final(self)@, event) == after_justification(old(self)@, answer),
    {
        match answer {
            Ok(OnBlockJustification::Nothing) => CustomMessageOutcome::Nothing,
            Ok(OnBlockJustification::Import { peer, hash, number, justifications }) => {
                CustomMessageOutcome::JustificationImport(peer, hash, number, justifications)
            },
            Err(BadPeer(id, change)) => {
                self.disconnect_and_report_peer(id, change);
                CustomMessageOutcome::Nothing
            },
        }
    }

    /// Handles a decoded block response from `peer_id` to `request`.
    pub fn on_block_response(
        &mut self,
        peer_id: PeerId,
        request: BlockRequest,
        response: OpaqueBlockResponse,
    ) -> (event: CustomMessageOutcome)
        requires
            old(self).wf(),
        ensures
            final(self).wf(),
            block_response_post::<C>(
                old(self)@,
                peer_id,
                request,
                response.blocks@,
                final(self)@,
                event,
            ),
            C::blocks_of_response(request, response.blocks@) is None ==> final(self).chain_sync
                == old(self).chain_sync,
    {
        let blocks = match self.chain_sync.block_response_into_blocks(&request, response) {
            Ok(blocks) => blocks,
            Err(_) => {
                self.disconnect_and_report_peer(peer_id, ReputationChange::bad_message());
                return CustomMessageOutcome::Nothing;
            },
        };
        let block_response = BlockResponse { id: request.id, blocks };
        let ghost handed = block_response;
        if request.is_justification_request() {
            let answer = self.chain_sync.on_block_justification(peer_id, block_response);
            let ghost mid = self@;
            let event = self.apply_justification(answer);
            proof {
                assert(mid == old(self)@.with_call(
                    Call::OnBlockJustification(peer_id, handed, answer),
                ));
                assert((self@, event) == after_justification(
                    old(self)@.with_call(Call::OnBlockJustification(peer_id, handed, answer)),
                    answer,
                ));
            }
            event
        } else {
            let answer = self.chain_sync.on_block_data(&peer_id, Some(request), block_response);
            let ghost mid = self@;
            let event = self.apply_block_data(answer);
            proof {
                assert(mid == old(self)@.with_call(
                    Call::OnBlockData(peer_id, Some(request), handed, answer),
                ));
                assert((self@, event) == after_block_data::<C>(
                    old(self)@.with_call(
                        Call::OnBlockData(peer_id, Some(request), handed, answer),
                    ),
                    answer,
                ));
            }
            event
        }
    }

    /// Handles a decoded state response from `peer_id`.
    pub fn on_state_response(&mut self, peer_id: PeerId, response: OpaqueStateResponse) -> (event:
        CustomMessageOutcome)
        requires
            old(self).wf(),
        ensures
            final(self).wf(),
            state_response_post(old(self)@, peer_id, response, final(self)@, event),
    {
        let answer = self.chain_sync.on_state_data(&peer_id, response);
        let ghost given = answer;
        let ghost mid = self@;
        proof {
            assert(mid == old(self)@.with_call(Call::OnStateData(peer_id, response, given)));
        }
        let event = match answer {
            Ok(OnStateData::Import(origin, block)) => {
                let mut blocks: Vec<IncomingBlock> = Vec::new();
                blocks.push(block);
                CustomMessageOutcome::BlockImport(origin, blocks)
            },
            Ok(OnStateData::Continue) => CustomMessageOutcome::Nothing,
            Err(BadPeer(id, change)) => {
                self.disconnect_and_report_peer(id, change);
                CustomMessageOutcome::Nothing
            },
        };
        proof {
            assert(self@ == after_verdict(mid, given));
            assert(is_state_data_event(given, event));
        }
        event
    }

    /// Handles a warp proof from `peer_id`.
    pub fn on_warp_sync_response(&mut self, peer_id: PeerId, response: EncodedProof) -> (event:
        CustomMessageOutcome)
        requires
            old(self).wf(),
        ensures
            final(self).wf(),
            warp_sync_response_post(old(self)@, peer_id, response, final(self)@, event),
    {
        let answer = self.chain_sync.on_warp_sync_data(&peer_id, response);
        let ghost given = answer;
        let ghost mid = self@;
        proof {
            assert(mid == old(self)@.with_call(Call::OnWarpSyncData(peer_id, response, given)));
        }
        match answer {
            Ok(()) => {},
            Err(BadPeer(id, change)) => {
                self.disconnect_and_report_peer(id, change);
            },
        }
        proof {
            assert(self@ == after_verdict(mid, given));
        }
        CustomMessageOutcome::Nothing
    }

    /// Handles the raw result that the network layer hands in for the
    /// request under `slot`.
    pub fn handle_pending_response(&mut self, slot: ReplySlot, response: RawResponse)
        requires
            old(self).wf(),
            !(response matches Ok(Err(failure)) && cannot_occur(failure)),
        ensures
            final(self).wf(),
            pending_response_post::<C>(old(self)@, slot, response, final(self)@),
            !reaches_state_machine::<C>(old(self)@, slot, response) ==> final(self).chain_sync
                == old(self).chain_sync,
    {
        let record = match self.pending_responses.take(&slot) {
            Some(record) => record,
            None => {
                proof {
                    assert(self.pending_responses@ =~= old(self).pending_responses@);
                }
                return ;
            },
        };
        proof {
            self.pending_responses.lemma_slots();
        }
        let id = record.peer;
        let ghost s = self@;
        assert(s == old(self)@.completed(slot));
        match response {
            Ok(Ok(resp)) => match record.request {
                PeerRequest::Block(req) => {
                    let decoded = match self.chain_sync.decode_block_response(&resp) {
                        Ok(decoded) => decoded,
                        Err(_) => {
                            self.disconnect_and_report_peer(id, ReputationChange::bad_message());
                            return ;
                        },
                    };
                    let ghost given = decoded.blocks@;
                    let ev = self.on_block_response(id, req, decoded);
                    let ghost mid = self@;
                    self.pending_messages.push_back(ev);
                    proof {
                        assert(C::decoded_block_response(resp@)->Some_0 == given);
                        assert(block_response_post::<C>(s, id, req, given, mid, ev));
                        assert(self@ == mid.with_event(ev));
                    }
                },
                PeerRequest::State => {
                    let decoded = match self.chain_sync.decode_state_response(&resp) {
                        Ok(decoded) => decoded,
                        Err(_) => {
                            self.disconnect_and_report_peer(id, ReputationChange::bad_message());
                            return ;
                        },
                    };
                    let ghost given = decoded;
                    let ev = self.on_state_response(id, decoded);
                    let ghost mid = self@;
                    self.pending_messages.push_back(ev);
                    proof {
                        assert(C::decoded_state_response(resp@) == Some(
                            (given.entries@, given.proof@),
                        ));
                        assert(state_response_post(s, id, given, mid, ev));
                        assert(self@ == mid.with_event(ev));
                    }
                },
                PeerRequest::WarpProof => {
                    let ev = self.on_warp_sync_response(id, EncodedProof { bytes: resp });
                    let ghost mid = self@;
                    self.pending_messages.push_back(ev);
                    proof {
                        assert(warp_sync_response_post(
                            s,
                            id,
                            EncodedProof { bytes: resp },
                            mid,
                            ev,
                        ));
                        assert(self@ == mid.with_event(ev));
                    }
                },
            },
            Ok(Err(failure)) => {
                let action = classify(failure);
                self.apply_action(id, action);
            },
            Err(_) => {
                self.disconnect_peer(id);
            },
        }
    }
}

} // verus!

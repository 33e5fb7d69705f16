//! Sending requests: every request gets a reply slot of its own and is kept
//! in flight until its answer is handed in.

use crate::chain_sync::ChainSync;
use crate::helper::{HelperState, SyncingHelper};
use crate::outcome::{CustomMessageOutcome, PeerRequest, PendingRecord, ReplySlot};
use crate::primitives::PeerId;
use crate::sync_types::{BlockRequest, OpaqueStateRequest, WarpProofRequest};
use vstd::prelude::*;

verus! {

impl HelperState {
    /// Whether a reply slot is left to hand out.
    pub open spec fn has_slot(self) -> bool {
        self.next_slot < u64::MAX
    }

    /// The slot that the next request gets.
    pub open spec fn fresh_slot(self) -> ReplySlot {
        ReplySlot { id: self.next_slot }
    }

    /// The state after a request of kind `request` was sent to `who`: it is
    /// in flight under the fresh slot. Nothing changes once the slots have
    /// run out.
    pub open spec fn dispatched(self, who: PeerId, request: PeerRequest) -> HelperState {
        if self.has_slot() {
            HelperState {
                pending: self.pending.insert(
                    self.fresh_slot(),
                    PendingRecord { peer: who, request },
                ),
                next_slot: (self.next_slot + 1) as u64,
                ..self
            }
        } else {
            self
        }
    }
}

/// The event that sends the block request `request` to `who`.
pub open spec fn block_request_event<C: ChainSync>(
    s: HelperState,
    who: PeerId,
    request: BlockRequest,
) -> CustomMessageOutcome {
    if s.has_slot() {
        CustomMessageOutcome::BlockRequest {
            target: who,
            request: C::opaque_block_request_spec(request),
            pending_response: s.fresh_slot(),
        }
    } else {
        CustomMessageOutcome::Nothing
    }
}

/// The event that sends the state request `request` to `who`.
pub open spec fn state_request_event(
    s: HelperState,
    who: PeerId,
    request: OpaqueStateRequest,
) -> CustomMessageOutcome {
    if s.has_slot() {
        CustomMessageOutcome::StateRequest {
            target: who,
            request,
            pending_response: s.fresh_slot(),
        }
    } else {
        CustomMessageOutcome::Nothing
    }
}

/// The event that sends the warp proof request `request` to `who`.
pub open spec fn warp_sync_request_event(
    s: HelperState,
    who: PeerId,
    request: WarpProofRequest,
) -> CustomMessageOutcome {
    if s.has_slot() {
        CustomMessageOutcome::WarpSyncRequest {
            target: who,
            request,
            pending_response: s.fresh_slot(),
        }
    } else {
        CustomMessageOutcome::Nothing
    }
}

impl<C: ChainSync> SyncingHelper<C> {
    /// Puts a request of kind `request` to `who` in flight.
    fn dispatch(&mut self, who: PeerId, request: PeerRequest) -> (slot: Option<ReplySlot>)
        requires
            old(self).wf(),
        ensures
            final(self).wf(),
            final(self).chain_sync == old(self).chain_sync,
            final(self)@ == old(self)@.dispatched(who, request),
            slot == (if old(self)@.has_slot() {
                Some(old(self)@.fresh_slot())
            } else {
                None
            }),
    {
        let slot = self.pending_responses.register(PendingRecord { peer: who, request });
        proof {
            self.pending_responses.lemma_slots();
        }
        slot
    }

    /// Sends the block request `request` to `who`.
    pub fn prepare_block_request(&mut self, who: PeerId, request: BlockRequest) -> (event:
        CustomMessageOutcome)
        requires
            old(self).wf(),
        ensures
            final(self).wf(),
            final(self).chain_sync == old(self).chain_sync,
            final(self)@ == old(self)@.dispatched(who, PeerRequest::Block(request)),
            event == block_request_event::<C>(old(self)@, who, request),
    {
        let new_request = self.chain_sync.create_opaque_block_request(&request);
        match self.dispatch(who, PeerRequest::Block(request)) {
            Some(slot) => CustomMessageOutcome::BlockRequest {
                target: who,
                request: new_request,
                pending_response: slot,
            },
            None => CustomMessageOutcome::Nothing,
        }
    }

    /// Sends the state request `request` to `who`.
    pub fn prepare_state_request(&mut self, who: PeerId, request: OpaqueStateRequest) -> (event:
        CustomMessageOutcome)
        requires
            old(self).wf(),
        ensures
            final(self).wf(),
            final(self).chain_sync == old(self).chain_sync,
            final(self)@ == old(self)@.dispatched(who, PeerRequest::State),
            event == state_request_event(old(self)@, who, request),
    {
        match self.dispatch(who, PeerRequest::State) {
            Some(slot) => CustomMessageOutcome::StateRequest {
                target: who,
                request,
                pending_response: slot,
            },
            None => CustomMessageOutcome::Nothing,
        }
    }

    /// Sends the warp proof request `request` to `who`.
    pub fn prepare_warp_sync_request(&mut self, who: PeerId, request: WarpProofRequest) -> (event:
        CustomMessageOutcome)
        requires
            old(self).wf(),
        ensures
            final(self).wf(),
            final(self).chain_sync == old(self).chain_sync,
            final(self)@ == old(self)@.dispatched(who, PeerRequest::WarpProof),
            event == warp_sync_request_event(old(self)@, who, request),
    {
        match self.dispatch(who, PeerRequest::WarpProof) {
            Some(slot) => CustomMessageOutcome::WarpSyncRequest {
                target: who,
                request,
                pending_response: slot,
            },
            None => CustomMessageOutcome::Nothing,
        }
    }
}

} // verus!

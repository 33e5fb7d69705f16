//! The chain-synchronisation state machine that the orchestrator drives.
//!
//! The state machine decides which blocks to ask for, from whom, and what to
//! make of the answers. The orchestrator only calls it. Every call that may
//! change the state machine is recorded in a ghost history, with its
//! arguments and with what the state machine answered, so that the
//! orchestrator's contracts can say which calls were made, in which order
//! and with which arguments, and that what the orchestrator did next
//! follows from the answers. The history constrains no implementation.

use crate::primitives::{BlockHash, BlockNumber, PeerId};
use crate::sync_types::{
    BadPeer, BlockAnnounce, BlockData, BlockImportResult, BlockRequest, BlockResponse,
    EncodedProof, OnBlockData, OnBlockJustification, OnStateData, OpaqueBlockRequest,
    OpaqueBlockResponse, OpaqueStateRequest, OpaqueStateResponse, PollBlockAnnounceValidation,
    SyncStatus, WarpProofRequest,
};
use vstd::prelude::*;

verus! {

/// One call into the state machine: its arguments and, last, what the
/// state machine answered, where it answers anything.
pub enum Call {
    NewPeer(PeerId, BlockHash, BlockNumber, Result<Option<BlockRequest>, BadPeer>),
    PeerDisconnected(PeerId, Option<OnBlockData>),
    UpdateChainInfo(BlockHash, BlockNumber),
    RequestJustification(BlockHash, BlockNumber),
    ClearJustificationRequests,
    SetSyncForkRequest(Vec<PeerId>, BlockHash, BlockNumber),
    JustificationRequests(Vec<(PeerId, BlockRequest)>),
    BlockRequests(Vec<(PeerId, BlockRequest)>),
    StateRequest(Option<(PeerId, OpaqueStateRequest)>),
    WarpSyncRequest(Option<(PeerId, WarpProofRequest)>),
    OnBlockData(PeerId, Option<BlockRequest>, BlockResponse, Result<OnBlockData, BadPeer>),
    OnStateData(PeerId, OpaqueStateResponse, Result<OnStateData, BadPeer>),
    OnWarpSyncData(PeerId, EncodedProof, Result<(), BadPeer>),
    OnBlockJustification(PeerId, BlockResponse, Result<OnBlockJustification, BadPeer>),
    OnBlocksProcessed(
        usize,
        usize,
        Vec<BlockImportResult>,
        Vec<Result<(PeerId, BlockRequest), BadPeer>>,
    ),
    OnJustificationImport(BlockHash, BlockNumber, bool),
    OnBlockFinalized(BlockHash, BlockNumber),
    PushBlockAnnounceValidation(PeerId, BlockHash, BlockAnnounce, bool),
    PollBlockAnnounceValidation(Option<PollBlockAnnounceValidation>),
}

/// An encoding result as contracts speak of it.
pub open spec fn encoded_view(r: Result<Vec<u8>, String>) -> Result<Seq<u8>, Seq<char>> {
    match r {
        Ok(bytes) => Ok(bytes@),
        Err(message) => Err(message@),
    }
}

/// The state machine behind the orchestrator.
pub trait ChainSync {
    /// The calls that may have changed the state machine, oldest first.
    spec fn history(&self) -> Seq<Call>;

    /// The summary that `status` returns.
    spec fn status_spec(&self) -> SyncStatus;

    /// The number that `num_sync_requests` returns.
    spec fn num_sync_requests_spec(&self) -> usize;

    /// The number that `num_downloaded_blocks` returns.
    spec fn num_downloaded_blocks_spec(&self) -> usize;

    /// The number that `num_peers` returns.
    spec fn num_peers_spec(&self) -> usize;

    /// The wire form of a planned block request.
    spec fn opaque_block_request_spec(request: BlockRequest) -> OpaqueBlockRequest;

    /// The bytes of a block request, or why it cannot be encoded.
    spec fn encoded_block_request_spec(request: OpaqueBlockRequest) -> Result<Seq<u8>, Seq<char>>;

    /// The bytes of a state request, or why it cannot be encoded.
    spec fn encoded_state_request_spec(request: OpaqueStateRequest) -> Result<Seq<u8>, Seq<char>>;

    /// The blocks of the block response that the bytes encode, if they
    /// encode one.
    spec fn decoded_block_response(response: Seq<u8>) -> Option<Seq<BlockData>>;

    /// The entries and the proof of the state response that the bytes
    /// encode, if they encode one.
    spec fn decoded_state_response(response: Seq<u8>) -> Option<(Seq<u8>, Seq<u8>)>;

    /// The blocks of a decoded block response as they answer the request,
    /// if they answer it.
    spec fn blocks_of_response(request: BlockRequest, blocks: Seq<BlockData>) -> Option<
        Seq<BlockData>,
    >;

    /// The current state of synchronisation.
    fn status(&self) -> (status: SyncStatus)
        ensures
            status == self.status_spec(),
    ;

    /// Number of fork requests that are active.
    fn num_sync_requests(&self) -> (n: usize)
        ensures
            n == self.num_sync_requests_spec(),
    ;

    /// Number of blocks that have been downloaded.
    fn num_downloaded_blocks(&self) -> (n: usize)
        ensures
            n == self.num_downloaded_blocks_spec(),
    ;

    /// Number of peers that the state machine keeps.
    fn num_peers(&self) -> (n: usize)
        ensures
            n == self.num_peers_spec(),
    ;

    /// Turns a planned block request into its wire form.
    fn create_opaque_block_request(&self, request: &BlockRequest) -> (opaque: OpaqueBlockRequest)
        ensures
            opaque == Self::opaque_block_request_spec(*request),
    ;

    /// Encodes a block request.
    fn encode_block_request(&self, request: &OpaqueBlockRequest) -> (r: Result<Vec<u8>, String>)
        ensures
            encoded_view(r) == Self::encoded_block_request_spec(*request),
    ;

    /// Encodes a state request.
    fn encode_state_request(&self, request: &OpaqueStateRequest) -> (r: Result<Vec<u8>, String>)
        ensures
            encoded_view(r) == Self::encoded_state_request_spec(*request),
    ;

    /// Decodes a block response.
    fn decode_block_response(&self, response: &Vec<u8>) -> (r: Result<OpaqueBlockResponse, String>)
        ensures
            match r {
                Ok(decoded) => Self::decoded_block_response(response@) == Some(decoded.blocks@),
                Err(_) => Self::decoded_block_response(response@).is_none(),
            },
    ;

    /// Decodes a state response.
    fn decode_state_response(&self, response: &Vec<u8>) -> (r: Result<OpaqueStateResponse, String>)
        ensures
            match r {
                Ok(decoded) => Self::decoded_state_response(response@) == Some(
                    (decoded.entries@, decoded.proof@),
                ),
                Err(_) => Self::decoded_state_response(response@).is_none(),
            },
    ;

    /// Takes the blocks out of a decoded block response.
    fn block_response_into_blocks(
        &self,
        request: &BlockRequest,
        response: OpaqueBlockResponse,
    ) -> (r: Result<Vec<BlockData>, String>)
        ensures
            match r {
                Ok(blocks) => Self::blocks_of_response(*request, response.blocks@) == Some(
                    blocks@,
                ),
                Err(_) => Self::blocks_of_response(*request, response.blocks@).is_none(),
            },
    ;

    /// A peer has connected. The answer may hold a first request for it, or
    /// turn the peer down.
    fn new_peer(&mut self, who: PeerId, best_hash: BlockHash, best_number: BlockNumber) -> (r:
        Result<Option<BlockRequest>, BadPeer>)
        ensures
            final(self).history() == old(self).history().push(
                Call::NewPeer(who, best_hash, best_number, r),
            ),
    ;

    /// A peer has disconnected. The answer may hold blocks that became
    /// ready for import.
    fn peer_disconnected(&mut self, who: &PeerId) -> (r: Option<OnBlockData>)
        ensures
            final(self).history() == old(self).history().push(Call::PeerDisconnected(*who, r)),
    ;

    /// The local chain has a new best block.
    fn update_chain_info(&mut self, best_hash: &BlockHash, best_number: BlockNumber)
        ensures
            final(self).history() == old(self).history().push(
                Call::UpdateChainInfo(*best_hash, best_number),
            ),
    ;

    /// Asks for the justification of a block.
    fn request_justification(&mut self, hash: &BlockHash, number: BlockNumber)
        ensures
            final(self).history() == old(self).history().push(
                Call::RequestJustification(*hash, number),
            ),
    ;

    /// Drops all requests for justifications.
    fn clear_justification_requests(&mut self)
        ensures
            final(self).history() == old(self).history().push(Call::ClearJustificationRequests),
    ;

    /// Asks for a block of a fork from the given peers.
    fn set_sync_fork_request(&mut self, peers: Vec<PeerId>, hash: &BlockHash, number: BlockNumber)
        ensures
            final(self).history() == old(self).history().push(
                Call::SetSyncForkRequest(peers, *hash, number),
            ),
    ;

    /// The justification requests that are due.
    fn justification_requests(&mut self) -> (due: Vec<(PeerId, BlockRequest)>)
        ensures
            final(self).history() == old(self).history().push(Call::JustificationRequests(due)),
    ;

    /// The block requests that are due, at most one for each peer.
    fn block_requests(&mut self) -> (due: Vec<(PeerId, BlockRequest)>)
        ensures
            final(self).history() == old(self).history().push(Call::BlockRequests(due)),
    ;

    /// The state request that is due, if any.
    fn state_request(&mut self) -> (due: Option<(PeerId, OpaqueStateRequest)>)
        ensures
            final(self).history() == old(self).history().push(Call::StateRequest(due)),
    ;

    /// The warp proof request that is due, if any.
    fn warp_sync_request(&mut self) -> (due: Option<(PeerId, WarpProofRequest)>)
        ensures
            final(self).history() == old(self).history().push(Call::WarpSyncRequest(due)),
    ;

    /// Blocks have come from a peer, in answer to `request` if there is one.
    fn on_block_data(
        &mut self,
        who: &PeerId,
        request: Option<BlockRequest>,
        response: BlockResponse,
    ) -> (r: Result<OnBlockData, BadPeer>)
        ensures
            final(self).history() == old(self).history().push(
                Call::OnBlockData(*who, request, response, r),
            ),
    ;

    /// State has come from a peer.
    fn on_state_data(&mut self, who: &PeerId, response: OpaqueStateResponse) -> (r: Result<
        OnStateData,
        BadPeer,
    >)
        ensures
            final(self).history() == old(self).history().push(
                Call::OnStateData(*who, response, r),
            ),
    ;

    /// A warp proof has come from a peer.
    fn on_warp_sync_data(&mut self, who: &PeerId, response: EncodedProof) -> (r: Result<
        (),
        BadPeer,
    >)
        ensures
            final(self).history() == old(self).history().push(
                Call::OnWarpSyncData(*who, response, r),
            ),
    ;

    /// Justifications have come from a peer.
    fn on_block_justification(&mut self, who: PeerId, response: BlockResponse) -> (r: Result<
        OnBlockJustification,
        BadPeer,
    >)
        ensures
            final(self).history() == old(self).history().push(
                Call::OnBlockJustification(who, response, r),
            ),
    ;

    /// The import queue has processed blocks. The answer holds the requests
    /// to send next and the peers to drop.
    fn on_blocks_processed(
        &mut self,
        imported: usize,
        count: usize,
        results: Vec<BlockImportResult>,
    ) -> (r: Vec<Result<(PeerId, BlockRequest), BadPeer>>)
        ensures
            final(self).history() == old(self).history().push(
                Call::OnBlocksProcessed(imported, count, results, r),
            ),
    ;

    /// The import queue has processed a justification.
    fn on_justification_import(&mut self, hash: BlockHash, number: BlockNumber, success: bool)
        ensures
            final(self).history() == old(self).history().push(
                Call::OnJustificationImport(hash, number, success),
            ),
    ;

    /// A block has been finalized.
    fn on_block_finalized(&mut self, hash: &BlockHash, number: BlockNumber)
        ensures
            final(self).history() == old(self).history().push(
                Call::OnBlockFinalized(*hash, number),
            ),
    ;

    /// Hands in a block announcement for validation.
    fn push_block_announce_validation(
        &mut self,
        who: PeerId,
        hash: BlockHash,
        announce: BlockAnnounce,
        is_best: bool,
    )
        ensures
            final(self).history() == old(self).history().push(
                Call::PushBlockAnnounceValidation(who, hash, announce, is_best),
            ),
    ;

    /// The verdict on an announcement whose validation has finished, if
    /// there is one.
    fn poll_block_announce_validation(&mut self) -> (r: Option<PollBlockAnnounceValidation>)
        ensures
            final(self).history() == old(self).history().push(
                Call::PollBlockAnnounceValidation(r),
            ),
    ;
}

} // verus!

//! A state machine that follows a script: it keeps the peers that register,
//! answers from lists that were filled in beforehand, and notes every call.
//! It stands in for a real state machine where the orchestrator is tried out.

use crate::chain_sync::{Call, ChainSync};
use crate::primitives::{position_of, BlockHash, BlockNumber, PeerId};
use crate::reputation::ReputationChange;
use crate::sync_types::{
    BadPeer, BlockAnnounce, BlockData, BlockImportResult, BlockRequest, BlockResponse, Direction,
    EncodedProof, OnBlockData, OnBlockJustification, OnStateData, OpaqueBlockRequest,
    OpaqueBlockResponse, OpaqueStateRequest, OpaqueStateResponse, PollBlockAnnounceValidation,
    SyncState, SyncStatus, WarpProofRequest,
};
use vstd::prelude::*;

verus! {

/// The kind of a call that the scripted state machine has seen.
#[derive(Clone, Copy, Debug, PartialEq, Eq, Structural)]
pub enum CallKind {
    NewPeer,
    PeerDisconnected,
    UpdateChainInfo,
    RequestJustification,
    ClearJustificationRequests,
    SetSyncForkRequest,
    JustificationRequests,
    BlockRequests,
    StateRequest,
    WarpSyncRequest,
    OnBlockData,
    OnStateData,
    OnWarpSyncData,
    OnBlockJustification,
    OnBlocksProcessed,
    OnJustificationImport,
    OnBlockFinalized,
    PushBlockAnnounceValidation,
    PollBlockAnnounceValidation,
}

/// A state machine that follows a script.
pub struct ScriptedSync {
    /// The peers that have registered and not left, in order.
    pub registered: Vec<PeerId>,
    /// If set, every peer that registers is turned down with this penalty.
    pub refuse_new_peers: Option<ReputationChange>,
    /// The request that every peer gets when it registers, if any.
    pub first_request: Option<BlockRequest>,
    /// The block requests that are reported as due next.
    pub due_block_requests: Vec<(PeerId, BlockRequest)>,
    /// The justification requests that are reported as due next.
    pub due_justification_requests: Vec<(PeerId, BlockRequest)>,
    /// The state request that is reported as due next.
    pub due_state_request: Option<(PeerId, OpaqueStateRequest)>,
    /// The warp proof request that is reported as due next.
    pub due_warp_sync_request: Option<(PeerId, WarpProofRequest)>,
    /// The answers to block data, first to last; once they are used up
    /// the answer is to continue.
    pub block_data_answers: Vec<Result<OnBlockData, BadPeer>>,
    /// The answers to justifications; then the answer is that there is
    /// nothing.
    pub justification_answers: Vec<Result<OnBlockJustification, BadPeer>>,
    /// The answers to state data; then the answer is to continue.
    pub state_data_answers: Vec<Result<OnStateData, BadPeer>>,
    /// The answers to warp proofs; then the answer is that all is well.
    pub warp_sync_answers: Vec<Result<(), BadPeer>>,
    /// What the next report on processed blocks is answered with.
    pub processed_answers: Vec<Result<(PeerId, BlockRequest), BadPeer>>,
    /// The verdicts on announcements that are ready to be fetched.
    pub validation_results: Vec<PollBlockAnnounceValidation>,
    /// The blocks that the next disconnect makes ready for import.
    pub disconnect_answer: Option<OnBlockData>,
    /// The best block that `status` reports as seen.
    pub best_seen_block: Option<BlockNumber>,
    /// The number of queued blocks that `status` reports.
    pub queued_blocks: u32,
    /// The number of downloaded blocks that is reported.
    pub downloaded_blocks: usize,
    /// The number of fork requests that is reported.
    pub sync_requests: usize,
    /// The kinds of the calls seen so far, oldest first.
    pub seen: Vec<CallKind>,
    /// The calls seen so far with their arguments, oldest first.
    pub history: Ghost<Seq<Call>>,
}

/// The byte that stands for a direction in the scripted encoding.
pub open spec fn direction_byte(direction: Direction) -> u8 {
    match direction {
        Direction::Ascending => 0,
        Direction::Descending => 1,
    }
}

/// The number of peers as a status reports it.
pub open spec fn clamped(n: usize) -> u32 {
    if n > u32::MAX {
        u32::MAX
    } else {
        n as u32
    }
}

/// A part of the script.
#[derive(Clone, Copy, Debug, PartialEq, Eq, Structural)]
pub enum ScriptPart {
    Registered,
    DueBlockRequests,
    DueJustificationRequests,
    DueStateRequest,
    DueWarpSyncRequest,
    BlockDataAnswers,
    JustificationAnswers,
    StateDataAnswers,
    WarpSyncAnswers,
    ProcessedAnswers,
    ValidationResults,
    DisconnectAnswer,
}

/// From `a` to `b` the script is the same but for the parts in `changed`
/// and for the notes of the calls seen.
pub open spec fn same_script_except(a: ScriptedSync, b: ScriptedSync, changed: Set<ScriptPart>) -> bool {
    &&& b.refuse_new_peers == a.refuse_new_peers
    &&& b.first_request == a.first_request
    &&& b.best_seen_block == a.best_seen_block
    &&& b.queued_blocks == a.queued_blocks
    &&& b.downloaded_blocks == a.downloaded_blocks
    &&& b.sync_requests == a.sync_requests
    &&& changed.contains(ScriptPart::Registered) || b.registered == a.registered
    &&& changed.contains(ScriptPart::DueBlockRequests) || b.due_block_requests
        == a.due_block_requests
    &&& changed.contains(ScriptPart::DueJustificationRequests) || b.due_justification_requests
        == a.due_justification_requests
    &&& changed.contains(ScriptPart::DueStateRequest) || b.due_state_request == a.due_state_request
    &&& changed.contains(ScriptPart::DueWarpSyncRequest) || b.due_warp_sync_request
        == a.due_warp_sync_request
    &&& changed.contains(ScriptPart::BlockDataAnswers) || b.block_data_answers
        == a.block_data_answers
    &&& changed.contains(ScriptPart::JustificationAnswers) || b.justification_answers
        == a.justification_answers
    &&& changed.contains(ScriptPart::StateDataAnswers) || b.state_data_answers
        == a.state_data_answers
    &&& changed.contains(ScriptPart::WarpSyncAnswers) || b.warp_sync_answers == a.warp_sync_answers
    &&& changed.contains(ScriptPart::ProcessedAnswers) || b.processed_answers
        == a.processed_answers
    &&& changed.contains(ScriptPart::ValidationResults) || b.validation_results
        == a.validation_results
    &&& changed.contains(ScriptPart::DisconnectAnswer) || b.disconnect_answer == a.disconnect_answer
}

/// The answer that is given next from a list of answers, or `otherwise`
/// once the list is used up.
pub open spec fn next_answer<T>(answers: Seq<T>, otherwise: T) -> T {
    if answers.len() > 0 {
        answers[0]
    } else {
        otherwise
    }
}

/// The answers that are left after the next one was given.
pub open spec fn answers_left<T>(answers: Seq<T>) -> Seq<T> {
    if answers.len() > 0 {
        answers.drop_first()
    } else {
        answers
    }
}

impl ScriptedSync {
    /// A state machine with an empty script and no peers.
    pub fn new() -> (sync: ScriptedSync)
        ensures
            sync.history() == Seq::<Call>::empty(),
            sync.seen@.len() == 0,
            sync.registered@.len() == 0,
            sync.refuse_new_peers.is_none(),
            sync.first_request.is_none(),
            sync.due_block_requests@.len() == 0,
            sync.due_justification_requests@.len() == 0,
            sync.due_state_request.is_none(),
            sync.due_warp_sync_request.is_none(),
            sync.block_data_answers@.len() == 0,
            sync.justification_answers@.len() == 0,
            sync.state_data_answers@.len() == 0,
            sync.warp_sync_answers@.len() == 0,
            sync.processed_answers@.len() == 0,
            sync.validation_results@.len() == 0,
            sync.disconnect_answer.is_none(),
            sync.best_seen_block.is_none(),
            sync.queued_blocks == 0,
            sync.downloaded_blocks == 0,
            sync.sync_requests == 0,
    {
        ScriptedSync {
            registered: Vec::new(),
            refuse_new_peers: None,
            first_request: None,
            due_block_requests: Vec::new(),
            due_justification_requests: Vec::new(),
            due_state_request: None,
            due_warp_sync_request: None,
            block_data_answers: Vec::new(),
            justification_answers: Vec::new(),
            state_data_answers: Vec::new(),
            warp_sync_answers: Vec::new(),
            processed_answers: Vec::new(),
            validation_results: Vec::new(),
            disconnect_answer: None,
            best_seen_block: None,
            queued_blocks: 0,
            downloaded_blocks: 0,
            sync_requests: 0,
            seen: Vec::new(),
            history: Ghost(Seq::empty()),
        }
    }

    /// Notes a call.
    fn note(&mut self, kind: CallKind, Ghost(call): Ghost<Call>)
        ensures
            final(self).history() == old(self).history().push(call),
            final(self).seen@ == old(self).seen@.push(kind),
            same_script_except(*old(self), *final(self), Set::empty()),
    {
        self.seen.push(kind);
        self.history = Ghost(self.history@.push(call));
    }
}

impl ChainSync for ScriptedSync {
    open spec fn history(&self) -> Seq<Call> {
        self.history@
    }

    open spec fn status_spec(&self) -> SyncStatus {
        SyncStatus {
            state: if self.best_seen_block.is_some() {
                SyncState::Downloading
            } else {
                SyncState::Idle
            },
            best_seen_block: self.best_seen_block,
            num_peers: clamped(self.registered@.len() as usize),
            queued_blocks: self.queued_blocks,
        }
    }

    open spec fn num_sync_requests_spec(&self) -> usize {
        self.sync_requests
    }

    open spec fn num_downloaded_blocks_spec(&self) -> usize {
        self.downloaded_blocks
    }

    open spec fn num_peers_spec(&self) -> usize {
        self.registered@.len() as usize
    }

    open spec fn opaque_block_request_spec(request: BlockRequest) -> OpaqueBlockRequest {
        OpaqueBlockRequest {
            fields: request.fields.bits as u32,
            from: request.from,
            direction: request.direction,
            max_blocks: match request.max {
                Some(max) => max,
                None => 0,
            },
            support_multiple_justifications: true,
        }
    }

    open spec fn encoded_block_request_spec(request: OpaqueBlockRequest) -> Result<
        Seq<u8>,
        Seq<char>,
    > {
        Ok(
            seq![
                direction_byte(request.direction),
                if request.support_multiple_justifications {
                    1u8
                } else {
                    0u8
                },
            ],
        )
    }

    open spec fn encoded_state_request_spec(request: OpaqueStateRequest) -> Result<
        Seq<u8>,
        Seq<char>,
    > {
        Ok(request.start@)
    }

    open spec fn decoded_block_response(response: Seq<u8>) -> Option<Seq<BlockData>> {
        if response.len() > 0 {
            Some(Seq::empty())
        } else {
            None
        }
    }

    open spec fn decoded_state_response(response: Seq<u8>) -> Option<(Seq<u8>, Seq<u8>)> {
        if response.len() > 0 {
            Some((response, Seq::empty()))
        } else {
            None
        }
    }

    open spec fn blocks_of_response(request: BlockRequest, blocks: Seq<BlockData>) -> Option<
        Seq<BlockData>,
    > {
        match request.max {
            Some(max) => if blocks.len() > max {
                None
            } else {
                Some(blocks)
            },
            None => Some(blocks),
        }
    }

    fn status(&self) -> (status: SyncStatus) {
        let n = self.registered.len();
        SyncStatus {
            state: if self.best_seen_block.is_some() {
                SyncState::Downloading
            } else {
                SyncState::Idle
            },
            best_seen_block: self.best_seen_block,
            num_peers: if n > u32::MAX as usize {
                u32::MAX
            } else {
                n as u32
            },
            queued_blocks: self.queued_blocks,
        }
    }

    fn num_sync_requests(&self) -> (n: usize) {
        self.sync_requests
    }

    fn num_downloaded_blocks(&self) -> (n: usize) {
        self.downloaded_blocks
    }

    fn num_peers(&self) -> (n: usize) {
        self.registered.len()
    }

    fn create_opaque_block_request(&self, request: &BlockRequest) -> (opaque: OpaqueBlockRequest) {
        OpaqueBlockRequest {
            fields: request.fields.bits as u32,
            from: request.from,
            direction: request.direction,
            max_blocks: match request.max {
                Some(max) => max,
                None => 0,
            },
            support_multiple_justifications: true,
        }
    }

    fn encode_block_request(&self, request: &OpaqueBlockRequest) -> (r: Result<Vec<u8>, String>) {
        let mut bytes: Vec<u8> = Vec::new();
        bytes.push(
            match request.direction {
                Direction::Ascending => 0,
                Direction::Descending => 1,
            },
        );
        bytes.push(
            if request.support_multiple_justifications {
                1
            } else {
                0
            },
        );
        proof {
            assert(bytes@ =~= Self::encoded_block_request_spec(*request)->Ok_0);
        }
        Ok(bytes)
    }

    fn encode_state_request(&self, request: &OpaqueStateRequest) -> (r: Result<Vec<u8>, String>) {
        let bytes = request.start.clone();
        proof {
            assert(bytes@ =~= request.start@);
        }
        Ok(bytes)
    }

    fn decode_block_response(&self, response: &Vec<u8>) -> (r: Result<OpaqueBlockResponse, String>) {
        if response.len() > 0 {
            Ok(OpaqueBlockResponse { blocks: Vec::new() })
        } else {
            Err(String::new())
        }
    }

    fn decode_state_response(&self, response: &Vec<u8>) -> (r: Result<OpaqueStateResponse, String>) {
        if response.len() > 0 {
            let entries = response.clone();
            proof {
                assert(entries@ =~= response@);
            }
            Ok(OpaqueStateResponse { entries, proof: Vec::new() })
        } else {
            Err(String::new())
        }
    }

    fn block_response_into_blocks(
        &self,
        request: &BlockRequest,
        response: OpaqueBlockResponse,
    ) -> (r: Result<Vec<BlockData>, String>) {
        match request.max {
            Some(max) => if response.blocks.len() > max as usize {
                Err(String::new())
            } else {
                Ok(response.blocks)
            },
            None => Ok(response.blocks),
        }
    }

    fn new_peer(&mut self, who: PeerId, best_hash: BlockHash, best_number: BlockNumber) -> (r:
        Result<Option<BlockRequest>, BadPeer>)
        ensures
            final(self).seen@ == old(self).seen@.push(CallKind::NewPeer),
            same_script_except(*old(self), *final(self), set![ScriptPart::Registered]),
            r == (match old(self).refuse_new_peers {
                Some(change) => Err::<Option<BlockRequest>, BadPeer>(BadPeer(who, change)),
                None => Ok(old(self).first_request),
            }),
            final(self).registered@ == (if old(self).refuse_new_peers.is_some() || old(
                self,
            ).registered@.contains(who) {
                old(self).registered@
            } else {
                old(self).registered@.push(who)
            }),
    {
        let r = match self.refuse_new_peers {
            Some(change) => Err(BadPeer(who, change)),
            None => {
                if position_of(&self.registered, &who).is_none() {
                    self.registered.push(who);
                }
                Ok(self.first_request)
            },
        };
        self.note(CallKind::NewPeer, Ghost(Call::NewPeer(who, best_hash, best_number, r)));
        r
    }

    fn peer_disconnected(&mut self, who: &PeerId) -> (r: Option<OnBlockData>)
        ensures
            final(self).seen@ == old(self).seen@.push(CallKind::PeerDisconnected),
            same_script_except(
                *old(self),
                *final(self),
                set![ScriptPart::Registered, ScriptPart::DisconnectAnswer],
            ),
            r == old(self).disconnect_answer,
            final(self).disconnect_answer.is_none(),
            final(self).registered@ == old(self).registered@.remove_value(*who),
    {
        let found = position_of(&self.registered, who);
        proof {
            self.registered@.index_of_first_ensures(*who);
            if let Some(i) = found {
                assert(self.registered@.index_of_first(*who) == Some(i as int));
            }
        }
        if let Some(i) = found {
            self.registered.remove(i);
        }
        let r = self.disconnect_answer.take();
        self.note(CallKind::PeerDisconnected, Ghost(Call::PeerDisconnected(*who, r)));
        r
    }

    fn update_chain_info(&mut self, best_hash: &BlockHash, best_number: BlockNumber)
        ensures
            final(self).seen@ == old(self).seen@.push(CallKind::UpdateChainInfo),
            same_script_except(*old(self), *final(self), Set::empty()),
    {
        self.note(CallKind::UpdateChainInfo, Ghost(Call::UpdateChainInfo(*best_hash, best_number)));
    }

    fn request_justification(&mut self, hash: &BlockHash, number: BlockNumber)
        ensures
            final(self).seen@ == old(self).seen@.push(CallKind::RequestJustification),
            same_script_except(*old(self), *final(self), Set::empty()),
    {
        self.note(
            CallKind::RequestJustification,
            Ghost(Call::RequestJustification(*hash, number)),
        );
    }

    fn clear_justification_requests(&mut self)
        ensures
            final(self).seen@ == old(self).seen@.push(CallKind::ClearJustificationRequests),
            same_script_except(*old(self), *final(self), Set::empty()),
    {
        self.note(CallKind::ClearJustificationRequests, Ghost(Call::ClearJustificationRequests));
    }

    fn set_sync_fork_request(&mut self, peers: Vec<PeerId>, hash: &BlockHash, number: BlockNumber)
        ensures
            final(self).seen@ == old(self).seen@.push(CallKind::SetSyncForkRequest),
            same_script_except(*old(self), *final(self), Set::empty()),
    {
        self.note(
            CallKind::SetSyncForkRequest,
            Ghost(Call::SetSyncForkRequest(peers, *hash, number)),
        );
    }

    fn justification_requests(&mut self) -> (due: Vec<(PeerId, BlockRequest)>)
        ensures
            final(self).seen@ == old(self).seen@.push(CallKind::JustificationRequests),
            same_script_except(*old(self), *final(self), set![ScriptPart::DueJustificationRequests]),
            due == old(self).due_justification_requests,
            final(self).due_justification_requests@.len() == 0,
    {
        let mut due: Vec<(PeerId, BlockRequest)> = Vec::new();
        core::mem::swap(&mut self.due_justification_requests, &mut due);
        self.note(CallKind::JustificationRequests, Ghost(Call::JustificationRequests(due)));
        due
    }

    fn block_requests(&mut self) -> (due: Vec<(PeerId, BlockRequest)>)
        ensures
            final(self).seen@ == old(self).seen@.push(CallKind::BlockRequests),
            same_script_except(*old(self), *final(self), set![ScriptPart::DueBlockRequests]),
            due == old(self).due_block_requests,
            final(self).due_block_requests@.len() == 0,
    {
        let mut due: Vec<(PeerId, BlockRequest)> = Vec::new();
        core::mem::swap(&mut self.due_block_requests, &mut due);
        self.note(CallKind::BlockRequests, Ghost(Call::BlockRequests(due)));
        due
    }

    fn state_request(&mut self) -> (due: Option<(PeerId, OpaqueStateRequest)>)
        ensures
            final(self).seen@ == old(self).seen@.push(CallKind::StateRequest),
            same_script_except(*old(self), *final(self), set![ScriptPart::DueStateRequest]),
            due == old(self).due_state_request,
            final(self).due_state_request.is_none(),
    {
        let due = self.due_state_request.take();
        self.note(CallKind::StateRequest, Ghost(Call::StateRequest(due)));
        due
    }

    fn warp_sync_request(&mut self) -> (due: Option<(PeerId, WarpProofRequest)>)
        ensures
            final(self).seen@ == old(self).seen@.push(CallKind::WarpSyncRequest),
            same_script_except(*old(self), *final(self), set![ScriptPart::DueWarpSyncRequest]),
            due == old(self).due_warp_sync_request,
            final(self).due_warp_sync_request.is_none(),
    {
        let due = self.due_warp_sync_request.take();
        self.note(CallKind::WarpSyncRequest, Ghost(Call::WarpSyncRequest(due)));
        due
    }

    fn on_block_data(
        &mut self,
        who: &PeerId,
        request: Option<BlockRequest>,
        response: BlockResponse,
    ) -> (r: Result<OnBlockData, BadPeer>)
        ensures
            final(self).seen@ == old(self).seen@.push(CallKind::OnBlockData),
            same_script_except(*old(self), *final(self), set![ScriptPart::BlockDataAnswers]),
            r == next_answer(old(self).block_data_answers@, Ok(OnBlockData::Continue)),
            final(self).block_data_answers@ == answers_left(old(self).block_data_answers@),
    {
        let r = if self.block_data_answers.len() > 0 {
            self.block_data_answers.remove(0)
        } else {
            Ok(OnBlockData::Continue)
        };
        self.note(CallKind::OnBlockData, Ghost(Call::OnBlockData(*who, request, response, r)));
        r
    }

    fn on_state_data(&mut self, who: &PeerId, response: OpaqueStateResponse) -> (r: Result<
        OnStateData,
        BadPeer,
    >)
        ensures
            final(self).seen@ == old(self).seen@.push(CallKind::OnStateData),
            same_script_except(*old(self), *final(self), set![ScriptPart::StateDataAnswers]),
            r == next_answer(old(self).state_data_answers@, Ok(OnStateData::Continue)),
            final(self).state_data_answers@ == answers_left(old(self).state_data_answers@),
    {
        let r = if self.state_data_answers.len() > 0 {
            self.state_data_answers.remove(0)
        } else {
            Ok(OnStateData::Continue)
        };
        self.note(CallKind::OnStateData, Ghost(Call::OnStateData(*who, response, r)));
        r
    }

    fn on_warp_sync_data(&mut self, who: &PeerId, response: EncodedProof) -> (r: Result<
        (),
        BadPeer,
    >)
        ensures
            final(self).seen@ == old(self).seen@.push(CallKind::OnWarpSyncData),
            same_script_except(*old(self), *final(self), set![ScriptPart::WarpSyncAnswers]),
            r == next_answer(old(self).warp_sync_answers@, Ok(())),
            final(self).warp_sync_answers@ == answers_left(old(self).warp_sync_answers@),
    {
        let r = if self.warp_sync_answers.len() > 0 {
            self.warp_sync_answers.remove(0)
        } else {
            Ok(())
        };
        self.note(CallKind::OnWarpSyncData, Ghost(Call::OnWarpSyncData(*who, response, r)));
        r
    }

    fn on_block_justification(&mut self, who: PeerId, response: BlockResponse) -> (r: Result<
        OnBlockJustification,
        BadPeer,
    >)
        ensures
            final(self).seen@ == old(self).seen@.push(CallKind::OnBlockJustification),
            same_script_except(*old(self), *final(self), set![ScriptPart::JustificationAnswers]),
            r == next_answer(old(self).justification_answers@, Ok(OnBlockJustification::Nothing)),
            final(self).justification_answers@ == answers_left(old(self).justification_answers@),
    {
        let r = if self.justification_answers.len() > 0 {
            self.justification_answers.remove(0)
        } else {
            Ok(OnBlockJustification::Nothing)
        };
        self.note(
            CallKind::OnBlockJustification,
            Ghost(Call::OnBlockJustification(who, response, r)),
        );
        r
    }

    fn on_blocks_processed(
        &mut self,
        imported: usize,
        count: usize,
        results: Vec<BlockImportResult>,
    ) -> (r: Vec<Result<(PeerId, BlockRequest), BadPeer>>)
        ensures
            final(self).seen@ == old(self).seen@.push(CallKind::OnBlocksProcessed),
            same_script_except(*old(self), *final(self), set![ScriptPart::ProcessedAnswers]),
            r == old(self).processed_answers,
            final(self).processed_answers@.len() == 0,
    {
        let mut answers: Vec<Result<(PeerId, BlockRequest), BadPeer>> = Vec::new();
        core::mem::swap(&mut self.processed_answers, &mut answers);
        self.note(
            CallKind::OnBlocksProcessed,
            Ghost(Call::OnBlocksProcessed(imported, count, results, answers)),
        );
        answers
    }

    fn on_justification_import(&mut self, hash: BlockHash, number: BlockNumber, success: bool)
        ensures
            final(self).seen@ == old(self).seen@.push(CallKind::OnJustificationImport),
            same_script_except(*old(self), *final(self), Set::empty()),
    {
        self.note(
            CallKind::OnJustificationImport,
            Ghost(Call::OnJustificationImport(hash, number, success)),
        );
    }

    fn on_block_finalized(&mut self, hash: &BlockHash, number: BlockNumber)
        ensures
            final(self).seen@ == old(self).seen@.push(CallKind::OnBlockFinalized),
            same_script_except(*old(self), *final(self), Set::empty()),
    {
        self.note(CallKind::OnBlockFinalized, Ghost(Call::OnBlockFinalized(*hash, number)));
    }

    fn push_block_announce_validation(
        &mut self,
        who: PeerId,
        hash: BlockHash,
        announce: BlockAnnounce,
        is_best: bool,
    )
        ensures
            final(self).seen@ == old(self).seen@.push(CallKind::PushBlockAnnounceValidation),
            same_script_except(*old(self), *final(self), Set::empty()),
    {
        self.note(
            CallKind::PushBlockAnnounceValidation,
            Ghost(Call::PushBlockAnnounceValidation(who, hash, announce, is_best)),
        );
    }

    fn poll_block_announce_validation(&mut self) -> (r: Option<PollBlockAnnounceValidation>)
        ensures
            final(self).seen@ == old(self).seen@.push(CallKind::PollBlockAnnounceValidation),
            same_script_except(*old(self), *final(self), set![ScriptPart::ValidationResults]),
            r == (if old(self).validation_results@.len() > 0 {
                Some(old(self).validation_results@[0])
            } else {
                None
            }),
            final(self).validation_results@ == answers_left(old(self).validation_results@),
    {
        let r = if self.validation_results.len() > 0 {
            Some(self.validation_results.remove(0))
        } else {
            None
        };
        self.note(
            CallKind::PollBlockAnnounceValidation,
            Ghost(Call::PollBlockAnnounceValidation(r)),
        );
        r
    }
}

} // verus!

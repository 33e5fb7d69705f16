//! The vocabulary shared with the chain-synchronisation state machine:
//! requests it plans, responses it interprets and what it asks for in return.

use crate::primitives::{BlockHash, BlockNumber, PeerId};
use crate::reputation::ReputationChange;
use vstd::prelude::*;

verus! {

/// Attribute bit that asks for a block's justification.
pub const ATTRIBUTE_JUSTIFICATION: u8 = 16;

/// The parts of a block that a request asks for, one bit each.
#[derive(Clone, Copy, Debug, PartialEq, Eq, Structural)]
pub struct BlockAttributes {
    pub bits: u8,
}

/// Where a block request starts.
#[derive(Clone, Copy, Debug, PartialEq, Eq)]
pub enum FromBlock {
    Hash(BlockHash),
    Number(BlockNumber),
}

/// The direction in which a block request walks the chain.
#[derive(Clone, Copy, Debug, PartialEq, Eq, Structural)]
pub enum Direction {
    Ascending,
    Descending,
}

/// A request for a range of blocks, as the state machine plans it.
#[derive(Clone, Copy, Debug, PartialEq, Eq)]
pub struct BlockRequest {
    pub id: u64,
    pub fields: BlockAttributes,
    pub from: FromBlock,
    pub direction: Direction,
    pub max: Option<u32>,
}

impl BlockRequest {
    /// Whether the request asks for justifications and nothing else.
    pub open spec fn spec_is_justification_request(&self) -> bool {
        self.fields.bits == ATTRIBUTE_JUSTIFICATION
    }

    #[verifier::when_used_as_spec(spec_is_justification_request)]
    pub fn is_justification_request(&self) -> (r: bool)
        ensures
            r == self.spec_is_justification_request(),
    {
        self.fields.bits == ATTRIBUTE_JUSTIFICATION
    }
}

/// A block request in the form in which it goes on the wire.
#[derive(Clone, Copy, Debug, PartialEq, Eq)]
pub struct OpaqueBlockRequest {
    pub fields: u32,
    pub from: FromBlock,
    pub direction: Direction,
    pub max_blocks: u32,
    pub support_multiple_justifications: bool,
}

/// A request for a part of the state at one block.
#[derive(Clone, Debug, PartialEq, Eq)]
pub struct OpaqueStateRequest {
    pub block: BlockHash,
    pub start: Vec<u8>,
    pub no_proof: bool,
}

/// A request for a warp proof that starts at one block.
#[derive(Clone, Copy, Debug, PartialEq, Eq)]
pub struct WarpProofRequest {
    pub begin: BlockHash,
}

/// A warp proof as it came off the wire.
#[derive(Clone, Debug, PartialEq, Eq)]
pub struct EncodedProof {
    pub bytes: Vec<u8>,
}

/// A block header: the number and hash it stands for, and its encoding.
#[derive(Clone, Debug, PartialEq, Eq)]
pub struct Header {
    pub number: BlockNumber,
    pub hash: BlockHash,
    pub encoded: Vec<u8>,
}

/// One block of a response.
#[derive(Clone, Debug, PartialEq, Eq)]
pub struct BlockData {
    pub hash: BlockHash,
    pub header: Option<Header>,
    pub body: Option<Vec<u8>>,
    pub justifications: Option<Vec<u8>>,
}

/// A decoded block response that has not been matched to its request yet.
#[derive(Clone, Debug, PartialEq, Eq)]
pub struct OpaqueBlockResponse {
    pub blocks: Vec<BlockData>,
}

/// A decoded state response.
#[derive(Clone, Debug, PartialEq, Eq)]
pub struct OpaqueStateResponse {
    pub entries: Vec<u8>,
    pub proof: Vec<u8>,
}

/// The blocks that answer the request with the same `id`.
#[derive(Clone, Debug, PartialEq, Eq)]
pub struct BlockResponse {
    pub id: u64,
    pub blocks: Vec<BlockData>,
}

/// Where a block that is handed to the import queue came from.
#[derive(Clone, Copy, Debug, PartialEq, Eq, Structural)]
pub enum BlockOrigin {
    Genesis,
    NetworkInitialSync,
    NetworkBroadcast,
    ConsensusBroadcast,
    Own,
    File,
}

/// A block on its way to the import queue.
#[derive(Clone, Debug, PartialEq, Eq)]
pub struct IncomingBlock {
    pub hash: BlockHash,
    pub header: Option<Header>,
    pub body: Option<Vec<u8>>,
    pub justifications: Option<Vec<u8>>,
    pub origin: Option<PeerId>,
    pub skip_execution: bool,
}

/// The justifications of one block, encoded.
#[derive(Clone, Debug, PartialEq, Eq)]
pub struct Justifications {
    pub encoded: Vec<u8>,
}

/// A peer that the state machine wants gone, and the penalty it asks for.
#[derive(Clone, Copy, Debug, PartialEq, Eq)]
pub struct BadPeer(pub PeerId, pub ReputationChange);

/// What the state machine makes of a block response.
#[derive(Clone, Debug, PartialEq, Eq)]
pub enum OnBlockData {
    /// Blocks are ready for the import queue.
    Import(BlockOrigin, Vec<IncomingBlock>),
    /// Another request should go out to a peer.
    Request(PeerId, BlockRequest),
    /// Nothing to do for now.
    Continue,
}

/// What the state machine makes of a state response.
#[derive(Clone, Debug, PartialEq, Eq)]
pub enum OnStateData {
    /// The state is complete and its block is ready for import.
    Import(BlockOrigin, IncomingBlock),
    /// More state is needed.
    Continue,
}

/// What the state machine makes of a justification response.
#[derive(Clone, Debug, PartialEq, Eq)]
pub enum OnBlockJustification {
    /// The response held nothing of use.
    Nothing,
    /// Justifications are ready for import.
    Import { peer: PeerId, hash: BlockHash, number: BlockNumber, justifications: Justifications },
}

/// Whether an announced block is the announcer's new best block.
#[derive(Clone, Copy, Debug, PartialEq, Eq, Structural)]
pub enum BlockState {
    Normal,
    Best,
}

/// A block announcement: the header, and what came with it.
#[derive(Clone, Debug, PartialEq, Eq)]
pub struct BlockAnnounce {
    pub header: Header,
    pub state: Option<BlockState>,
    pub data: Option<Vec<u8>>,
}

/// The verdict of the state machine on a block announcement.
#[derive(Clone, Debug, PartialEq, Eq)]
pub enum PollBlockAnnounceValidation {
    /// The announcement failed validation.
    Failure { who: PeerId, disconnect: bool },
    /// The announcement is fine and asks for nothing.
    Nothing { who: PeerId, is_best: bool, announce: BlockAnnounce },
    /// The announced header should be imported.
    ImportHeader { who: PeerId, is_best: bool, announce: BlockAnnounce },
    /// The announcement was dropped.
    Skip,
}

/// What the state machine is busy with.
#[derive(Clone, Copy, Debug, PartialEq, Eq, Structural)]
pub enum SyncState {
    Idle,
    Downloading,
}

/// A summary of the state machine.
#[derive(Clone, Copy, Debug, PartialEq, Eq, Structural)]
pub struct SyncStatus {
    pub state: SyncState,
    pub best_seen_block: Option<BlockNumber>,
    pub num_peers: u32,
    pub queued_blocks: u32,
}

/// How the import of one block ended.
#[derive(Clone, Copy, Debug, PartialEq, Eq)]
pub enum BlockImportStatus {
    ImportedKnown(BlockNumber, Option<PeerId>),
    ImportedUnknown(BlockNumber, Option<PeerId>),
}

/// Why the import of one block failed.
#[derive(Clone, Copy, Debug, PartialEq, Eq)]
pub enum BlockImportError {
    IncompleteHeader(Option<PeerId>),
    VerificationFailed(Option<PeerId>),
    BadBlock(Option<PeerId>),
    MissingState,
    UnknownParent,
    Cancelled,
    Other,
}

/// The result of importing the block with the given hash.
#[derive(Clone, Copy, Debug, PartialEq, Eq)]
pub struct BlockImportResult {
    pub hash: BlockHash,
    pub outcome: Result<BlockImportStatus, BlockImportError>,
}

} // verus!

//! What the orchestrator hands to the surrounding network layer: outcome
//! events, effects on peers, and the records of requests that are in flight.

use crate::primitives::{BlockHash, BlockNumber, PeerId};
use crate::reputation::ReputationChange;
use crate::sync_types::{
    BlockOrigin, BlockRequest, IncomingBlock, Justifications, OpaqueBlockRequest,
    OpaqueStateRequest, WarpProofRequest,
};
use vstd::prelude::*;

verus! {

/// The single-use slot through which the answer to one request comes back.
#[derive(Clone, Copy, Debug, PartialEq, Eq, Hash, Structural)]
pub struct ReplySlot {
    pub id: u64,
}

/// An effect for the surrounding network layer to carry out.
#[derive(Clone, Debug, PartialEq, Eq)]
pub enum CustomMessageOutcome {
    /// Blocks for the import queue.
    BlockImport(BlockOrigin, Vec<IncomingBlock>),
    /// Justifications for the import queue.
    JustificationImport(PeerId, BlockHash, BlockNumber, Justifications),
    /// A block request to send; the answer is expected in `pending_response`.
    BlockRequest { target: PeerId, request: OpaqueBlockRequest, pending_response: ReplySlot },
    /// A state request to send; the answer is expected in `pending_response`.
    StateRequest { target: PeerId, request: OpaqueStateRequest, pending_response: ReplySlot },
    /// A warp proof request to send; the answer is expected in `pending_response`.
    WarpSyncRequest { target: PeerId, request: WarpProofRequest, pending_response: ReplySlot },
    /// A peer has joined synchronisation.
    SyncConnected(PeerId),
    /// A peer has left synchronisation.
    SyncDisconnected(PeerId),
    /// Nothing to do.
    Nothing,
}

/// What is to be done about a peer.
#[derive(Clone, Copy, Debug, PartialEq, Eq)]
pub enum PeerAction {
    /// Leave the peer alone.
    Ignore,
    /// Drop the connection to the peer.
    Disconnect,
    /// Drop the connection and lower the peer's reputation.
    DisconnectAndReport(ReputationChange),
    /// Lower the peer's reputation and keep the connection.
    Report(ReputationChange),
}

/// One effect on a peer, for the network layer to carry out.
#[derive(Clone, Copy, Debug, PartialEq, Eq)]
pub enum PeerEffect {
    /// Drop the connection to the peer.
    Disconnect(PeerId),
    /// Change the peer's reputation.
    Report(PeerId, ReputationChange),
}

/// The effects on `who` that carry out `action`, in order.
pub open spec fn effects_of(who: PeerId, action: PeerAction) -> Seq<PeerEffect> {
    match action {
        PeerAction::Ignore => seq![],
        PeerAction::Disconnect => seq![PeerEffect::Disconnect(who)],
        PeerAction::DisconnectAndReport(change) => seq![
            PeerEffect::Disconnect(who),
            PeerEffect::Report(who, change),
        ],
        PeerAction::Report(change) => seq![PeerEffect::Report(who, change)],
    }
}

/// The kind of a request that is in flight, with what is needed to read
/// the answer.
#[derive(Clone, Copy, Debug, PartialEq, Eq)]
pub enum PeerRequest {
    Block(BlockRequest),
    State,
    WarpProof,
}

/// A request that is in flight: whom it went to and what it asked for.
#[derive(Clone, Copy, Debug, PartialEq, Eq)]
pub struct PendingRecord {
    pub peer: PeerId,
    pub request: PeerRequest,
}

/// How a connection failed under a request.
#[derive(Clone, Copy, Debug, PartialEq, Eq, Structural)]
pub enum OutboundFailure {
    /// The peer could not be dialled.
    DialFailure,
    /// No answer came in time.
    Timeout,
    /// The connection closed before the answer came.
    ConnectionClosed,
    /// The peer does not speak the protocol.
    UnsupportedProtocols,
}

/// Why a request failed.
#[derive(Clone, Copy, Debug, PartialEq, Eq, Structural)]
pub enum RequestFailure {
    /// No connection to the peer.
    NotConnected,
    /// The protocol of the request was never registered.
    UnknownProtocol,
    /// The peer refused to answer.
    Refused,
    /// The request was dropped in favour of a newer one.
    Obsolete,
    /// The connection failed.
    Network(OutboundFailure),
}

/// The reply slot was dropped without an answer.
#[derive(Clone, Copy, Debug, PartialEq, Eq, Structural)]
pub struct Canceled;

} // verus!

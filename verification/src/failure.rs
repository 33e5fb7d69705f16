//! From a failed request to what is done about the peer.

use crate::outcome::{OutboundFailure, PeerAction, RequestFailure};
use crate::reputation::{bad_protocol, refused, timeout, ReputationChange};
use vstd::prelude::*;

verus! {

/// Failures that the network layer never reports for a request that was
/// sent over a registered protocol and whose reply slot is still held.
pub open spec fn cannot_occur(failure: RequestFailure) -> bool {
    failure is UnknownProtocol || failure is Obsolete
}

/// What is done about a peer whose request failed with `failure`.
pub open spec fn action_for(failure: RequestFailure) -> PeerAction {
    match failure {
        RequestFailure::Network(OutboundFailure::Timeout) => PeerAction::DisconnectAndReport(
            timeout(),
        ),
        RequestFailure::Network(OutboundFailure::UnsupportedProtocols) => {
            PeerAction::DisconnectAndReport(bad_protocol())
        },
        RequestFailure::Network(OutboundFailure::DialFailure) => PeerAction::Disconnect,
        RequestFailure::Refused => PeerAction::DisconnectAndReport(refused()),
        RequestFailure::Network(OutboundFailure::ConnectionClosed) => PeerAction::Disconnect,
        RequestFailure::NotConnected => PeerAction::Disconnect,
        RequestFailure::UnknownProtocol => PeerAction::Ignore,
        RequestFailure::Obsolete => PeerAction::Ignore,
    }
}

/// Maps a failed request to the action on its peer.
pub fn classify(failure: RequestFailure) -> (action: PeerAction)
    requires
        !cannot_occur(failure),
    ensures
        action == action_for(failure),
{
    match failure {
        RequestFailure::Network(OutboundFailure::Timeout) => PeerAction::DisconnectAndReport(
            ReputationChange::timeout(),
        ),
        RequestFailure::Network(OutboundFailure::UnsupportedProtocols) => {
            PeerAction::DisconnectAndReport(ReputationChange::bad_protocol())
        },
        RequestFailure::Network(OutboundFailure::DialFailure) => PeerAction::Disconnect,
        RequestFailure::Refused => PeerAction::DisconnectAndReport(ReputationChange::refused()),
        RequestFailure::Network(OutboundFailure::ConnectionClosed) => PeerAction::Disconnect,
        RequestFailure::NotConnected => PeerAction::Disconnect,
        RequestFailure::UnknownProtocol => PeerAction::Ignore,
        RequestFailure::Obsolete => PeerAction::Ignore,
    }
}

/// The action when the reply slot was dropped without an answer: the
/// request counts as cancelled and the peer is disconnected.
pub open spec fn action_for_canceled() -> PeerAction {
    PeerAction::Disconnect
}

} // verus!

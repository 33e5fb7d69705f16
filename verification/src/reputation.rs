//! Reputation changes that the orchestrator hands out on its own account.

use vstd::prelude::*;

verus! {

/// A signed adjustment of a peer's standing, with the reason for it.
#[derive(Clone, Copy, Debug, PartialEq, Eq)]
pub struct ReputationChange {
    pub value: i32,
    pub reason: &'static str,
}

/// The adjustment that bans a peer outright.
pub const FATAL: i32 = -2147483648;

/// Size of the adjustment for: a peer did not answer a request in time.
pub const TIMEOUT: i32 = -1024;

/// Size of the adjustment for: a peer refused a request.
pub const REFUSED: i32 = -1024;

/// Size of the adjustment for: a peer sent bytes that do not decode.
pub const BAD_MESSAGE: i32 = -4096;

/// Size of the adjustment for: a peer is on another chain.
pub const GENESIS_MISMATCH: i32 = FATAL;

/// Size of the adjustment for: a peer does not speak the request protocol.
pub const BAD_PROTOCOL: i32 = FATAL;

/// Size of the adjustment for: a peer declares a role that this node cannot use.
pub const BAD_ROLE: i32 = FATAL;

/// Size of the adjustment for: a peer announced a block that failed validation.
pub const BAD_BLOCK_ANNOUNCEMENT: i32 = -4096;

/// Size of the adjustment for: a peer provided a justification that failed to import.
pub const INVALID_JUSTIFICATION: i32 = FATAL;

/// A peer did not answer a request in time.
pub open spec fn timeout() -> ReputationChange {
    ReputationChange { value: TIMEOUT, reason: "Request timeout" }
}

/// A peer refused a request.
pub open spec fn refused() -> ReputationChange {
    ReputationChange { value: REFUSED, reason: "Request refused" }
}

/// A peer sent bytes that do not decode.
pub open spec fn bad_message() -> ReputationChange {
    ReputationChange { value: BAD_MESSAGE, reason: "Bad message" }
}

/// A peer is on another chain.
pub open spec fn genesis_mismatch() -> ReputationChange {
    ReputationChange { value: GENESIS_MISMATCH, reason: "Genesis mismatch" }
}

/// A peer does not speak the request protocol.
pub open spec fn bad_protocol() -> ReputationChange {
    ReputationChange { value: BAD_PROTOCOL, reason: "Unsupported protocol" }
}

/// A peer declares a role that this node cannot use.
pub open spec fn bad_role() -> ReputationChange {
    ReputationChange { value: BAD_ROLE, reason: "Unsupported role" }
}

/// A peer announced a block that failed validation.
pub open spec fn bad_block_announcement() -> ReputationChange {
    ReputationChange { value: BAD_BLOCK_ANNOUNCEMENT, reason: "Bad block announcement" }
}

/// A peer provided a justification that failed to import.
pub open spec fn invalid_justification() -> ReputationChange {
    ReputationChange { value: INVALID_JUSTIFICATION, reason: "Invalid justification" }
}

impl ReputationChange {
    /// A peer did not answer a request in time.
    pub fn timeout() -> (r: ReputationChange)
        ensures
            r == self::timeout(),
    {
        ReputationChange { value: TIMEOUT, reason: "Request timeout" }
    }

    /// A peer refused a request.
    pub fn refused() -> (r: ReputationChange)
        ensures
            r == self::refused(),
    {
        ReputationChange { value: REFUSED, reason: "Request refused" }
    }

    /// A peer sent bytes that do not decode.
    pub fn bad_message() -> (r: ReputationChange)
        ensures
            r == self::bad_message(),
    {
        ReputationChange { value: BAD_MESSAGE, reason: "Bad message" }
    }

    /// A peer is on another chain.
    pub fn genesis_mismatch() -> (r: ReputationChange)
        ensures
            r == self::genesis_mismatch(),
    {
        ReputationChange { value: GENESIS_MISMATCH, reason: "Genesis mismatch" }
    }

    /// A peer does not speak the request protocol.
    pub fn bad_protocol() -> (r: ReputationChange)
        ensures
            r == self::bad_protocol(),
    {
        ReputationChange { value: BAD_PROTOCOL, reason: "Unsupported protocol" }
    }

    /// A peer declares a role that this node cannot use.
    pub fn bad_role() -> (r: ReputationChange)
        ensures
            r == self::bad_role(),
    {
        ReputationChange { value: BAD_ROLE, reason: "Unsupported role" }
    }

    /// A peer announced a block that failed validation.
    pub fn bad_block_announcement() -> (r: ReputationChange)
        ensures
            r == self::bad_block_announcement(),
    {
        ReputationChange { value: BAD_BLOCK_ANNOUNCEMENT, reason: "Bad block announcement" }
    }

    /// A peer provided a justification that failed to import.
    pub fn invalid_justification() -> (r: ReputationChange)
        ensures
            r == self::invalid_justification(),
    {
        ReputationChange { value: INVALID_JUSTIFICATION, reason: "Invalid justification" }
    }

    /// Whether this change bans the peer.
    pub fn is_fatal(&self) -> (r: bool)
        ensures
            r == (self.value == FATAL),
    {
        self.value == FATAL
    }
}

} // verus!

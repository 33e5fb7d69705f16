//! The handshake of the block announces protocol, and how it is written in
//! bytes: one byte for the roles, the number of the best block in eight
//! bytes, least significant first, the hash of the best block, and the hash
//! of the first block.

use crate::primitives::{BlockHash, BlockNumber, Roles};
use vstd::bytes::{
    lemma_auto_spec_u64_to_from_le_bytes, spec_u64_to_le_bytes, u64_from_le_bytes,
    u64_to_le_bytes,
};
use vstd::prelude::*;
use vstd::slice::slice_subrange;

verus! {

/// Number of bytes of a handshake.
pub const HANDSHAKE_LENGTH: usize = 73;

/// The role bits that have a meaning.
pub const KNOWN_ROLES: u8 = 7;

/// What a peer presents when the block announces protocol opens.
#[derive(Clone, Copy, Debug, PartialEq, Eq)]
pub struct BlockAnnouncesHandshake {
    /// Roles of the peer.
    pub roles: Roles,
    /// Number of the peer's best block.
    pub best_number: BlockNumber,
    /// Hash of the peer's best block.
    pub best_hash: BlockHash,
    /// Hash of the first block of the peer's chain.
    pub genesis_hash: BlockHash,
}

/// Whether the handshake declares no role that has no meaning. Only such
/// handshakes are written and read.
pub open spec fn has_known_roles(handshake: BlockAnnouncesHandshake) -> bool {
    handshake.roles.bits <= KNOWN_ROLES
}

/// The bytes of a handshake.
pub open spec fn encoded_handshake(handshake: BlockAnnouncesHandshake) -> Seq<u8> {
    seq![handshake.roles.bits] + spec_u64_to_le_bytes(handshake.best_number)
        + handshake.best_hash.bytes@ + handshake.genesis_hash.bytes@
}

/// Whether `bytes` are the bytes of `handshake`.
pub open spec fn encodes(bytes: Seq<u8>, handshake: BlockAnnouncesHandshake) -> bool {
    has_known_roles(handshake) && encoded_handshake(handshake) == bytes
}

/// The handshake that `bytes` stand for, if they stand for one.
pub open spec fn decoded_handshake(bytes: Seq<u8>) -> Option<BlockAnnouncesHandshake> {
    if exists|handshake: BlockAnnouncesHandshake| encodes(bytes, handshake) {
        Some(choose|handshake: BlockAnnouncesHandshake| encodes(bytes, handshake))
    } else {
        None
    }
}

/// The parts of the bytes of a handshake.
proof fn lemma_encoded_parts(handshake: BlockAnnouncesHandshake)
    ensures
        encoded_handshake(handshake).len() == HANDSHAKE_LENGTH,
        encoded_handshake(handshake)[0] == handshake.roles.bits,
        encoded_handshake(handshake).subrange(1, 9) == spec_u64_to_le_bytes(
            handshake.best_number,
        ),
        encoded_handshake(handshake).subrange(9, 41) == handshake.best_hash.bytes@,
        encoded_handshake(handshake).subrange(41, 73) == handshake.genesis_hash.bytes@,
{
    broadcast use vstd::array::array_len_matches_n;

    lemma_auto_spec_u64_to_from_le_bytes();
}

/// No two handshakes are written in the same bytes.
pub proof fn law_handshake_bytes_are_unique(a: BlockAnnouncesHandshake, b: BlockAnnouncesHandshake)
    requires
        encoded_handshake(a) == encoded_handshake(b),
    ensures
        a == b,
{
    broadcast use vstd::array::axiom_array_ext_equal;

    lemma_encoded_parts(a);
    lemma_encoded_parts(b);
    lemma_auto_spec_u64_to_from_le_bytes();
    assert(a.best_hash.bytes == b.best_hash.bytes);
    assert(a.genesis_hash.bytes == b.genesis_hash.bytes);
}

/// Reading the bytes of a handshake gives the handshake back.
pub proof fn law_handshake_round_trip(handshake: BlockAnnouncesHandshake)
    requires
        has_known_roles(handshake),
    ensures
        decoded_handshake(encoded_handshake(handshake)) == Some(handshake),
{
    let bytes = encoded_handshake(handshake);
    assert(encodes(bytes, handshake));
    let chosen = choose|h: BlockAnnouncesHandshake| encodes(bytes, h);
    law_handshake_bytes_are_unique(chosen, handshake);
}

/// The 32 bytes of `bytes` from position `start` on, as a hash.
fn read_hash(bytes: &Vec<u8>, start: usize) -> (hash: BlockHash)
    requires
        start + 32 <= bytes.len(),
    ensures
        hash.bytes@ == bytes@.subrange(start as int, start + 32),
{
    let mut hash = BlockHash { bytes: [0u8;32] };
    let mut i: usize = 0;
    while i < 32
        invariant
            i <= 32,
            start + 32 <= bytes.len(),
            hash.bytes@.len() == 32,
            forall|j: int| 0 <= j < i ==> hash.bytes@[j] == bytes@[start + j],
        decreases 32 - i,
    {
        hash.bytes[i] = bytes[start + i];
        i = i + 1;
    }
    hash
}

/// Appends the bytes of `hash` to `bytes`.
fn write_hash(bytes: &mut Vec<u8>, hash: &BlockHash)
    ensures
        final(bytes)@ == old(bytes)@ + hash.bytes@,
{
    let mut i: usize = 0;
    while i < 32
        invariant
            i <= 32,
            hash.bytes@.len() == 32,
            bytes@ == old(bytes)@ + hash.bytes@.take(i as int),
        decreases 32 - i,
    {
        bytes.push(hash.bytes[i]);
        i = i + 1;
    }
}

impl BlockAnnouncesHandshake {
    /// Reads a handshake from bytes that hold a handshake and nothing
    /// else.
    pub fn decode_all(bytes: &Vec<u8>) -> (r: Option<BlockAnnouncesHandshake>)
        ensures
            r == decoded_handshake(bytes@),
    {
        if bytes.len() != HANDSHAKE_LENGTH || bytes[0] > KNOWN_ROLES {
            proof {
                assert forall|h: BlockAnnouncesHandshake| !encodes(bytes@, h) by {
                    lemma_encoded_parts(h);
                }
            }
            return None;
        }
        let roles = Roles { bits: bytes[0] };
        let best_number = u64_from_le_bytes(slice_subrange(bytes.as_slice(), 1, 9));
        let best_hash = read_hash(bytes, 9);
        let genesis_hash = read_hash(bytes, 41);
        let handshake = BlockAnnouncesHandshake { roles, best_number, best_hash, genesis_hash };
        proof {
            lemma_auto_spec_u64_to_from_le_bytes();
            assert(encoded_handshake(handshake) =~= bytes@);
            assert(encodes(bytes@, handshake));
            let chosen = choose|h: BlockAnnouncesHandshake| encodes(bytes@, h);
            law_handshake_bytes_are_unique(chosen, handshake);
        }
        Some(handshake)
    }

    /// Writes the handshake in bytes.
    pub fn encode(&self) -> (bytes: Vec<u8>)
        ensures
            bytes@ == encoded_handshake(*self),
    {
        let mut bytes: Vec<u8> = Vec::new();
        bytes.push(self.roles.bits);
        let mut number = u64_to_le_bytes(self.best_number);
        bytes.append(&mut number);
        write_hash(&mut bytes, &self.best_hash);
        write_hash(&mut bytes, &self.genesis_hash);
        bytes
    }
}

} // verus!

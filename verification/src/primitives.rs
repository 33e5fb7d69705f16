//! Identities and small value types shared by the whole crate.

use vstd::prelude::*;

verus! {

/// Number of a block in the chain.
pub type BlockNumber = u64;

/// Values that stand for an identity: two of them denote the same thing
/// exactly when they are equal.
pub trait Key: Copy {
    /// Whether `self` and `other` are the same value.
    fn same(&self, other: &Self) -> (r: bool)
        ensures
            r == (*self == *other),
    ;
}

/// Position of the first element of `items` that is the same as `e`.
pub fn position_of<T: Key>(items: &Vec<T>, e: &T) -> (r: Option<usize>)
    ensures
        match r {
            Some(i) => i < items@.len() && items@[i as int] == *e && forall|j: int|
                0 <= j < i ==> items@[j] != *e,
            None => !items@.contains(*e),
        },
{
    let mut i: usize = 0;
    while i < items.len()
        invariant
            i <= items@.len(),
            forall|j: int| 0 <= j < i ==> items@[j] != *e,
        decreases items@.len() - i,
    {
        if items[i].same(e) {
            return Some(i);
        }
        i = i + 1;
    }
    None
}

/// Largest number of bytes of a peer identity.
pub const PEER_ID_CAPACITY: usize = 66;

/// The identity of a remote node: the bytes under which the network layer
/// knows it.
#[derive(Clone, Copy, Debug, PartialEq, Eq, Hash, PartialOrd, Ord)]
pub struct PeerId {
    len: u8,
    bytes: [u8; 66],
}

impl PeerId {
    /// The bytes past the length of the identity are zero, so that equal
    /// identities are equal values.
    #[verifier::type_invariant]
    closed spec fn padded(self) -> bool {
        &&& self.len <= PEER_ID_CAPACITY
        &&& forall|i: int| self.len <= i < PEER_ID_CAPACITY ==> self.bytes@[i] == 0
    }

    /// The bytes of the identity.
    pub closed spec fn view(&self) -> Seq<u8> {
        self.bytes@.take(self.len as int)
    }

    /// The identity with the given bytes; `None` if there are more bytes
    /// than an identity has at most.
    pub fn from_bytes(bytes: &Vec<u8>) -> (r: Option<PeerId>)
        ensures
            r is Some <==> bytes@.len() <= PEER_ID_CAPACITY,
            r matches Some(id) ==> id@ == bytes@,
    {
        if bytes.len() > PEER_ID_CAPACITY {
            return None;
        }
        let mut padded = [0u8;66];
        let mut i: usize = 0;
        while i < bytes.len()
            invariant
                i <= bytes.len() <= PEER_ID_CAPACITY,
                padded@.len() == PEER_ID_CAPACITY,
                forall|j: int| 0 <= j < i ==> padded@[j] == bytes@[j],
                forall|j: int| i <= j < PEER_ID_CAPACITY ==> padded@[j] == 0,
            decreases bytes.len() - i,
        {
            padded[i] = bytes[i];
            i = i + 1;
        }
        let id = PeerId { len: bytes.len() as u8, bytes: padded };
        proof {
            assert(id@ =~= bytes@);
        }
        Some(id)
    }

    /// The bytes of the identity.
    pub fn to_bytes(&self) -> (bytes: Vec<u8>)
        ensures
            bytes@ == self@,
            bytes@.len() <= PEER_ID_CAPACITY,
    {
        proof {
            use_type_invariant(self);
        }
        let mut bytes: Vec<u8> = Vec::new();
        let mut i: usize = 0;
        while i < self.len as usize
            invariant
                i <= self.len <= PEER_ID_CAPACITY,
                self.bytes@.len() == PEER_ID_CAPACITY,
                bytes@ == self.bytes@.take(i as int),
            decreases self.len - i,
        {
            bytes.push(self.bytes[i]);
            proof {
                assert(self.bytes@.take(i + 1) =~= self.bytes@.take(i as int).push(
                    self.bytes@[i as int],
                ));
            }
            i = i + 1;
        }
        bytes
    }
}

impl Key for PeerId {
    fn same(&self, other: &Self) -> (r: bool)
        ensures
            r == (self@ == other@),
    {
        proof {
            use_type_invariant(self);
            use_type_invariant(other);
            assert(self@.len() == self.len && other@.len() == other.len);
        }
        if self.len != other.len {
            return false;
        }
        let mut i: usize = 0;
        while i < PEER_ID_CAPACITY
            invariant
                i <= PEER_ID_CAPACITY,
                self.len == other.len,
                self.padded(),
                other.padded(),
                self.bytes@.len() == PEER_ID_CAPACITY,
                other.bytes@.len() == PEER_ID_CAPACITY,
                forall|j: int| 0 <= j < i ==> self.bytes@[j] == other.bytes@[j],
            decreases PEER_ID_CAPACITY - i,
        {
            if self.bytes[i] != other.bytes[i] {
                proof {
                    assert(i < self.len);
                    assert(self@[i as int] == self.bytes@[i as int]);
                    assert(other@[i as int] == other.bytes@[i as int]);
                }
                return false;
            }
            i = i + 1;
        }
        proof {
            broadcast use vstd::array::axiom_array_ext_equal;

            assert(self.bytes@ =~= other.bytes@);
            assert(self.bytes == other.bytes);
        }
        true
    }
}

/// A 256-bit block hash.
#[derive(Clone, Copy, Debug, PartialEq, Eq, Hash, PartialOrd, Ord)]
pub struct BlockHash {
    pub bytes: [u8; 32],
}

impl Key for BlockHash {
    fn same(&self, other: &Self) -> (r: bool) {
        let mut i: usize = 0;
        while i < 32
            invariant
                i <= 32,
                forall|j: int| 0 <= j < i ==> self.bytes@[j] == other.bytes@[j],
            decreases 32 - i,
        {
            if self.bytes[i] != other.bytes[i] {
                return false;
            }
            i = i + 1;
        }
        proof {
            broadcast use vstd::array::axiom_array_ext_equal;

            assert(self.bytes == other.bytes);
        }
        true
    }
}

/// Role bit of a node that holds and serves the full chain.
pub const ROLE_FULL: u8 = 1;

/// Role bit of a node that only follows headers.
pub const ROLE_LIGHT: u8 = 2;

/// Role bit of a node that also takes part in block production.
pub const ROLE_AUTHORITY: u8 = 4;

/// The roles a node declares, one bit each.
#[derive(Clone, Copy, Debug, PartialEq, Eq, Structural)]
pub struct Roles {
    pub bits: u8,
}

impl Roles {
    /// The roles of a full node.
    pub fn full() -> (roles: Roles)
        ensures
            roles.bits == ROLE_FULL,
            roles.is_full(),
    {
        assert(1u8 & (1u8 | 4u8) != 0) by (bit_vector);
        Roles { bits: ROLE_FULL }
    }

    /// The roles of a light node.
    pub fn light() -> (roles: Roles)
        ensures
            roles.bits == ROLE_LIGHT,
            roles.is_light(),
    {
        assert(2u8 & (1u8 | 4u8) == 0) by (bit_vector);
        Roles { bits: ROLE_LIGHT }
    }

    /// The roles of a node that takes part in block production.
    pub fn authority() -> (roles: Roles)
        ensures
            roles.bits == ROLE_AUTHORITY,
            roles.is_full(),
    {
        assert(4u8 & (1u8 | 4u8) != 0) by (bit_vector);
        Roles { bits: ROLE_AUTHORITY }
    }

    /// A node is full when it declares the full or the authority role.
    pub open spec fn spec_is_full(&self) -> bool {
        self.bits & (ROLE_FULL | ROLE_AUTHORITY) != 0
    }

    /// Every node that is not full counts as light.
    pub open spec fn spec_is_light(&self) -> bool {
        !self.spec_is_full()
    }

    #[verifier::when_used_as_spec(spec_is_full)]
    pub fn is_full(&self) -> (r: bool)
        ensures
            r == self.spec_is_full(),
    {
        self.bits & (ROLE_FULL | ROLE_AUTHORITY) != 0
    }

    #[verifier::when_used_as_spec(spec_is_light)]
    pub fn is_light(&self) -> (r: bool)
        ensures
            r == self.spec_is_light(),
    {
        !self.is_full()
    }
}

} // verus!

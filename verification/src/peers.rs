//! The peers that take part in synchronisation: what is known of each, the
//! table that holds them, and plain sets of peer identities.

use crate::known_blocks::{lru_insert, LruHashSet};
use crate::primitives::{position_of, BlockHash, BlockNumber, PeerId, Roles};
use crate::seq_map::{
    lemma_index_of_unique, lemma_seq_map_dom, lemma_seq_map_push, lemma_seq_map_remove,
    lemma_seq_map_update, paired, seq_map,
};
use vstd::prelude::*;

verus! {

/// Number of block hashes remembered for each peer.
pub const MAX_KNOWN_BLOCKS: usize = 1024;

/// What a peer has told about itself.
#[derive(Clone, Copy, Debug, PartialEq, Eq)]
pub struct PeerInfo {
    pub roles: Roles,
    pub best_hash: BlockHash,
    pub best_number: BlockNumber,
}

/// A connected peer.
#[derive(Debug)]
pub struct Peer {
    pub info: PeerInfo,
    /// Hashes of the blocks that the peer is known to have.
    pub known_blocks: LruHashSet<BlockHash>,
}

/// A peer as contracts speak of it.
pub struct PeerView {
    pub info: PeerInfo,
    /// The known blocks, oldest first.
    pub known_blocks: Seq<BlockHash>,
    /// How many known blocks are kept at most.
    pub limit: nat,
}

impl Peer {
    pub open spec fn view(&self) -> PeerView {
        PeerView {
            info: self.info,
            known_blocks: self.known_blocks@,
            limit: self.known_blocks.limit(),
        }
    }

    /// The set of known blocks is well-formed and keeps as many blocks as
    /// are remembered for a peer.
    pub open spec fn wf(&self) -> bool {
        self.known_blocks.wf() && self.known_blocks.limit() == MAX_KNOWN_BLOCKS
    }

    /// A peer of which no block is known yet.
    pub fn new(info: PeerInfo) -> (peer: Peer)
        ensures
            peer.wf(),
            peer@ == fresh_peer(info),
    {
        Peer { info, known_blocks: LruHashSet::new(MAX_KNOWN_BLOCKS) }
    }
}

impl Clone for Peer {
    fn clone(&self) -> (copy: Self)
        ensures
            copy@ == self@,
            self.wf() ==> copy.wf(),
    {
        Peer { info: self.info, known_blocks: self.known_blocks.clone() }
    }
}

/// At most `MAX_KNOWN_BLOCKS` blocks are known of the peer, none of them
/// twice.
pub open spec fn within_known_limit(peer: PeerView) -> bool {
    &&& peer.limit == MAX_KNOWN_BLOCKS
    &&& peer.known_blocks.len() <= peer.limit
    &&& peer.known_blocks.no_duplicates()
}

/// The view of a peer that has just connected.
pub open spec fn fresh_peer(info: PeerInfo) -> PeerView {
    PeerView { info, known_blocks: Seq::empty(), limit: MAX_KNOWN_BLOCKS as nat }
}

/// The view of a peer after it has announced the block `hash`.
pub open spec fn with_known_block(peer: PeerView, hash: BlockHash) -> PeerView {
    PeerView { known_blocks: lru_insert(peer.known_blocks, peer.limit, hash), ..peer }
}

/// The connected peers, each under its identity.
#[derive(Debug)]
pub struct PeerTable {
    ids: Vec<PeerId>,
    peers: Vec<Peer>,
}

impl PeerTable {
    /// No identity occurs twice, and every peer is well-formed.
    pub closed spec fn wf(&self) -> bool {
        &&& paired(self.ids@, self.peers@)
        &&& forall|i: int| 0 <= i < self.peers@.len() ==> (#[trigger] self.peers@[i]).wf()
    }

    /// The peers by identity.
    pub closed spec fn view(&self) -> Map<PeerId, PeerView> {
        seq_map(self.ids@, self.peers@.map_values(|p: Peer| p@))
    }

    /// The identities in the order in which the peers connected.
    pub closed spec fn order(&self) -> Seq<PeerId> {
        self.ids@
    }

    /// The table is finite, and `order` lists exactly its identities, once each.
    pub proof fn lemma_order(&self)
        requires
            self.wf(),
        ensures
            self@.dom().finite(),
            self@.dom().len() == self.order().len(),
            self.order().no_duplicates(),
            self.order().to_set() == self@.dom(),
    {
        lemma_seq_map_dom(self.ids@, self.peers@.map_values(|p: Peer| p@));
    }

    /// Of every peer in the table at most `MAX_KNOWN_BLOCKS` blocks are
    /// known, none of them twice.
    pub proof fn lemma_known_blocks(&self)
        requires
            self.wf(),
        ensures
            forall|who: PeerId| #[trigger]
                self@.dom().contains(who) ==> within_known_limit(self@[who]),
    {
        let views = self.peers@.map_values(|p: Peer| p@);
        lemma_seq_map_dom(self.ids@, views);
        assert forall|who: PeerId| #[trigger] self@.dom().contains(who) implies within_known_limit(
            self@[who],
        ) by {
            let i = choose|i: int| 0 <= i < self.ids@.len() && self.ids@[i] == who;
            assert(self@[self.ids@[i]] == views[i]);
            assert(self.peers@[i].wf());
            self.peers@[i].known_blocks.law_bounded();
        }
    }

    /// A table without peers.
    pub fn new() -> (table: PeerTable)
        ensures
            table.wf(),
            table@ == Map::<PeerId, PeerView>::empty(),
            table.order() == Seq::<PeerId>::empty(),
    {
        let table = PeerTable { ids: Vec::new(), peers: Vec::new() };
        proof {
            assert(table@ =~= Map::<PeerId, PeerView>::empty());
        }
        table
    }

    /// Number of connected peers.
    pub fn len(&self) -> (n: usize)
        requires
            self.wf(),
        ensures
            n == self@.dom().len(),
            n == self.order().len(),
    {
        proof {
            self.lemma_order();
        }
        self.ids.len()
    }

    /// Whether `who` is connected.
    pub fn contains_key(&self, who: &PeerId) -> (r: bool)
        requires
            self.wf(),
        ensures
            r == self@.dom().contains(*who),
    {
        position_of(&self.ids, who).is_some()
    }

    /// What `who` has told about itself, if it is connected.
    pub fn info(&self, who: &PeerId) -> (r: Option<PeerInfo>)
        requires
            self.wf(),
        ensures
            r == (if self@.dom().contains(*who) {
                Some(self@[*who].info)
            } else {
                None
            }),
    {
        match position_of(&self.ids, who) {
            Some(i) => {
                proof {
                    lemma_index_of_unique(self.ids@, i as int);
                }
                Some(self.peers[i].info)
            },
            None => None,
        }
    }

    /// Adds `peer` under the identity `who` and says whether it was added:
    /// a peer that is connected already stays as it is.
    pub fn insert(&mut self, who: PeerId, peer: Peer) -> (added: bool)
        requires
            old(self).wf(),
            peer.wf(),
        ensures
            final(self).wf(),
            added == !old(self)@.dom().contains(who),
            added ==> final(self)@ == old(self)@.insert(who, peer@) && final(self).order() == old(
                self,
            ).order().push(who),
            !added ==> final(self)@ == old(self)@ && final(self).order() == old(self).order(),
    {
        if position_of(&self.ids, &who).is_some() {
            return false;
        }
        proof {
            let views = self.peers@.map_values(|p: Peer| p@);
            lemma_seq_map_push(self.ids@, views, who, peer@);
            assert(self.peers@.push(peer).map_values(|p: Peer| p@) =~= views.push(peer@));
        }
        self.ids.push(who);
        self.peers.push(peer);
        true
    }

    /// Removes `who` and hands back its peer, if it is connected.
    pub fn remove(&mut self, who: &PeerId) -> (r: Option<Peer>)
        requires
            old(self).wf(),
        ensures
            final(self).wf(),
            final(self)@ == old(self)@.remove(*who),
            match r {
                Some(peer) => old(self)@.dom().contains(*who) && peer@ == old(self)@[*who]
                    && peer.wf(),
                None => !old(self)@.dom().contains(*who),
            },
            final(self).order() == old(self).order().remove_value(*who),
    {
        match position_of(&self.ids, who) {
            Some(i) => {
                proof {
                    let views = self.peers@.map_values(|p: Peer| p@);
                    lemma_index_of_unique(self.ids@, i as int);
                    lemma_seq_map_remove(self.ids@, views, i as int);
                    assert(self.peers@.remove(i as int).map_values(|p: Peer| p@) =~= views.remove(
                        i as int,
                    ));
                    self.ids@.index_of_first_ensures(*who);
                    assert(self.ids@.index_of_first(*who) == Some(i as int));
                }
                self.ids.remove(i);
                let peer = self.peers.remove(i);
                Some(peer)
            },
            None => {
                proof {
                    self.ids@.index_of_first_ensures(*who);
                    assert(self@.remove(*who) =~= self@);
                }
                None
            },
        }
    }

    /// Records that `who` has the block `hash`, and says whether that was
    /// new; `None` if `who` is not connected.
    pub fn insert_known_block(&mut self, who: &PeerId, hash: BlockHash) -> (r: Option<bool>)
        requires
            old(self).wf(),
        ensures
            final(self).wf(),
            final(self).order() == old(self).order(),
            match r {
                Some(fresh) => old(self)@.dom().contains(*who) && final(self)@ == old(self)@.insert(
                    *who,
                    with_known_block(old(self)@[*who], hash),
                ) && fresh == !old(self)@[*who].known_blocks.contains(hash),
                None => !old(self)@.dom().contains(*who) && final(self)@ == old(self)@,
            },
    {
        match position_of(&self.ids, who) {
            Some(i) => {
                let ghost views = self.peers@.map_values(|p: Peer| p@);
                proof {
                    lemma_index_of_unique(self.ids@, i as int);
                }
                let mut peer = self.peers.remove(i);
                let fresh = peer.known_blocks.insert(hash);
                proof {
                    lemma_seq_map_update(self.ids@, views, i as int, peer@);
                    assert(self.peers@.insert(i as int, peer).map_values(|p: Peer| p@)
                        =~= views.update(i as int, peer@));
                }
                self.peers.insert(i, peer);
                Some(fresh)
            },
            None => None,
        }
    }

    /// The connected peers with their identities, in connection order.
    pub fn entries(&self) -> (list: Vec<(PeerId, Peer)>)
        requires
            self.wf(),
        ensures
            list@.len() == self.order().len(),
            forall|i: int|
                0 <= i < list@.len() ==> (#[trigger] list@[i]).0 == self.order()[i] && list@[i].1@
                    == self@[self.order()[i]] && list@[i].1.wf(),
    {
        let mut list: Vec<(PeerId, Peer)> = Vec::new();
        let mut i: usize = 0;
        proof {
            lemma_seq_map_dom(self.ids@, self.peers@.map_values(|p: Peer| p@));
        }
        while i < self.ids.len()
            invariant
                self.wf(),
                i <= self.ids@.len(),
                list@.len() == i,
                forall|j: int|
                    0 <= j < i ==> (#[trigger] list@[j]).0 == self.ids@[j] && list@[j].1@
                        == self.peers@[j]@ && list@[j].1.wf(),
            decreases self.ids@.len() - i,
        {
            list.push((self.ids[i], self.peers[i].clone()));
            i = i + 1;
        }
        list
    }
}

/// A set of peer identities.
#[derive(Debug)]
pub struct PeerSet {
    ids: Vec<PeerId>,
}

impl PeerSet {
    /// No identity is stored twice.
    pub closed spec fn wf(&self) -> bool {
        self.ids@.no_duplicates()
    }

    /// The identities in the set.
    pub closed spec fn view(&self) -> Set<PeerId> {
        self.ids@.to_set()
    }

    /// The set is finite.
    pub proof fn lemma_finite(&self)
        ensures
            self@.finite(),
    {
        vstd::seq_lib::seq_to_set_is_finite(self.ids@);
    }

    /// The empty set.
    pub fn new() -> (set: PeerSet)
        ensures
            set.wf(),
            set@ == Set::<PeerId>::empty(),
    {
        let set = PeerSet { ids: Vec::new() };
        proof {
            assert(set@ =~= Set::<PeerId>::empty());
        }
        set
    }

    /// The set of the identities that occur in `list`.
    pub fn from_list(list: &Vec<PeerId>) -> (set: PeerSet)
        ensures
            set.wf(),
            set@ == list@.to_set(),
    {
        let mut set = PeerSet::new();
        let mut i: usize = 0;
        while i < list.len()
            invariant
                i <= list@.len(),
                set.wf(),
                set@ == list@.take(i as int).to_set(),
            decreases list@.len() - i,
        {
            set.insert(list[i]);
            proof {
                list@.take(i as int).lemma_push_to_set_commute(list@[i as int]);
                assert(list@.take(i as int).push(list@[i as int]) =~= list@.take(i + 1));
            }
            i = i + 1;
        }
        proof {
            assert(list@.take(list@.len() as int) =~= list@);
        }
        set
    }

    /// Number of identities in the set.
    pub fn len(&self) -> (n: usize)
        requires
            self.wf(),
        ensures
            n == self@.len(),
    {
        proof {
            self.ids@.unique_seq_to_set();
        }
        self.ids.len()
    }

    /// Whether `who` is in the set.
    pub fn contains(&self, who: &PeerId) -> (r: bool)
        ensures
            r == self@.contains(*who),
    {
        position_of(&self.ids, who).is_some()
    }

    /// Adds `who` and says whether it was new.
    pub fn insert(&mut self, who: PeerId) -> (fresh: bool)
        requires
            old(self).wf(),
        ensures
            final(self).wf(),
            final(self)@ == old(self)@.insert(who),
            fresh == !old(self)@.contains(who),
    {
        match position_of(&self.ids, &who) {
            Some(_) => {
                proof {
                    assert(self@.insert(who) =~= self@);
                }
                false
            },
            None => {
                proof {
                    self.ids@.lemma_push_to_set_commute(who);
                }
                self.ids.push(who);
                true
            },
        }
    }

    /// Takes `who` out and says whether it was in the set.
    pub fn remove(&mut self, who: &PeerId) -> (found: bool)
        requires
            old(self).wf(),
        ensures
            final(self).wf(),
            final(self)@ == old(self)@.remove(*who),
            found == old(self)@.contains(*who),
    {
        match position_of(&self.ids, who) {
            Some(i) => {
                let ghost before = self.ids@;
                self.ids.remove(i);
                proof {
                    let after = self.ids@;
                    assert(after == before.remove(i as int));
                    assert forall|x: PeerId| after.contains(x) <==> (before.contains(x) && x
                        != *who) by {
                        if after.contains(x) {
                            let j = choose|j: int| 0 <= j < after.len() && after[j] == x;
                            if j < i {
                                assert(before[j] == x);
                            } else {
                                assert(before[j + 1] == x);
                            }
                        }
                        if before.contains(x) && x != *who {
                            let j = choose|j: int| 0 <= j < before.len() && before[j] == x;
                            if j < i {
                                assert(after[j] == x);
                            } else {
                                assert(after[j - 1] == x);
                            }
                        }
                    }
                    assert(after.to_set() =~= before.to_set().remove(*who));
                }
                true
            },
            None => {
                proof {
                    assert(self@.remove(*who) =~= self@);
                }
                false
            },
        }
    }
}

} // verus!

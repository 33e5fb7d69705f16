//! What holds of the orchestrator as a whole, stated over its abstract state
//! and the conditions that its operations establish.

use crate::admission::{
    admission, after_registration, full_budget, info_of, peer_connected_post, protocol_close_post,
    rejection_action, Admission,
};
use crate::announce::{
    after_announce, after_caching, poll_validation_post, stands_for_header,
    validation_result_post, with_effective_event,
};
use crate::chain_sync::{Call, ChainSync};
use crate::commands::after_blocks_processed;
use crate::failure::{action_for, action_for_canceled};
use crate::handshake::BlockAnnouncesHandshake;
use crate::helper::{HelperState, SyncingHelper};
use crate::known_blocks::{law_insert_keeps_bound, lru_insert};
use crate::outcome::{
    effects_of, CustomMessageOutcome, PeerEffect, PeerRequest, PendingRecord, ReplySlot,
};
use crate::peers::{fresh_peer, MAX_KNOWN_BLOCKS};
use crate::primitives::{BlockNumber, PeerId};
use crate::reactor::{
    after_block_requests, after_state_request, after_tick, after_warp_sync_request, react_post,
    ReactorEvent, SyncEvent, SyncReply,
};
use crate::reputation::bad_message;
use crate::responses::{
    after_block_data, after_verdict, block_response_post, pending_response_post,
    warp_sync_response_post, RawResponse,
};
use crate::sync_types::{
    BadPeer, BlockAnnounce, BlockData, BlockRequest, BlockResponse, EncodedProof, OnBlockData,
    OpaqueStateRequest, PollBlockAnnounceValidation, WarpProofRequest,
};
use vstd::prelude::*;

verus! {

/// The connected peers that are full.
pub open spec fn full_peers(s: HelperState) -> Set<PeerId> {
    s.peers.dom().filter(|id: PeerId| s.peers[id].info.roles.is_full())
}

/// There are no more full peers in the table than there are slots for
/// full peers and connected no-slot peers together.
pub open spec fn within_full_budget(s: HelperState) -> bool {
    full_peers(s).len() <= s.num_full + s.no_slot_connected.len()
}

/// One attempt of a peer to join: its handshake, the number of the local
/// best block, how many peers the state machine kept at that moment, and
/// what the state machine answers if it is asked to register the peer.
pub struct Attempt {
    pub who: PeerId,
    pub status: BlockAnnouncesHandshake,
    pub local_best: BlockNumber,
    pub registered: usize,
    pub answer: Result<Option<BlockRequest>, BadPeer>,
}

/// The state after one attempt to join.
pub open spec fn after_attempt<C: ChainSync>(s: HelperState, attempt: Attempt) -> HelperState {
    let verdict = admission(s, attempt.who, attempt.status, attempt.local_best, attempt.registered);
    if verdict != Admission::Accepted {
        s.with_action(attempt.who, rejection_action(verdict))
    } else if !attempt.status.roles.is_full() {
        s.admitted(attempt.who, attempt.status)
    } else {
        after_registration::<C>(
            s.with_call(
                Call::NewPeer(
                    attempt.who,
                    attempt.status.best_hash,
                    attempt.status.best_number,
                    attempt.answer,
                ),
            ),
            attempt.who,
            attempt.status,
            attempt.answer,
        ).0
    }
}

/// The state after a sequence of attempts to join, first to last.
pub open spec fn after_attempts<C: ChainSync>(s: HelperState, attempts: Seq<Attempt>) -> HelperState
    decreases attempts.len(),
{
    if attempts.len() == 0 {
        s
    } else {
        after_attempt::<C>(after_attempts::<C>(s, attempts.drop_last()), attempts.last())
    }
}

/// Whatever `on_sync_peer_connected` leaves behind is the state after one
/// attempt, for some answer of the state machine.
pub proof fn lemma_connected_is_attempt<C: ChainSync>(
    pre: HelperState,
    registered: usize,
    who: PeerId,
    status: BlockAnnouncesHandshake,
    local_best: BlockNumber,
    post: HelperState,
    r: Result<Option<CustomMessageOutcome>, ()>,
)
    requires
        peer_connected_post::<C>(pre, registered, who, status, local_best, post, r),
    ensures
        exists|answer: Result<Option<BlockRequest>, BadPeer>|
            post == #[trigger] after_attempt::<C>(
                pre,
                Attempt { who, status, local_best, registered, answer },
            ),
{
    let verdict = admission(pre, who, status, local_best, registered);
    if verdict == Admission::Accepted && status.roles.is_full() {
        let answer = choose|answer: Result<Option<BlockRequest>, BadPeer>|
            (post, r) == #[trigger] after_registration::<C>(
                pre.with_call(Call::NewPeer(who, status.best_hash, status.best_number, answer)),
                who,
                status,
                answer,
            );
        assert(post == after_attempt::<C>(
            pre,
            Attempt { who, status, local_best, registered, answer },
        ));
    } else {
        let answer: Result<Option<BlockRequest>, BadPeer> = Ok(None);
        assert(post == after_attempt::<C>(
            pre,
            Attempt { who, status, local_best, registered, answer },
        ));
    }
}

/// The full peers after `who` has joined.
proof fn lemma_full_peers_admitted(s: HelperState, who: PeerId, status: BlockAnnouncesHandshake)
    requires
        s.wf(),
        !s.peers.dom().contains(who),
    ensures
        s.admitted(who, status).wf(),
        full_peers(s).finite(),
        full_peers(s.admitted(who, status)) == (if status.roles.is_full() {
            full_peers(s).insert(who)
        } else {
            full_peers(s)
        }),
        !full_peers(s).contains(who),
        !s.no_slot_connected.contains(who),
{
    let t = s.admitted(who, status);
    assert(full_peers(t) =~= (if status.roles.is_full() {
        full_peers(s).insert(who)
    } else {
        full_peers(s)
    }));
    s.peers.dom().lemma_len_filter(|id: PeerId| s.peers[id].info.roles.is_full());
}

/// One attempt to join keeps the state well-formed, and keeps the full
/// peers within their budget if the state machine keeps at least as many
/// peers as there are full peers in the table.
pub proof fn lemma_attempt_keeps_full_budget<C: ChainSync>(s: HelperState, attempt: Attempt)
    requires
        s.wf(),
        within_full_budget(s),
        attempt.registered >= full_peers(s).len(),
    ensures
        after_attempt::<C>(s, attempt).wf(),
        within_full_budget(after_attempt::<C>(s, attempt)),
{
    let who = attempt.who;
    let status = attempt.status;
    let verdict = admission(s, who, status, attempt.local_best, attempt.registered);
    let post = after_attempt::<C>(s, attempt);
    if verdict != Admission::Accepted {
        assert(full_peers(post) =~= full_peers(s));
    } else {
        lemma_full_peers_admitted(s, who, status);
        let called = s.with_call(
            Call::NewPeer(who, status.best_hash, status.best_number, attempt.answer),
        );
        assert(called.admitted(who, status).peers == s.admitted(who, status).peers);
        if !status.roles.is_full() {
            assert(full_peers(post) =~= full_peers(s));
            assert(s.no_slot_connected.len() <= post.no_slot_connected.len());
        } else {
            match attempt.answer {
                Err(_) => {
                    assert(full_peers(post) =~= full_peers(s));
                },
                Ok(_) => {
                    assert(post.peers == s.admitted(who, status).peers);
                    assert(post.no_slot_connected == s.admitted(who, status).no_slot_connected);
                    assert(full_peers(post) =~= full_peers(s).insert(who));
                    assert(attempt.registered < full_budget(s, who));
                },
            }
        }
    }
}

/// One judged handshake keeps the full peers within their budget, provided
/// that the state machine keeps at least as many peers as the table holds
/// full peers.
pub proof fn law_connected_keeps_full_budget<C: ChainSync>(
    pre: HelperState,
    registered: usize,
    who: PeerId,
    status: BlockAnnouncesHandshake,
    local_best: BlockNumber,
    post: HelperState,
    r: Result<Option<CustomMessageOutcome>, ()>,
)
    requires
        pre.wf(),
        within_full_budget(pre),
        registered >= full_peers(pre).len(),
        peer_connected_post::<C>(pre, registered, who, status, local_best, post, r),
    ensures
        post.wf(),
        within_full_budget(post),
{
    lemma_connected_is_attempt::<C>(pre, registered, who, status, local_best, post, r);
    let answer = choose|answer: Result<Option<BlockRequest>, BadPeer>|
        post == #[trigger] after_attempt::<C>(
            pre,
            Attempt { who, status, local_best, registered, answer },
        );
    lemma_attempt_keeps_full_budget::<C>(
        pre,
        Attempt { who, status, local_best, registered, answer },
    );
}

/// A peer that leaves keeps the full peers within their budget, unless it
/// is a light peer among the connected no-slot peers: with it the budget
/// shrinks while the full peers stay.
pub proof fn law_disconnect_keeps_full_budget(
    pre: HelperState,
    who: PeerId,
    post: HelperState,
    event: CustomMessageOutcome,
)
    requires
        pre.wf(),
        within_full_budget(pre),
        protocol_close_post(pre, who, post, event),
        !(pre.no_slot_connected.contains(who) && !pre.peers[who].info.roles.is_full()),
    ensures
        within_full_budget(post),
{
    pre.peers.dom().lemma_len_filter(|id: PeerId| pre.peers[id].info.roles.is_full());
    if pre.peers.dom().contains(who) {
        if pre.peers[who].info.roles.is_full() {
            assert(full_peers(post) =~= full_peers(pre).remove(who));
        } else {
            assert(full_peers(post) =~= full_peers(pre));
            assert(post.no_slot_connected =~= pre.no_slot_connected);
        }
    }
}

/// For every sequence of attempts to join, the number of full peers in the
/// table never exceeds the slots for full peers plus the connected no-slot
/// peers, at any point of the sequence, provided that at each attempt the
/// state machine keeps at least as many peers as the table holds full
/// peers.
pub proof fn law_full_peers_within_budget<C: ChainSync>(s: HelperState, attempts: Seq<Attempt>)
    requires
        s.wf(),
        within_full_budget(s),
        forall|i: int|
            0 <= i < attempts.len() ==> (#[trigger] attempts[i]).registered >= full_peers(
                after_attempts::<C>(s, attempts.take(i)),
            ).len(),
    ensures
        forall|i: int|
            0 <= i <= attempts.len() ==> {
                &&& (#[trigger] after_attempts::<C>(s, attempts.take(i))).wf()
                &&& within_full_budget(after_attempts::<C>(s, attempts.take(i)))
            },
    decreases attempts.len(),
{
    if attempts.len() == 0 {
        assert forall|i: int| 0 <= i <= attempts.len() implies {
            &&& (#[trigger] after_attempts::<C>(s, attempts.take(i))).wf()
            &&& within_full_budget(after_attempts::<C>(s, attempts.take(i)))
        } by {
            assert(attempts.take(i) =~= attempts);
        }
    } else {
        let shorter = attempts.drop_last();
        assert forall|i: int| 0 <= i < shorter.len() implies (#[trigger] shorter[i]).registered
            >= full_peers(after_attempts::<C>(s, shorter.take(i))).len() by {
            assert(shorter.take(i) =~= attempts.take(i));
            assert(shorter[i] == attempts[i]);
        }
        law_full_peers_within_budget::<C>(s, shorter);
        assert forall|i: int| 0 <= i <= attempts.len() implies {
            &&& (#[trigger] after_attempts::<C>(s, attempts.take(i))).wf()
            &&& within_full_budget(after_attempts::<C>(s, attempts.take(i)))
        } by {
            if i < attempts.len() {
                assert(attempts.take(i) =~= shorter.take(i));
            } else {
                let n = attempts.len() as int;
                assert(attempts.take(n) =~= attempts);
                assert(shorter.take(n - 1) =~= shorter);
                assert(attempts.take(n - 1) =~= shorter);
                let before = after_attempts::<C>(s, shorter);
                assert(before.wf() && within_full_budget(before)) by {
                    assert(after_attempts::<C>(s, shorter.take(n - 1)).wf());
                }
                assert(attempts[n - 1].registered >= full_peers(before).len());
                lemma_attempt_keeps_full_budget::<C>(before, attempts.last());
            }
        }
    }
}

/// From `a` to `b` nothing has happened to the table of peers.
pub open spec fn same_table(a: HelperState, b: HelperState) -> bool {
    b.peers == a.peers && b.no_slot_connected == a.no_slot_connected
}

/// From `a` to `b` requests have at most been added to those in flight,
/// each under a slot that had not been handed out in `a`.
pub open spec fn only_dispatched(a: HelperState, b: HelperState) -> bool {
    &&& a.next_slot <= b.next_slot
    &&& forall|slot: ReplySlot| #[trigger]
        a.pending.dom().contains(slot) ==> b.pending.dom().contains(slot) && b.pending[slot]
            == a.pending[slot]
    &&& forall|slot: ReplySlot| #[trigger]
        b.pending.dom().contains(slot) ==> a.pending.dom().contains(slot) || a.next_slot
            <= slot.id
}

/// Sending a request adds it to those in flight and changes nothing else
/// about them.
proof fn lemma_dispatched(s: HelperState, who: PeerId, request: PeerRequest)
    requires
        s.wf(),
    ensures
        s.dispatched(who, request).wf(),
        same_table(s, s.dispatched(who, request)),
        only_dispatched(s, s.dispatched(who, request)),
{
}

/// Adding requests to those in flight twice is adding requests to them.
proof fn lemma_only_dispatched_chain(a: HelperState, b: HelperState, c: HelperState)
    requires
        only_dispatched(a, b),
        only_dispatched(b, c),
    ensures
        only_dispatched(a, c),
{
    assert forall|slot: ReplySlot| #[trigger]
        c.pending.dom().contains(slot) implies a.pending.dom().contains(slot) || a.next_slot
        <= slot.id by {
        if b.pending.dom().contains(slot) {
        }
    }
}

/// What the answer to block data does to the requests in flight and to
/// the table.
proof fn lemma_block_data<C: ChainSync>(s: HelperState, answer: Result<OnBlockData, BadPeer>)
    requires
        s.wf(),
    ensures
        after_block_data::<C>(s, answer).0.wf(),
        same_table(s, after_block_data::<C>(s, answer).0),
        only_dispatched(s, after_block_data::<C>(s, answer).0),
{
    match answer {
        Ok(OnBlockData::Request(peer, request)) => {
            lemma_dispatched(s, peer, PeerRequest::Block(request));
        },
        _ => {},
    }
}

/// Sending the block requests of a list only adds requests in flight.
proof fn lemma_block_requests<C: ChainSync>(s: HelperState, due: Seq<(PeerId, BlockRequest)>)
    requires
        s.wf(),
    ensures
        after_block_requests::<C>(s, due).wf(),
        same_table(s, after_block_requests::<C>(s, due)),
        only_dispatched(s, after_block_requests::<C>(s, due)),
    decreases due.len(),
{
    if due.len() > 0 {
        lemma_block_requests::<C>(s, due.drop_last());
        let before = after_block_requests::<C>(s, due.drop_last());
        let (id, request) = due.last();
        lemma_dispatched(before, id, PeerRequest::Block(request));
        let sent = before.dispatched(id, PeerRequest::Block(request));
        lemma_only_dispatched_chain(s, before, sent);
    }
}

/// Handling the answer to processed blocks only adds requests in flight.
proof fn lemma_blocks_processed<C: ChainSync>(
    s: HelperState,
    answers: Seq<Result<(PeerId, BlockRequest), BadPeer>>,
)
    requires
        s.wf(),
    ensures
        after_blocks_processed::<C>(s, answers).0.wf(),
        same_table(s, after_blocks_processed::<C>(s, answers).0),
        only_dispatched(s, after_blocks_processed::<C>(s, answers).0),
    decreases answers.len(),
{
    if answers.len() > 0 {
        lemma_blocks_processed::<C>(s, answers.drop_last());
        let before = after_blocks_processed::<C>(s, answers.drop_last()).0;
        match answers.last() {
            Ok((id, request)) => {
                lemma_dispatched(before, id, PeerRequest::Block(request));
                lemma_only_dispatched_chain(
                    s,
                    before,
                    before.dispatched(id, PeerRequest::Block(request)),
                );
            },
            Err(_) => {},
        }
    }
}

/// Handling a verdict on an announcement only adds requests in flight.
proof fn lemma_validation<C: ChainSync>(
    pre: HelperState,
    result: PollBlockAnnounceValidation,
    post: HelperState,
    event: CustomMessageOutcome,
)
    requires
        pre.wf(),
        validation_result_post::<C>(pre, result, post, event),
    ensures
        same_table(pre, post),
        only_dispatched(pre, post),
{
    match result {
        PollBlockAnnounceValidation::ImportHeader { who, is_best, announce } => {
            let (handed, answer) = choose|
                handed: BlockResponse,
                answer: Result<OnBlockData, BadPeer>,
            |
                stands_for_header(handed, announce.header) && (post, event)
                    == #[trigger] after_block_data::<C>(
                    after_caching(pre, announce).with_call(
                        Call::OnBlockData(who, None, handed, answer),
                    ),
                    answer,
                );
            let s = after_caching(pre, announce).with_call(
                Call::OnBlockData(who, None, handed, answer),
            );
            lemma_block_data::<C>(s, answer);
        },
        _ => {},
    }
}

/// Handling a decoded block response only adds requests in flight.
proof fn lemma_block_response<C: ChainSync>(
    pre: HelperState,
    peer_id: PeerId,
    request: BlockRequest,
    decoded: Seq<BlockData>,
    post: HelperState,
    event: CustomMessageOutcome,
)
    requires
        pre.wf(),
        block_response_post::<C>(pre, peer_id, request, decoded, post, event),
    ensures
        same_table(pre, post),
        only_dispatched(pre, post),
{
    match C::blocks_of_response(request, decoded) {
        None => {},
        Some(blocks) => {
            if request.is_justification_request() {
            } else {
                let (handed, answer) = choose|
                    handed: BlockResponse,
                    answer: Result<OnBlockData, BadPeer>,
                |
                    handed.id == request.id && handed.blocks@ == blocks && (post, event)
                        == #[trigger] after_block_data::<C>(
                        pre.with_call(Call::OnBlockData(peer_id, Some(request), handed, answer)),
                        answer,
                    );
                lemma_block_data::<C>(
                    pre.with_call(Call::OnBlockData(peer_id, Some(request), handed, answer)),
                    answer,
                );
            }
        },
    }
}

/// Handling the raw result for a request takes that request out of flight
/// and otherwise only adds requests in flight.
proof fn lemma_response<C: ChainSync>(
    pre: HelperState,
    slot: ReplySlot,
    response: RawResponse,
    post: HelperState,
)
    requires
        pre.wf(),
        pending_response_post::<C>(pre, slot, response, post),
    ensures
        same_table(pre, post),
        only_dispatched(pre.completed(slot), post),
{
    if !pre.pending.dom().contains(slot) {
        assert(pre.completed(slot).pending =~= pre.pending);
    } else {
        let peer = pre.pending[slot].peer;
        let s = pre.completed(slot);
        assert(s.wf());
        match response {
            Ok(Ok(bytes)) => match pre.pending[slot].request {
                PeerRequest::Block(request) => {
                    if C::decoded_block_response(bytes@) is Some {
                        let decoded = C::decoded_block_response(bytes@)->Some_0;
                        let (mid, event) = choose|mid: HelperState, event: CustomMessageOutcome|
                            #[trigger] block_response_post::<C>(
                                s,
                                peer,
                                request,
                                decoded,
                                mid,
                                event,
                            ) && post == mid.with_event(event);
                        lemma_block_response::<C>(s, peer, request, decoded, mid, event);
                    }
                },
                _ => {},
            },
            _ => {},
        }
    }
}

/// A dispatch tick only adds requests in flight.
proof fn lemma_tick<C: ChainSync>(
    pre: HelperState,
    blocks: Vec<(PeerId, BlockRequest)>,
    state: Option<(PeerId, OpaqueStateRequest)>,
    justifications: Vec<(PeerId, BlockRequest)>,
    warp: Option<(PeerId, WarpProofRequest)>,
)
    requires
        pre.wf(),
    ensures
        after_tick::<C>(pre, blocks, state, justifications, warp).wf(),
        same_table(pre, after_tick::<C>(pre, blocks, state, justifications, warp)),
        only_dispatched(pre, after_tick::<C>(pre, blocks, state, justifications, warp)),
{
    let s0 = pre.with_call(Call::BlockRequests(blocks));
    let s1 = after_block_requests::<C>(s0, blocks@);
    lemma_block_requests::<C>(s0, blocks@);
    let s1c = s1.with_call(Call::StateRequest(state));
    let s2 = after_state_request(s1c, state);
    if let Some((id, request)) = state {
        lemma_dispatched(s1c, id, PeerRequest::State);
    }
    let s2c = s2.with_call(Call::JustificationRequests(justifications));
    let s3 = after_block_requests::<C>(s2c, justifications@);
    lemma_block_requests::<C>(s2c, justifications@);
    let s3c = s3.with_call(Call::WarpSyncRequest(warp));
    let s4 = after_warp_sync_request(s3c, warp);
    if let Some((id, request)) = warp {
        lemma_dispatched(s3c, id, PeerRequest::WarpProof);
    }
    assert(only_dispatched(pre, s0));
    lemma_only_dispatched_chain(pre, s0, s1);
    assert(only_dispatched(s1, s1c));
    lemma_only_dispatched_chain(s1, s1c, s2);
    lemma_only_dispatched_chain(pre, s1, s2);
    assert(only_dispatched(s2, s2c));
    lemma_only_dispatched_chain(s2, s2c, s3);
    lemma_only_dispatched_chain(pre, s2, s3);
    assert(only_dispatched(s3, s3c));
    lemma_only_dispatched_chain(s3, s3c, s4);
    lemma_only_dispatched_chain(pre, s3, s4);
}

/// An announcement of a connected peer makes the announced block the
/// newest block known of that peer. At most `MAX_KNOWN_BLOCKS` blocks are
/// known of the peer afterwards, the oldest having left if need be, and what
/// is known of every other peer is as it was.
pub proof fn law_announced_block_is_known(pre: HelperState, who: PeerId, announce: BlockAnnounce)
    requires
        pre.wf(),
        pre.peers.dom().contains(who),
    ensures
        after_announce(pre, who, announce).wf(),
        after_announce(pre, who, announce).peers.dom() == pre.peers.dom(),
        after_announce(pre, who, announce).peers[who].known_blocks == lru_insert(
            pre.peers[who].known_blocks,
            MAX_KNOWN_BLOCKS as nat,
            announce.header.hash,
        ),
        after_announce(pre, who, announce).peers[who].known_blocks.last() == announce.header.hash,
        after_announce(pre, who, announce).peers[who].known_blocks.len() <= MAX_KNOWN_BLOCKS,
        after_announce(pre, who, announce).peers[who].info == pre.peers[who].info,
        forall|other: PeerId|
            other != who && pre.peers.dom().contains(other) ==> after_announce(
                pre,
                who,
                announce,
            ).peers[other] == pre.peers[other],
{
    law_insert_keeps_bound(
        pre.peers[who].known_blocks,
        pre.peers[who].limit,
        announce.header.hash,
    );
    assert(after_announce(pre, who, announce).peers.dom() =~= pre.peers.dom());
}

/// In every state that the orchestrator reaches, the connected no-slot
/// peers are among the connected peers, of every peer at most
/// `MAX_KNOWN_BLOCKS` blocks are known, and no request is in flight under a
/// slot that is still to be handed out.
pub proof fn law_state_is_consistent<C: ChainSync>(helper: SyncingHelper<C>)
    requires
        helper.wf(),
    ensures
        helper@.no_slot_connected.subset_of(helper@.peers.dom()),
        forall|who: PeerId| #[trigger]
            helper@.peers.dom().contains(who) ==> helper@.peers[who].known_blocks.len()
                <= MAX_KNOWN_BLOCKS && helper@.peers[who].known_blocks.no_duplicates(),
        forall|slot: ReplySlot| helper@.pending.dom().contains(slot) ==> slot.id < helper@.next_slot,
        helper.peers.order().no_duplicates(),
        helper.peers.order().to_set() == helper@.peers.dom(),
{
    helper.peers.lemma_order();
}

/// A peer that was admitted is in the table, as it presented itself and
/// with no block known of it yet.
pub proof fn law_admitted_peer_is_in_table<C: ChainSync>(
    pre: HelperState,
    registered: usize,
    who: PeerId,
    status: BlockAnnouncesHandshake,
    local_best: BlockNumber,
    post: HelperState,
    r: Result<Option<CustomMessageOutcome>, ()>,
)
    requires
        peer_connected_post::<C>(pre, registered, who, status, local_best, post, r),
        r is Ok,
    ensures
        !pre.peers.dom().contains(who),
        post.peers == pre.peers.insert(who, fresh_peer(info_of(status))),
        pre.wf() ==> post.wf() && post.no_slot_connected.contains(who)
            == pre.no_slot_peers.contains(who),
{
    if pre.wf() {
        assert(pre.admitted(who, status).wf());
        if status.roles.is_full() {
            let answer = choose|answer: Result<Option<BlockRequest>, BadPeer>|
                (post, r) == #[trigger] after_registration::<C>(
                    pre.with_call(
                        Call::NewPeer(who, status.best_hash, status.best_number, answer),
                    ),
                    who,
                    status,
                    answer,
                );
            let called = pre.with_call(
                Call::NewPeer(who, status.best_hash, status.best_number, answer),
            );
            assert(called.admitted(who, status).wf());
            if let Ok(Some(request)) = answer {
                lemma_dispatched(
                    called.admitted(who, status),
                    who,
                    PeerRequest::Block(request),
                );
            }
        }
    }
}

/// A peer whose handshake was rejected is not in the table, and the table
/// is as it was.
pub proof fn law_rejected_peer_changes_nothing<C: ChainSync>(
    pre: HelperState,
    registered: usize,
    who: PeerId,
    status: BlockAnnouncesHandshake,
    local_best: BlockNumber,
    post: HelperState,
    r: Result<Option<CustomMessageOutcome>, ()>,
)
    requires
        peer_connected_post::<C>(pre, registered, who, status, local_best, post, r),
        r is Err,
    ensures
        post.peers == pre.peers,
        post.no_slot_connected == pre.no_slot_connected,
        post.pending == pre.pending,
        post.events == pre.events,
{
}

/// After a peer has disconnected it is neither in the table nor among the
/// connected no-slot peers, and every other peer is where it was.
pub proof fn law_disconnected_peer_is_gone(
    pre: HelperState,
    who: PeerId,
    post: HelperState,
    event: CustomMessageOutcome,
)
    requires
        pre.wf(),
        protocol_close_post(pre, who, post, event),
    ensures
        post.wf(),
        !post.peers.dom().contains(who),
        !post.no_slot_connected.contains(who),
        forall|other: PeerId|
            other != who ==> post.peers.dom().contains(other) == pre.peers.dom().contains(other)
                && post.no_slot_connected.contains(other) == pre.no_slot_connected.contains(
                other,
            ),
{
}

/// One step of the reactor loop keeps every peer in the table, unless the
/// step serves the command that closes the protocol to that peer.
pub proof fn law_peer_stays_until_disconnected<C: ChainSync>(
    pre: SyncingHelper<C>,
    event: ReactorEvent,
    post: SyncingHelper<C>,
    reply: Option<SyncReply>,
    who: PeerId,
)
    requires
        pre@.wf(),
        react_post(pre, event, post, reply),
        pre@.peers.dom().contains(who),
        !(event matches ReactorEvent::Command(SyncEvent::CustomProtocolClosed(peer)) && peer
            == who),
    ensures
        post@.peers.dom().contains(who),
{
    match event {
        ReactorEvent::Command(command) => {
            let answer = reply->Some_0;
            match command {
                SyncEvent::OnBlocksProcessed(imported, count, results) => {
                    let out = answer->Events_0;
                    let answers = choose|answers: Vec<Result<(PeerId, BlockRequest), BadPeer>>|
                        (post@, out@) == #[trigger] after_blocks_processed::<C>(
                            pre@.with_call(
                                Call::OnBlocksProcessed(imported, count, results, answers),
                            ),
                            answers@,
                        );
                    lemma_blocks_processed::<C>(
                        pre@.with_call(Call::OnBlocksProcessed(imported, count, results, answers)),
                        answers@,
                    );
                },
                SyncEvent::CustomProtocolOpen(peer, received, local_best) => {},
                SyncEvent::CustomProtocolClosed(peer) => {},
                SyncEvent::Notification(peer, announce) => {},
                _ => {},
            }
        },
        ReactorEvent::Response(slot, response) => {
            lemma_response::<C>(pre@, slot, response, post@);
        },
        ReactorEvent::Tick => {
            let (blocks, state, justifications, warp) = choose|
                blocks: Vec<(PeerId, BlockRequest)>,
                state: Option<(PeerId, OpaqueStateRequest)>,
                justifications: Vec<(PeerId, BlockRequest)>,
                warp: Option<(PeerId, WarpProofRequest)>,
            |
                post@ == #[trigger] after_tick::<C>(pre@, blocks, state, justifications, warp);
            lemma_tick::<C>(pre@, blocks, state, justifications, warp);
        },
    }
}

/// Asking for a finished validation keeps every peer in the table.
pub proof fn law_validation_keeps_peers<C: ChainSync>(
    pre: HelperState,
    post: HelperState,
    found: bool,
)
    requires
        pre.wf(),
        poll_validation_post::<C>(pre, post, found),
    ensures
        post.peers == pre.peers,
        post.no_slot_connected == pre.no_slot_connected,
{
    if found {
        let (result, mid, event) = choose|
            result: PollBlockAnnounceValidation,
            mid: HelperState,
            event: CustomMessageOutcome,
        |
            #[trigger] validation_result_post::<C>(
                pre.with_call(Call::PollBlockAnnounceValidation(Some(result))),
                result,
                mid,
                event,
            ) && post == with_effective_event(mid, event);
        lemma_validation::<C>(
            pre.with_call(Call::PollBlockAnnounceValidation(Some(result))),
            result,
            mid,
            event,
        );
    }
}

/// A request that is sent gets a slot that is not in use and that no later
/// request gets again; it is in flight under that slot, one more request is
/// in flight than before, and every request that was in flight still is.
/// Once the slot numbers have run out, sending changes nothing.
pub proof fn law_dispatch_hands_out_fresh_slot(s: HelperState, who: PeerId, request: PeerRequest)
    requires
        s.wf(),
    ensures
        s.dispatched(who, request).wf(),
        !s.pending.dom().contains(s.fresh_slot()),
        s.has_slot() ==> {
            &&& s.dispatched(who, request).pending == s.pending.insert(
                s.fresh_slot(),
                PendingRecord { peer: who, request },
            )
            &&& s.dispatched(who, request).pending.dom().len() == s.pending.dom().len() + 1
            &&& s.dispatched(who, request).fresh_slot().id == s.fresh_slot().id + 1
            &&& s.dispatched(who, request).peers == s.peers
            &&& s.dispatched(who, request).events == s.events
        },
        !s.has_slot() ==> s.dispatched(who, request) == s,
{
}

/// The raw result for a request is handled once: handling it takes the
/// request out of flight and leaves every other request alone, so that
/// handling a result for the same slot again does nothing.
pub proof fn law_completion_is_exactly_once<C: ChainSync>(
    pre: HelperState,
    slot: ReplySlot,
    response: RawResponse,
    post: HelperState,
    again: RawResponse,
    last: HelperState,
)
    requires
        pre.wf(),
        pending_response_post::<C>(pre, slot, response, post),
        pending_response_post::<C>(post, slot, again, last),
    ensures
        !post.pending.dom().contains(slot),
        forall|other: ReplySlot|
            other != slot && pre.pending.dom().contains(other) ==> post.pending.dom().contains(
                other,
            ) && post.pending[other] == pre.pending[other],
        last == post,
{
    lemma_response::<C>(pre, slot, response, post);
    if post.pending.dom().contains(slot) {
        assert(!pre.completed(slot).pending.dom().contains(slot));
        assert(pre.next_slot <= slot.id);
        if pre.pending.dom().contains(slot) {
            assert(slot.id < pre.next_slot);
        } else {
            assert(post == pre);
        }
    }
}

/// An answer that does not decode costs the peer its connection and
/// reputation and has no other consequence: the request leaves flight, no
/// event is queued, no request is sent and the state machine is not
/// called.
pub proof fn law_decode_failure_is_a_violation<C: ChainSync>(
    pre: HelperState,
    slot: ReplySlot,
    bytes: Vec<u8>,
    post: HelperState,
)
    requires
        pre.pending.dom().contains(slot),
        pending_response_post::<C>(pre, slot, Ok(Ok(bytes)), post),
        match pre.pending[slot].request {
            PeerRequest::Block(_) => C::decoded_block_response(bytes@).is_none(),
            PeerRequest::State => C::decoded_state_response(bytes@).is_none(),
            PeerRequest::WarpProof => false,
        },
    ensures
        post.effects == pre.effects + seq![
            PeerEffect::Disconnect(pre.pending[slot].peer),
            PeerEffect::Report(pre.pending[slot].peer, bad_message()),
        ],
        post.events == pre.events,
        post.calls == pre.calls,
        post.pending == pre.pending.remove(slot),
        post.next_slot == pre.next_slot,
        post.peers == pre.peers,
{
}

/// The answer to a warp proof request goes to the state machine as it is.
/// Whatever the state machine makes of it, the request leaves flight and
/// no request follows; a peer that the state machine turns down is
/// disconnected and reported.
pub proof fn law_warp_proof_is_final<C: ChainSync>(
    pre: HelperState,
    slot: ReplySlot,
    bytes: Vec<u8>,
    post: HelperState,
)
    requires
        pre.pending.dom().contains(slot),
        pre.pending[slot].request is WarpProof,
        pending_response_post::<C>(pre, slot, Ok(Ok(bytes)), post),
    ensures
        post.pending == pre.pending.remove(slot),
        post.next_slot == pre.next_slot,
        post.events == pre.events.push(CustomMessageOutcome::Nothing),
        post.calls.len() == pre.calls.len() + 1,
        post.calls.drop_last() == pre.calls,
        post.calls.last() matches Call::OnWarpSyncData(peer, proof, answer) && peer
            == pre.pending[slot].peer && proof == (EncodedProof { bytes }) && post.effects
            == pre.effects + (match answer {
            Ok(_) => Seq::<PeerEffect>::empty(),
            Err(BadPeer(id, change)) => seq![
                PeerEffect::Disconnect(id),
                PeerEffect::Report(id, change),
            ],
        }),
{
    let s = pre.completed(slot);
    let peer = pre.pending[slot].peer;
    let (mid, event) = choose|mid: HelperState, event: CustomMessageOutcome|
        #[trigger] warp_sync_response_post(s, peer, EncodedProof { bytes }, mid, event) && post
            == mid.with_event(event);
    let answer = choose|answer: Result<(), BadPeer>|
        mid == #[trigger] after_verdict(
            s.with_call(Call::OnWarpSyncData(peer, EncodedProof { bytes }, answer)),
            answer,
        );
    let call = Call::OnWarpSyncData(peer, EncodedProof { bytes }, answer);
    assert(post.calls == pre.calls.push(call));
    assert(post.calls.drop_last() =~= pre.calls);
    match answer {
        Ok(_) => {
            assert(post.effects =~= pre.effects + Seq::<PeerEffect>::empty());
        },
        Err(BadPeer(id, change)) => {},
    }
}

/// A request that failed, or whose reply slot was dropped, is settled
/// without the state machine: the peer gets what the failure calls for,
/// the request leaves flight, and neither an event nor a call follows.
pub proof fn law_failure_is_settled_at_once<C: ChainSync>(
    pre: HelperState,
    slot: ReplySlot,
    response: RawResponse,
    post: HelperState,
)
    requires
        pre.pending.dom().contains(slot),
        pending_response_post::<C>(pre, slot, response, post),
        !(response matches Ok(Ok(_))),
    ensures
        post.effects == pre.effects + effects_of(
            pre.pending[slot].peer,
            match response {
                Ok(Err(failure)) => action_for(failure),
                _ => action_for_canceled(),
            },
        ),
        post.events == pre.events,
        post.calls == pre.calls,
        post.pending == pre.pending.remove(slot),
        post.next_slot == pre.next_slot,
{
}

} // verus!

//! Block announcements: what a peer announces is remembered as known to it
//! and handed to the state machine for validation; the verdicts are turned
//! into events, and the data that came with an announcement is cached.

use crate::announce_cache::entries_after_put;
use crate::chain_sync::{Call, ChainSync};
use crate::helper::{HelperState, SyncingHelper};
use crate::outcome::{CustomMessageOutcome, PeerAction};
use crate::known_blocks::law_insert_keeps_bound;
use crate::peers::{with_known_block, MAX_KNOWN_BLOCKS};
use crate::primitives::{BlockHash, PeerId};
use crate::reputation::{bad_block_announcement, bad_message, ReputationChange};
use crate::responses::after_block_data;
use crate::sync_types::{
    BadPeer, BlockAnnounce, BlockData, BlockResponse, BlockState, Header, OnBlockData,
    PollBlockAnnounceValidation,
};
use vstd::prelude::*;

verus! {

/// Whether an announcement is of the announcer's best block: it is unless
/// the announcement says otherwise.
pub open spec fn announces_best(announce: BlockAnnounce) -> bool {
    !(announce.state matches Some(BlockState::Normal))
}

/// Whether an announcement of `who` is handed to the state machine for
/// validation: it is when `who` is a full peer in the table.
pub open spec fn is_validated(s: HelperState, who: PeerId) -> bool {
    s.peers.dom().contains(who) && s.peers[who].info.roles.is_full()
}

/// The state after `who` has announced a block: the block is known to the
/// peer, and the announcement of a full peer is handed in for validation.
/// An announcement of a peer that is not in the table changes nothing.
pub open spec fn after_announce(pre: HelperState, who: PeerId, announce: BlockAnnounce) -> HelperState {
    if !pre.peers.dom().contains(who) {
        pre
    } else {
        let noted = HelperState {
            peers: pre.peers.insert(who, with_known_block(pre.peers[who], announce.header.hash)),
            ..pre
        };
        if pre.peers[who].info.roles.is_full() {
            noted.with_call(
                Call::PushBlockAnnounceValidation(
                    who,
                    announce.header.hash,
                    announce,
                    announces_best(announce),
                ),
            )
        } else {
            noted
        }
    }
}

/// The state after a notification from `who` came in, read as `announce`;
/// `None` stands for bytes that are no announcement, which is a protocol
/// violation. Notifications of peers that are not in the table are dropped.
pub open spec fn after_notification(
    pre: HelperState,
    who: PeerId,
    announce: Option<BlockAnnounce>,
) -> HelperState {
    if !pre.peers.dom().contains(who) {
        pre
    } else {
        match announce {
            Some(announce) => after_announce(pre, who, announce),
            None => pre.with_action(who, PeerAction::DisconnectAndReport(bad_message())),
        }
    }
}

/// The state after the data of a validated announcement was cached: data
/// that is not empty is stored under the hash of the announced block.
pub open spec fn after_caching(pre: HelperState, announce: BlockAnnounce) -> HelperState {
    match announce.data {
        Some(data) => if data@.len() > 0 {
            HelperState {
                cache: entries_after_put(
                    pre.cache,
                    pre.cache_limit,
                    announce.header.hash.bytes,
                    data@,
                ),
                ..pre
            }
        } else {
            pre
        },
        None => pre,
    }
}

/// Whether `handed` is the block response that stands for an announced
/// header: one block, with the header and nothing else.
pub open spec fn stands_for_header(handed: BlockResponse, header: Header) -> bool {
    &&& handed.id == 0
    &&& handed.blocks@ == seq![
        BlockData { hash: header.hash, header: Some(header), body: None, justifications: None },
    ]
}

/// What a failed validation costs the announcer.
pub open spec fn validation_failure_action(disconnect: bool) -> PeerAction {
    if disconnect {
        PeerAction::DisconnectAndReport(bad_block_announcement())
    } else {
        PeerAction::Report(bad_block_announcement())
    }
}

/// What holds after the verdict on an announcement was handled.
pub open spec fn validation_result_post<C: ChainSync>(
    pre: HelperState,
    result: PollBlockAnnounceValidation,
    post: HelperState,
    event: CustomMessageOutcome,
) -> bool {
    match result {
        PollBlockAnnounceValidation::Skip => post == pre && event == CustomMessageOutcome::Nothing,
        PollBlockAnnounceValidation::Nothing { who, is_best, announce } => post == after_caching(
            pre,
            announce,
        ) && event == CustomMessageOutcome::Nothing,
        PollBlockAnnounceValidation::Failure { who, disconnect } => post == pre.with_action(
            who,
            validation_failure_action(disconnect),
        ) && event == CustomMessageOutcome::Nothing,
        PollBlockAnnounceValidation::ImportHeader { who, is_best, announce } => exists|
            handed: BlockResponse,
            answer: Result<OnBlockData, BadPeer>,
        |
            stands_for_header(handed, announce.header) && (post, event)
                == #[trigger] after_block_data::<C>(
                after_caching(pre, announce).with_call(
                    Call::OnBlockData(who, None, handed, answer),
                ),
                answer,
            ),
    }
}

/// The state with `event` queued, unless the event is nothing.
pub open spec fn with_effective_event(s: HelperState, event: CustomMessageOutcome) -> HelperState {
    if event is Nothing {
        s
    } else {
        s.with_event(event)
    }
}

/// What holds after the state machine was asked once for a finished
/// validation: `found` says whether there was one, and its event, unless
/// it is nothing, is queued.
pub open spec fn poll_validation_post<C: ChainSync>(
    pre: HelperState,
    post: HelperState,
    found: bool,
) -> bool {
    if found {
        exists|result: PollBlockAnnounceValidation, mid: HelperState, event: CustomMessageOutcome|
            #[trigger] validation_result_post::<C>(
                pre.with_call(Call::PollBlockAnnounceValidation(Some(result))),
                result,
                mid,
                event,
            ) && post == with_effective_event(mid, event)
    } else {
        post == pre.with_call(Call::PollBlockAnnounceValidation(None))
    }
}

impl<C: ChainSync> SyncingHelper<C> {
    /// Remembers that `who` has the announced block and hands the
    /// announcement of a full peer to the state machine for validation.
    pub fn push_block_announce_validation(&mut self, who: PeerId, announce: BlockAnnounce)
        requires
            old(self).wf(),
        ensures
            final(self).wf(),
            final(self)@ == after_announce(old(self)@, who, announce),
            old(self)@.peers.dom().contains(who) ==> {
                &&& final(self)@.peers[who].known_blocks.contains(announce.header.hash)
                &&& final(self)@.peers[who].known_blocks.len() <= MAX_KNOWN_BLOCKS
            },
            !is_validated(old(self)@, who) ==> final(self).chain_sync == old(self).chain_sync,
    {
        let hash = announce.header.hash;
        let info = match self.peers.info(&who) {
            Some(info) => info,
            None => {
                return ;
            },
        };
        self.peers.insert_known_block(&who, hash);
        proof {
            self.peers.lemma_order();
            self.peers.lemma_known_blocks();
            assert(self@.peers.dom() =~= old(self)@.peers.dom());
            law_insert_keeps_bound(
                old(self)@.peers[who].known_blocks,
                old(self)@.peers[who].limit,
                hash,
            );
        }
        let is_best = match announce.state {
            Some(BlockState::Normal) => false,
            _ => true,
        };
        if info.roles.is_full() {
            self.chain_sync.push_block_announce_validation(who, hash, announce, is_best);
        }
    }

    /// A notification from `peer` has come in, read as `announce`; `None`
    /// stands for bytes that are no announcement.
    pub fn notification(&mut self, peer: PeerId, announce: Option<BlockAnnounce>) -> (event:
        CustomMessageOutcome)
        requires
            old(self).wf(),
        ensures
            final(self).wf(),
            final(self)@ == after_notification(old(self)@, peer, announce),
            event == CustomMessageOutcome::Nothing,
            !(announce is Some && is_validated(old(self)@, peer)) ==> final(self).chain_sync
                == old(self).chain_sync,
    {
        if self.peers.contains_key(&peer) {
            match announce {
                Some(announce) => {
                    self.push_block_announce_validation(peer, announce);
                },
                None => {
                    self.disconnect_and_report_peer(peer, ReputationChange::bad_message());
                },
            }
        }
        CustomMessageOutcome::Nothing
    }

    /// Stores the data of a validated announcement for the announced block.
    fn cache_announce_data(&mut self, hash: &BlockHash, data: Option<Vec<u8>>)
        ensures
            final(self).wf() == old(self).wf(),
            final(self).chain_sync == old(self).chain_sync,
            final(self)@ == (match data {
                Some(data) => if data@.len() > 0 {
                    HelperState {
                        cache: entries_after_put(
                            old(self)@.cache,
                            old(self)@.cache_limit,
                            hash.bytes,
                            data@,
                        ),
                        ..old(self)@
                    }
                } else {
                    old(self)@
                },
                None => old(self)@,
            }),
    {
        if let Some(data) = data {
            if data.len() > 0 {
                self.block_announce_data_cache.put(*hash, data);
            }
        }
    }

    /// Handles the verdict of the state machine on an announcement.
    pub fn process_block_announce_validation_result(
        &mut self,
        validation_result: PollBlockAnnounceValidation,
    ) -> (event: CustomMessageOutcome)
        requires
            old(self).wf(),
        ensures
            final(self).wf(),
            validation_result_post::<C>(old(self)@, validation_result, final(self)@, event),
            !(validation_result is ImportHeader) ==> final(self).chain_sync == old(
                self,
            ).chain_sync,
    {
        let ghost pre = self@;
        let (header, who) = match validation_result {
            PollBlockAnnounceValidation::Skip => {
                return CustomMessageOutcome::Nothing;
            },
            PollBlockAnnounceValidation::Nothing { is_best: _, who: _, announce } => {
                let hash = announce.header.hash;
                self.cache_announce_data(&hash, announce.data);
                return CustomMessageOutcome::Nothing;
            },
            PollBlockAnnounceValidation::ImportHeader { announce, is_best: _, who } => {
                let ghost announced = announce;
                let hash = announce.header.hash;
                self.cache_announce_data(&hash, announce.data);
                assert(self@ == after_caching(pre, announced));
                assert(announce.header == announced.header);
                (announce.header, who)
            },
            PollBlockAnnounceValidation::Failure { who, disconnect } => {
                if disconnect {
                    self.disconnect_and_report_peer(
                        who,
                        ReputationChange::bad_block_announcement(),
                    );
                } else {
                    self.report_peer(who, ReputationChange::bad_block_announcement());
                }
                return CustomMessageOutcome::Nothing;
            },
        };
        let ghost cached = self@;
        let mut blocks: Vec<BlockData> = Vec::new();
        blocks.push(
            BlockData { hash: header.hash, header: Some(header), body: None, justifications: None },
        );
        let response = BlockResponse { id: 0, blocks };
        let ghost handed = response;
        let answer = self.chain_sync.on_block_data(&who, None, response);
        let event = self.apply_block_data(answer);
        proof {
            assert(stands_for_header(handed, header));
            assert((self@, event) == after_block_data::<C>(
                cached.with_call(Call::OnBlockData(who, None, handed, answer)),
                answer,
            ));
        }
        event
    }

    /// Asks the state machine once for a finished validation and handles
    /// the verdict if there is one. To be called after every event that
    /// the orchestrator has handled, until it returns `false`.
    pub fn poll_block_announce_validation(&mut self) -> (found: bool)
        requires
            old(self).wf(),
        ensures
            final(self).wf(),
            poll_validation_post::<C>(old(self)@, final(self)@, found),
    {
        match self.chain_sync.poll_block_announce_validation() {
            Some(result) => {
                let ghost polled = old(self)@.with_call(
                    Call::PollBlockAnnounceValidation(Some(result)),
                );
                let event = self.process_block_announce_validation_result(result);
                let ghost mid = self@;
                match event {
                    CustomMessageOutcome::Nothing => {},
                    outcome => {
                        self.pending_messages.push_back(outcome);
                    },
                }
                proof {
                    assert(validation_result_post::<C>(polled, result, mid, event));
                    assert(self@ == with_effective_event(mid, event));
                }
                true
            },
            None => false,
        }
    }
}

} // verus!

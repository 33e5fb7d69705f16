//! Peer synchronisation for a blockchain client.
//!
//! The orchestrator of this crate stands between the network layer and a
//! chain-synchronisation state machine. It keeps the table of the peers that
//! take part in synchronisation, decides which peers may join, sends the
//! requests that the state machine plans, matches every answer to its request,
//! and turns failures into effects on the peer that caused them. What it asks
//! of the network layer it hands out as outcome events and effects on peers;
//! it performs no input or output itself.
//!
//! [`helper::SyncingHelper`] is the orchestrator, [`reactor`] its command
//! surface and the step of its loop, [`chain_sync::ChainSync`] the state
//! machine it drives, and [`laws`] what holds of it as a whole.

pub mod primitives;
pub mod seq_map;
pub mod known_blocks;
pub mod reputation;
pub mod sync_types;
pub mod handshake;
pub mod peers;
pub mod announce_cache;
pub mod outcome;
pub mod failure;
pub mod chain_sync;
pub mod pending;
pub mod helper;
pub mod dispatch;
pub mod responses;
pub mod admission;
pub mod announce;
pub mod commands;
pub mod reactor;
pub mod scripted;
pub mod laws;

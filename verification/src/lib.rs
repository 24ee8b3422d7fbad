//! A verified forwarding node for a multi-hop, source-routed packet network.
//!
//! The node validates inbound packets against an ordered pipeline, answers
//! flood-discovery requests with loop suppression, builds reverse-path error
//! replies, and degrades gracefully after a crash command. All decisions are
//! pure functions of the node state and the inbound packet; the surrounding
//! process performs the channel I/O and interprets the decisions.

pub mod packet;
pub mod header;
pub mod paths;
pub mod generate;
pub mod drone;
pub mod check_packet;
pub mod dispatch;
pub mod flooding;
pub mod crashed;
mod rng;

use vstd::prelude::*;

verus! {

/// A drop roll is drawn uniformly below this bound; the packet drop rate is a
/// numerator over the same bound, so `roll < pdr` has probability `pdr / PDR_DENOM`.
pub const PDR_DENOM: u64 = 100_000;

} // verus!

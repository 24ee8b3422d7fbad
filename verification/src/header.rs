//! Utilities that read and advance the hop cursor of a routing header.

use vstd::prelude::*;

use crate::packet::{NodeId, SourceRoutingHeader};

verus! {

/// Returns the node the header's cursor points at, or none if the cursor is
/// out of range (a malformed packet).
pub fn get_hop(h: &SourceRoutingHeader) -> (r: Option<NodeId>)
    ensures
        r == h@.current_hop(),
{
    if h.hop_index < h.hops.len() {
        Some(h.hops[h.hop_index])
    } else {
        None
    }
}

/// Moves the cursor forward by exactly one hop; the route itself is unchanged.
pub fn increment_index(h: &mut SourceRoutingHeader)
    requires
        old(h).hop_index < usize::MAX,
    ensures
        final(h)@ == old(h)@.advanced(),
{
    h.hop_index += 1;
}

} // verus!

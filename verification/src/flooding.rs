//! The flood-discovery handler: loop-detecting broadcast with convergecast
//! answers. A flood already seen — or arriving at a dead end — is answered
//! directly; a fresh one is recorded and re-broadcast to every neighbor but
//! the one it came from.

use vstd::prelude::*;

use crate::dispatch::{DecisionV, PacketDecision};
use crate::drone::{DroneView, FungiDrone};
use crate::generate::{flood_response, spec_flood_response};
use crate::packet::{
    FloodRequest, FloodRequestView, HeaderView, NodeId, NodeType, Packet, PacketType,
    PacketTypeView, PacketView, SourceRoutingHeader,
};

verus! {

/// The neighbors a fresh flood is re-broadcast to: all of them except the one
/// the request came from.
pub open spec fn spec_broadcast_targets(neighbors: Seq<NodeId>, prev: NodeId) -> Seq<NodeId> {
    neighbors.filter(|n: NodeId| n != prev)
}

/// The seen set after a flood request: its (flood id, initiator id) pair is
/// recorded if it was new; the set never shrinks.
pub open spec fn spec_flood_seen_after(d: DroneView, req: FloodRequestView) -> Set<(u64, NodeId)> {
    if d.seen_flood_ids.contains((req.flood_id, req.initiator_id)) {
        d.seen_flood_ids
    } else {
        d.seen_flood_ids.insert((req.flood_id, req.initiator_id))
    }
}

/// The node's verdict on a flood request. A flood already seen, or one with
/// nowhere further to go (a single neighbor), is answered with a flood
/// response carrying the trace extended by this node; otherwise the extended
/// request is re-broadcast, with an empty routing header, to every neighbor
/// but the previous sender.
pub open spec fn spec_flood_decision(
    d: DroneView,
    req: FloodRequestView,
    session_id: u64,
) -> DecisionV {
    let req2 = FloodRequestView {
        flood_id: req.flood_id,
        initiator_id: req.initiator_id,
        path_trace: req.path_trace.push((d.id, NodeType::Drone)),
    };
    if d.seen_flood_ids.contains((req.flood_id, req.initiator_id)) || d.neighbors.len() == 1 {
        crate::dispatch::spec_respond(d, spec_flood_response(d.id, req2, session_id))
    } else {
        DecisionV::Broadcast {
            request: PacketView {
                pack_type: PacketTypeView::FloodRequest(req2),
                routing_header: HeaderView { hop_index: 0, hops: Seq::empty() },
                session_id,
            },
            targets: spec_broadcast_targets(d.neighbors, req.path_trace.last().0),
        }
    }
}

/// Extending the scanned prefix by one neighbor extends the broadcast target
/// list by that neighbor exactly when it is not the previous sender.
proof fn lemma_broadcast_targets_step(s: Seq<NodeId>, prev: NodeId, i: int)
    requires
        0 <= i < s.len(),
    ensures
        spec_broadcast_targets(s.take(i + 1), prev) == (if s[i] != prev {
            spec_broadcast_targets(s.take(i), prev).push(s[i])
        } else {
            spec_broadcast_targets(s.take(i), prev)
        }),
{
    reveal(Seq::filter);
    let s1 = s.take(i + 1);
    assert(s1.drop_last() =~= s.take(i));
    assert(s1.last() == s[i]);
    assert(s1.len() == i + 1);
}

impl FungiDrone {
    /// Serves one flood request: answers a duplicate or dead-end flood with a
    /// response routed back along the trace, and re-broadcasts a fresh one to
    /// every neighbor but the previous sender, recording the flood as seen.
    pub fn receive_flood_request(&mut self, flood_req: FloodRequest, session_id: u64) -> (d:
        PacketDecision)
        requires
            old(self)@.wf(),
            flood_req@.path_trace.len() > 0,
        ensures
            final(self)@.wf(),
            final(self)@ == (DroneView {
                seen_flood_ids: spec_flood_seen_after(old(self)@, flood_req@),
                ..old(self)@
            }),
            d@ == spec_flood_decision(old(self)@, flood_req@, session_id),
    {
        let ghost reqv = flood_req@;
        let mut flood_req = flood_req;
        if self.has_seen_flood(flood_req.flood_id, flood_req.initiator_id) {
            flood_req.path_trace.push((self.id, NodeType::Drone));
            let response = flood_response(self.id, flood_req, session_id);
            return self.respond_decision(response);
        }
        self.record_flood(flood_req.flood_id, flood_req.initiator_id);

        let node_before = flood_req.path_trace[flood_req.path_trace.len() - 1].0;
        flood_req.path_trace.push((self.id, NodeType::Drone));

        if self.neighbors.len() == 1 {
            let response = flood_response(self.id, flood_req, session_id);
            return self.respond_decision(response);
        }

        let mut targets: Vec<NodeId> = Vec::new();
        let mut i: usize = 0;
        while i < self.neighbors.len()
            invariant
                i <= self.neighbors@.len(),
                targets@ == spec_broadcast_targets(self.neighbors@.take(i as int), node_before),
            decreases self.neighbors@.len() - i,
        {
            proof {
                lemma_broadcast_targets_step(self.neighbors@, node_before, i as int);
            }
            if self.neighbors[i] != node_before {
                targets.push(self.neighbors[i]);
            }
            i = i + 1;
        }
        proof {
            assert(self.neighbors@.take(self.neighbors@.len() as int) =~= self.neighbors@);
        }

        let empty_header = SourceRoutingHeader { hop_index: 0, hops: Vec::new() };
        let request = Packet {
            pack_type: PacketType::FloodRequest(flood_req),
            routing_header: empty_header,
            session_id,
        };
        PacketDecision::Broadcast { request, targets }
    }
}

/// Flood deduplication: serving any flood request leaves its (flood id,
/// initiator id) pair in the seen set, and a node whose seen set holds the
/// pair answers directly — so of two requests with the same pair, the second
/// never fans out, whatever session carries it.
pub proof fn lemma_flood_dedup(d: DroneView, req: FloodRequestView, session_id: u64)
    ensures
        spec_flood_seen_after(d, req).contains((req.flood_id, req.initiator_id)),
        ({
            let d2 = DroneView { seen_flood_ids: spec_flood_seen_after(d, req), ..d };
            let second = spec_flood_decision(d2, req, session_id);
            &&& !(second is Broadcast)
            &&& (second is Respond || second is RespondUnroutable)
        }),
{
}

} // verus!

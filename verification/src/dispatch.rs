//! What the node decides to do with one inbound packet. Every decision is a
//! plain value; the hosting process performs the matching channel sends and
//! event reports, in the order the decision prescribes.

use vstd::prelude::*;

use crate::check_packet::{check_res_view, spec_check_packet, CheckError, CheckV};
use crate::drone::{spec_is_dropped, DroneView, FungiDrone};
use crate::generate::{route_error, spec_nack_packet};
use crate::packet::{NackType, NodeId, Packet, PacketType, PacketTypeView, PacketView};
use crate::PDR_DENOM;

verus! {

/// The node's verdict on one packet.
///
/// - `Deliver`: report a sent (or, for a Dropped-kind NACK in transit,
///   dropped) event, then send the packet to neighbor `next`.
/// - `Shortcut`: hand the packet straight to the event sink.
/// - `Malformed`: a cursor out of range; surface for debugging only.
/// - `Unroutable`: a ready packet whose next hop cannot be resolved; surface
///   for debugging only.
/// - `Respond`: send a reply (flood response or crash-mode NACK) to neighbor
///   `next`, with no sent event.
/// - `RespondUnroutable`: such a reply whose next hop cannot be resolved.
/// - `Broadcast`: send a copy of `request` to every neighbor in `targets`.
/// - `Ignore`: do nothing.
pub enum PacketDecision {
    Deliver { packet: Packet, next: NodeId, dropped: bool },
    Shortcut { packet: Packet },
    Malformed { packet: Packet },
    Unroutable { packet: Packet },
    Respond { response: Packet, next: NodeId },
    RespondUnroutable { response: Packet },
    Broadcast { request: Packet, targets: Vec<NodeId> },
    Ignore,
}

/// Mathematical view of a decision.
pub enum DecisionV {
    Deliver { packet: PacketView, next: NodeId, dropped: bool },
    Shortcut { packet: PacketView },
    Malformed { packet: PacketView },
    Unroutable { packet: PacketView },
    Respond { response: PacketView, next: NodeId },
    RespondUnroutable { response: PacketView },
    Broadcast { request: PacketView, targets: Seq<NodeId> },
    Ignore,
}

impl View for PacketDecision {
    type V = DecisionV;

    open spec fn view(&self) -> DecisionV {
        match self {
            PacketDecision::Deliver { packet, next, dropped } => DecisionV::Deliver {
                packet: packet@,
                next: *next,
                dropped: *dropped,
            },
            PacketDecision::Shortcut { packet } => DecisionV::Shortcut { packet: packet@ },
            PacketDecision::Malformed { packet } => DecisionV::Malformed { packet: packet@ },
            PacketDecision::Unroutable { packet } => DecisionV::Unroutable { packet: packet@ },
            PacketDecision::Respond { response, next } => DecisionV::Respond {
                response: response@,
                next: *next,
            },
            PacketDecision::RespondUnroutable { response } => DecisionV::RespondUnroutable {
                response: response@,
            },
            PacketDecision::Broadcast { request, targets } => DecisionV::Broadcast {
                request: request@,
                targets: targets@,
            },
            PacketDecision::Ignore => DecisionV::Ignore,
        }
    }
}

/// A validated packet leaves toward its resolved next hop, with a sent event
/// first (a Dropped-kind NACK is reported as dropped instead); an
/// unresolvable next hop is surfaced for debugging.
pub open spec fn spec_deliver(d: DroneView, p: PacketView) -> DecisionV {
    match d.next_hop(p) {
        Some(h) => DecisionV::Deliver { packet: p, next: h, dropped: spec_is_dropped(p) },
        None => DecisionV::Unroutable { packet: p },
    }
}

/// A reply leaves toward its resolved next hop without a sent event; an
/// unresolvable next hop is surfaced for debugging.
pub open spec fn spec_respond(d: DroneView, p: PacketView) -> DecisionV {
    match d.next_hop(p) {
        Some(h) => DecisionV::Respond { response: p, next: h },
        None => DecisionV::RespondUnroutable { response: p },
    }
}

/// How each pipeline outcome is acted on: everything the pipeline produced —
/// the validated packet, a reply NACK, or the Dropped NACK of a lost
/// fragment — is delivered; surfaced and malformed packets are not.
pub open spec fn spec_handle_checked(d: DroneView, c: CheckV) -> DecisionV {
    match c {
        CheckV::Pass(p) => spec_deliver(d, p),
        CheckV::Nack(p) => spec_deliver(d, p),
        CheckV::Drop(p) => spec_deliver(d, p),
        CheckV::Shortcut(p) => DecisionV::Shortcut { packet: p },
        CheckV::Malformed(p) => DecisionV::Malformed { packet: p },
    }
}

/// What the node does when a send fails because the neighbor `next_id` has
/// disconnected: a fragment is answered with an ErrorInRouting NACK naming
/// the neighbor (itself routed like a reply); a flood request is silently
/// discarded; any other kind is handed to the event sink.
pub open spec fn spec_send_error(d: DroneView, p: PacketView, next_id: NodeId) -> DecisionV {
    match p.pack_type {
        PacketTypeView::MsgFragment(f) => spec_respond(
            d,
            spec_nack_packet(
                p.routing_header,
                p.session_id,
                f.fragment_index,
                NackType::ErrorInRouting(next_id),
            ),
        ),
        PacketTypeView::FloodRequest(_) => DecisionV::Ignore,
        _ => DecisionV::Shortcut { packet: p },
    }
}

impl FungiDrone {
    /// Turns a reply into a decision: forward it to its resolved next hop, or
    /// surface it when the hop cannot be resolved.
    pub fn respond_decision(&self, response: Packet) -> (d: PacketDecision)
        ensures
            d@ == spec_respond(self@, response@),
    {
        match self.get_send_info(response) {
            Ok(pair) => PacketDecision::Respond { response: pair.0, next: pair.1 },
            Err(response) => PacketDecision::RespondUnroutable { response },
        }
    }

    /// Controls the next action after the validation pipeline: resolve and
    /// forward whatever the pipeline produced, or surface what it set aside.
    pub fn handle_check_result(&self, res: Result<Packet, CheckError>) -> (d: PacketDecision)
        ensures
            d@ == spec_handle_checked(self@, check_res_view(res)),
    {
        let ready = match res {
            Ok(p) => p,
            Err(CheckError::SendNack(p)) => p,
            Err(CheckError::Dropped(p)) => p,
            Err(CheckError::MustShortcut(p)) => {
                return PacketDecision::Shortcut { packet: p };
            },
            Err(CheckError::Debug(p)) => {
                return PacketDecision::Malformed { packet: p };
            },
        };
        let dropped = self.is_dropped(&ready);
        match self.get_send_info(ready) {
            Ok(pair) => PacketDecision::Deliver { packet: pair.0, next: pair.1, dropped },
            Err(packet) => PacketDecision::Unroutable { packet },
        }
    }

    /// Decides what to do about a packet whose send failed because neighbor
    /// `next_id` disconnected; see [`spec_send_error`].
    pub fn handle_send_error(&self, p: Packet, next_id: NodeId) -> (d: PacketDecision)
        ensures
            d@ == spec_send_error(self@, p@, next_id),
    {
        match p.pack_type {
            PacketType::MsgFragment(f) => {
                let err_p = route_error(p.routing_header, p.session_id, next_id, f.fragment_index);
                self.respond_decision(err_p)
            },
            PacketType::FloodRequest(_) => PacketDecision::Ignore,
            _ => PacketDecision::Shortcut { packet: p },
        }
    }

    /// Serves one inbound packet in normal mode: flood requests go to the
    /// flood handler (growing the seen set); every other kind runs the
    /// validation pipeline and its outcome is acted on. The decision equals
    /// [`spec_packet_decision`] for the drop roll actually drawn.
    pub fn handle_packet_internal(&mut self, msg: Packet) -> (d: PacketDecision)
        requires
            old(self)@.wf(),
            msg@.pack_type matches PacketTypeView::FloodRequest(req) ==> req.path_trace.len()
                > 0,
        ensures
            final(self)@.wf(),
            final(self)@ == (DroneView {
                seen_flood_ids: spec_packet_seen_after(old(self)@, msg@),
                ..old(self)@
            }),
            exists|roll_drop: bool|
                {
                    &&& d@ == #[trigger] spec_packet_decision(old(self)@, msg@, roll_drop)
                    &&& (old(self)@.pdr == 0 ==> !roll_drop)
                    &&& (old(self)@.pdr == PDR_DENOM ==> roll_drop)
                },
    {
        let ghost pv = msg@;
        if let PacketType::FloodRequest(flood_request) = msg.pack_type {
            let d = self.receive_flood_request(flood_request, msg.session_id);
            proof {
                let w = old(self)@.pdr != 0;
                assert(d@ == spec_packet_decision(old(self)@, pv, w));
            }
            d
        } else {
            let res = self.check_packet(msg);
            let ghost roll = choose|roll_drop: bool|
                {
                    &&& check_res_view(res) == #[trigger] spec_check_packet(self@, pv, roll_drop)
                    &&& (self@.pdr == 0 ==> !roll_drop)
                    &&& (self@.pdr == PDR_DENOM ==> roll_drop)
                };
            let d = self.handle_check_result(res);
            proof {
                assert(d@ == spec_packet_decision(old(self)@, pv, roll));
            }
            d
        }
    }
}

/// The seen-flood set after one packet: only a flood request can grow it.
pub open spec fn spec_packet_seen_after(d: DroneView, p: PacketView) -> Set<(u64, NodeId)> {
    match p.pack_type {
        PacketTypeView::FloodRequest(req) => crate::flooding::spec_flood_seen_after(d, req),
        _ => d.seen_flood_ids,
    }
}

/// The seen-flood set grows monotonically for the lifetime of the node: no
/// packet ever removes a recorded (flood id, initiator id) pair.
pub proof fn lemma_seen_never_shrinks(d: DroneView, p: PacketView)
    ensures
        d.seen_flood_ids.subset_of(spec_packet_seen_after(d, p)),
{
}

/// The node's verdict on one inbound packet in normal mode, as a function of
/// the drop roll: flood requests follow the flood protocol, everything else
/// the validation pipeline.
pub open spec fn spec_packet_decision(d: DroneView, p: PacketView, roll_drop: bool) -> DecisionV {
    match p.pack_type {
        PacketTypeView::FloodRequest(req) => crate::flooding::spec_flood_decision(
            d,
            req,
            p.session_id,
        ),
        _ => spec_handle_checked(d, spec_check_packet(d, p, roll_drop)),
    }
}

} // verus!

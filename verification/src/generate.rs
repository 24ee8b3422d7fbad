//! Builders for error and flood-response packets. Each is pure: it derives the
//! reply's return route from the failing packet's routing header or from the
//! flood's path trace and fills in the kind-specific data.

use vstd::prelude::*;

use crate::packet::{
    FloodRequest, FloodRequestView, FloodResponse, FloodResponseView, Fragment, HeaderView, Nack,
    NackType, NodeId, Packet, PacketType, PacketTypeView, PacketView, SourceRoutingHeader,
};
use crate::paths::{backwards_path, flooding_response_path, spec_backwards_path, spec_flood_route};

verus! {

/// The return header of a reply: the traveled prefix reversed, cursor reset to
/// position one (position zero is the node issuing the reply).
pub open spec fn spec_reversed_header(h: HeaderView) -> HeaderView {
    HeaderView { hop_index: 1, hops: spec_backwards_path(h.hops, h.hop_index) }
}

/// A negative acknowledgment of kind `kind` for fragment `fragment_index`,
/// routed back along the reverse of the traveled prefix of `h`.
pub open spec fn spec_nack_packet(
    h: HeaderView,
    session_id: u64,
    fragment_index: u64,
    kind: NackType,
) -> PacketView {
    PacketView {
        pack_type: PacketTypeView::Nack(Nack { fragment_index, nack_type: kind }),
        routing_header: spec_reversed_header(h),
        session_id,
    }
}

/// The UnexpectedRecipient reply: a reverse-routed NACK whose first hop entry
/// is overwritten with the id of the node that actually received the packet.
pub open spec fn spec_unexpected(
    h: HeaderView,
    session_id: u64,
    drone_id: NodeId,
    f_index: u64,
) -> PacketView {
    let base = spec_nack_packet(h, session_id, f_index, NackType::UnexpectedRecipient(drone_id));
    let hops = base.routing_header.hops;
    let corrected = if hops.len() > 0 {
        hops.update(0, drone_id)
    } else {
        hops
    };
    PacketView {
        pack_type: base.pack_type,
        routing_header: HeaderView { hop_index: 1, hops: corrected },
        session_id,
    }
}

/// The flood response for request `req`, carrying the request's flood id and
/// full path trace, routed along the trace cut at the responder's first
/// occurrence.
pub open spec fn spec_flood_response(
    node_id: NodeId,
    req: FloodRequestView,
    session_id: u64,
) -> PacketView {
    PacketView {
        pack_type: PacketTypeView::FloodResponse(
            FloodResponseView { flood_id: req.flood_id, path_trace: req.path_trace },
        ),
        routing_header: HeaderView {
            hop_index: 1,
            hops: spec_flood_route(node_id, req.path_trace, req.initiator_id),
        },
        session_id,
    }
}

/// Reverses the traveled prefix of a routing header and resets its cursor to
/// position one.
pub fn get_reversed_routing_header(routing_header: SourceRoutingHeader) -> (r: SourceRoutingHeader)
    ensures
        r@ == spec_reversed_header(routing_header@),
{
    let reversed_route = backwards_path(routing_header.hops, routing_header.hop_index);
    SourceRoutingHeader { hop_index: 1, hops: reversed_route }
}

/// Builds the UnexpectedRecipient NACK for a fragment that arrived at the
/// wrong node: reverse route with the first entry corrected to `drone_id`.
pub fn unexpected(
    routing_header: SourceRoutingHeader,
    session_id: u64,
    drone_id: NodeId,
    f_index: u64,
) -> (r: Packet)
    ensures
        r@ == spec_unexpected(routing_header@, session_id, drone_id, f_index),
{
    let unexpected_nack = Nack {
        fragment_index: f_index,
        nack_type: NackType::UnexpectedRecipient(drone_id),
    };
    let mut corrected_header = get_reversed_routing_header(routing_header);
    if corrected_header.hops.len() > 0 {
        corrected_header.hops.set(0, drone_id);
    }
    Packet {
        pack_type: PacketType::Nack(unexpected_nack),
        routing_header: corrected_header,
        session_id,
    }
}

/// Builds the Dropped NACK for a fragment this node chose to lose.
pub fn dropped_packet(
    routing_header: SourceRoutingHeader,
    session_id: u64,
    msg_fragment: Fragment,
) -> (r: Packet)
    ensures
        r@ == spec_nack_packet(
            routing_header@,
            session_id,
            msg_fragment@.fragment_index,
            NackType::Dropped,
        ),
{
    let dropped_nack = Nack {
        fragment_index: msg_fragment.fragment_index,
        nack_type: NackType::Dropped,
    };
    Packet {
        pack_type: PacketType::Nack(dropped_nack),
        routing_header: get_reversed_routing_header(routing_header),
        session_id,
    }
}

/// Builds the DestinationIsDrone NACK for a fragment whose route ends at a
/// forwarding node.
pub fn destination_drone(
    routing_header: SourceRoutingHeader,
    session_id: u64,
    f_index: u64,
) -> (r: Packet)
    ensures
        r@ == spec_nack_packet(routing_header@, session_id, f_index, NackType::DestinationIsDrone),
{
    let destination_nack = Nack { fragment_index: f_index, nack_type: NackType::DestinationIsDrone };
    Packet {
        pack_type: PacketType::Nack(destination_nack),
        routing_header: get_reversed_routing_header(routing_header),
        session_id,
    }
}

/// Builds the ErrorInRouting NACK naming the unreachable node `crash_id`.
pub fn route_error(
    routing_header: SourceRoutingHeader,
    session_id: u64,
    crash_id: NodeId,
    f_index: u64,
) -> (r: Packet)
    ensures
        r@ == spec_nack_packet(
            routing_header@,
            session_id,
            f_index,
            NackType::ErrorInRouting(crash_id),
        ),
{
    let route_nack = Nack { fragment_index: f_index, nack_type: NackType::ErrorInRouting(crash_id) };
    Packet {
        pack_type: PacketType::Nack(route_nack),
        routing_header: get_reversed_routing_header(routing_header),
        session_id,
    }
}

/// Builds the flood response for `flood_req`, copying its flood id and path
/// trace, routed back toward the initiator along the trace.
pub fn flood_response(node_id: NodeId, flood_req: FloodRequest, session_id: u64) -> (r: Packet)
    ensures
        r@ == spec_flood_response(node_id, flood_req@, session_id),
{
    let initiator = flood_req.initiator_id;
    let response = FloodResponse { flood_id: flood_req.flood_id, path_trace: flood_req.path_trace };
    let hops = flooding_response_path(node_id, &response.path_trace, initiator);
    let packet_header = SourceRoutingHeader { hop_index: 1, hops };
    Packet {
        pack_type: PacketType::FloodResponse(response),
        routing_header: packet_header,
        session_id,
    }
}

} // verus!

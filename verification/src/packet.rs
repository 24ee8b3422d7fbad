//! The wire shapes handled by the node: routing headers, packet kinds, and
//! their mathematical views used by every contract in this crate.

use vstd::prelude::*;

verus! {

/// Identifier of a node in the network.
pub type NodeId = u8;

/// The role a node plays in the network, recorded in flood path traces.
#[derive(Clone, Copy, PartialEq, Eq, Structural, Debug)]
pub enum NodeType {
    Client,
    Drone,
    Server,
}

/// An ordered node list plus a cursor marking the next unvisited hop.
/// `hop_index == hops.len()` means the route is exhausted.
#[derive(Clone)]
pub struct SourceRoutingHeader {
    pub hop_index: usize,
    pub hops: Vec<NodeId>,
}

/// Mathematical view of a routing header.
pub struct HeaderView {
    pub hop_index: int,
    pub hops: Seq<NodeId>,
}

impl View for SourceRoutingHeader {
    type V = HeaderView;

    open spec fn view(&self) -> HeaderView {
        HeaderView { hop_index: self.hop_index as int, hops: self.hops@ }
    }
}

impl HeaderView {
    /// The node the cursor points at, if the cursor is in range.
    pub open spec fn current_hop(self) -> Option<NodeId> {
        if 0 <= self.hop_index < self.hops.len() {
            Some(self.hops[self.hop_index])
        } else {
            None
        }
    }

    /// The same route with the cursor moved forward by one.
    pub open spec fn advanced(self) -> HeaderView {
        HeaderView { hop_index: self.hop_index + 1, hops: self.hops }
    }
}

/// One piece of a fragmented message.
#[derive(Clone)]
pub struct Fragment {
    pub fragment_index: u64,
    pub total_n_fragments: u64,
    pub length: u8,
    pub data: Vec<u8>,
}

/// Mathematical view of a fragment.
pub struct FragmentView {
    pub fragment_index: u64,
    pub total_n_fragments: u64,
    pub length: u8,
    pub data: Seq<u8>,
}

impl View for Fragment {
    type V = FragmentView;

    open spec fn view(&self) -> FragmentView {
        FragmentView {
            fragment_index: self.fragment_index,
            total_n_fragments: self.total_n_fragments,
            length: self.length,
            data: self.data@,
        }
    }
}

/// Positive acknowledgment of one fragment.
#[derive(Clone, Copy, PartialEq, Eq, Structural, Debug)]
pub struct Ack {
    pub fragment_index: u64,
}

/// The disjoint failure classes a negative acknowledgment can report.
#[derive(Clone, Copy, PartialEq, Eq, Structural, Debug)]
pub enum NackType {
    ErrorInRouting(NodeId),
    DestinationIsDrone,
    Dropped,
    UnexpectedRecipient(NodeId),
}

/// Negative acknowledgment of one fragment.
#[derive(Clone, Copy, PartialEq, Eq, Structural, Debug)]
pub struct Nack {
    pub fragment_index: u64,
    pub nack_type: NackType,
}

/// A discovery broadcast: who started it and which nodes it has visited.
#[derive(Clone)]
pub struct FloodRequest {
    pub flood_id: u64,
    pub initiator_id: NodeId,
    pub path_trace: Vec<(NodeId, NodeType)>,
}

/// Mathematical view of a flood request.
pub struct FloodRequestView {
    pub flood_id: u64,
    pub initiator_id: NodeId,
    pub path_trace: Seq<(NodeId, NodeType)>,
}

impl View for FloodRequest {
    type V = FloodRequestView;

    open spec fn view(&self) -> FloodRequestView {
        FloodRequestView {
            flood_id: self.flood_id,
            initiator_id: self.initiator_id,
            path_trace: self.path_trace@,
        }
    }
}

/// The convergecast answer to a flood request.
#[derive(Clone)]
pub struct FloodResponse {
    pub flood_id: u64,
    pub path_trace: Vec<(NodeId, NodeType)>,
}

/// Mathematical view of a flood response.
pub struct FloodResponseView {
    pub flood_id: u64,
    pub path_trace: Seq<(NodeId, NodeType)>,
}

impl View for FloodResponse {
    type V = FloodResponseView;

    open spec fn view(&self) -> FloodResponseView {
        FloodResponseView { flood_id: self.flood_id, path_trace: self.path_trace@ }
    }
}

/// The closed set of packet kinds.
#[derive(Clone)]
pub enum PacketType {
    MsgFragment(Fragment),
    Ack(Ack),
    Nack(Nack),
    FloodRequest(FloodRequest),
    FloodResponse(FloodResponse),
}

/// Mathematical view of a packet kind.
pub enum PacketTypeView {
    MsgFragment(FragmentView),
    Ack(Ack),
    Nack(Nack),
    FloodRequest(FloodRequestView),
    FloodResponse(FloodResponseView),
}

impl View for PacketType {
    type V = PacketTypeView;

    open spec fn view(&self) -> PacketTypeView {
        match self {
            PacketType::MsgFragment(f) => PacketTypeView::MsgFragment(f@),
            PacketType::Ack(a) => PacketTypeView::Ack(*a),
            PacketType::Nack(n) => PacketTypeView::Nack(*n),
            PacketType::FloodRequest(r) => PacketTypeView::FloodRequest(r@),
            PacketType::FloodResponse(r) => PacketTypeView::FloodResponse(r@),
        }
    }
}

/// A routed unit of traffic: a kind, a route, and a session.
#[derive(Clone)]
pub struct Packet {
    pub pack_type: PacketType,
    pub routing_header: SourceRoutingHeader,
    pub session_id: u64,
}

/// Mathematical view of a packet.
pub struct PacketView {
    pub pack_type: PacketTypeView,
    pub routing_header: HeaderView,
    pub session_id: u64,
}

impl View for Packet {
    type V = PacketView;

    open spec fn view(&self) -> PacketView {
        PacketView {
            pack_type: self.pack_type@,
            routing_header: self.routing_header@,
            session_id: self.session_id,
        }
    }
}

} // verus!

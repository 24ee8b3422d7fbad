//! Flood discovery (deduplication, dead ends, broadcast fan-out, response
//! routes), crash-mode behavior, commands, and the send-failure decision.

use fungi_drone::dispatch::PacketDecision;
use fungi_drone::drone::{CommandResult, DroneCommand, FungiDrone};
use fungi_drone::generate::{flood_response, unexpected};
use fungi_drone::packet::{
    Ack, FloodRequest, Fragment, Nack, NackType, NodeType, Packet, PacketType,
    SourceRoutingHeader,
};
use fungi_drone::paths::{backwards_path, flooding_response_path};
use fungi_drone::PDR_DENOM;

fn flood_packet(flood_id: u64, initiator_id: u8, trace: Vec<(u8, NodeType)>, session: u64) -> Packet {
    Packet {
        pack_type: PacketType::FloodRequest(FloodRequest {
            flood_id,
            initiator_id,
            path_trace: trace,
        }),
        routing_header: SourceRoutingHeader { hop_index: 0, hops: Vec::new() },
        session_id: session,
    }
}

fn fragment_packet(hops: Vec<u8>, hop_index: usize, session_id: u64, f_index: u64) -> Packet {
    Packet {
        pack_type: PacketType::MsgFragment(Fragment {
            fragment_index: f_index,
            total_n_fragments: 1,
            length: 0,
            data: Vec::new(),
        }),
        routing_header: SourceRoutingHeader { hop_index, hops },
        session_id,
    }
}

#[test]
fn backwards_path_reverses_prefix() {
    assert_eq!(backwards_path(vec![1, 2, 3, 4], 3), vec![3, 2, 1]);
    assert_eq!(backwards_path(vec![1, 2, 3], 0), Vec::<u8>::new());
    // a cursor past the end is capped at the whole route
    assert_eq!(backwards_path(vec![1, 2], 9), vec![2, 1]);
}

#[test]
fn flood_response_path_cuts_at_first_occurrence() {
    // The trace visits node 9 twice; the route must cut at the FIRST
    // occurrence: [9, 2, 1], without the second occurrence or node 7.
    let trace = vec![
        (1u8, NodeType::Drone),
        (2u8, NodeType::Drone),
        (9u8, NodeType::Drone),
        (7u8, NodeType::Drone),
        (9u8, NodeType::Drone),
    ];
    assert_eq!(flooding_response_path(9, &trace, 1), vec![9, 2, 1]);
}

#[test]
fn flood_response_path_appends_missing_initiator() {
    // The initiator is not in the kept prefix: it is appended so the reply
    // can always reach it.
    let trace = vec![(2u8, NodeType::Drone), (9u8, NodeType::Drone)];
    assert_eq!(flooding_response_path(9, &trace, 5), vec![9, 2, 5]);
    // ... and not appended when the route already ends at it.
    let trace2 = vec![(5u8, NodeType::Client), (9u8, NodeType::Drone)];
    assert_eq!(flooding_response_path(9, &trace2, 5), vec![9, 5]);
}

#[test]
fn single_neighbor_flood_yields_immediate_response() {
    // A single-neighbor node 2 gets a fresh flood from initiator 1: it
    // answers at once with a response routed [2, 1].
    let mut d = FungiDrone::new(2, vec![1], 0);
    let p = flood_packet(42, 1, vec![(1, NodeType::Drone)], 6);
    match d.handle_packet_internal(p) {
        PacketDecision::Respond { response, next } => {
            assert_eq!(next, 1);
            assert_eq!(response.routing_header.hop_index, 1);
            assert_eq!(response.routing_header.hops, vec![2, 1]);
            match response.pack_type {
                PacketType::FloodResponse(r) => {
                    assert_eq!(r.flood_id, 42);
                    assert_eq!(
                        r.path_trace,
                        vec![(1, NodeType::Drone), (2, NodeType::Drone)]
                    );
                },
                _ => panic!("expected a flood response"),
            }
        },
        _ => panic!("expected an immediate flood response"),
    }
}

#[test]
fn fresh_flood_broadcasts_to_all_but_previous() {
    let mut d = FungiDrone::new(2, vec![1, 3, 4], 0);
    let p = flood_packet(7, 1, vec![(1, NodeType::Client)], 0);
    match d.handle_packet_internal(p) {
        PacketDecision::Broadcast { request, targets } => {
            assert_eq!(targets, vec![3, 4]);
            assert_eq!(request.routing_header.hop_index, 0);
            assert_eq!(request.routing_header.hops, Vec::<u8>::new());
            match request.pack_type {
                PacketType::FloodRequest(r) => {
                    assert_eq!(r.flood_id, 7);
                    assert_eq!(r.initiator_id, 1);
                    assert_eq!(
                        r.path_trace,
                        vec![(1, NodeType::Client), (2, NodeType::Drone)]
                    );
                },
                _ => panic!("expected the flood request"),
            }
        },
        _ => panic!("expected a broadcast"),
    }
}

#[test]
fn duplicate_flood_is_answered_not_rebroadcast() {
    // Two identical (flood_id, initiator_id) requests: the first fans out,
    // the second is answered directly.
    let mut d = FungiDrone::new(2, vec![1, 3], 0);
    let first = flood_packet(7, 1, vec![(1, NodeType::Client)], 0);
    assert!(matches!(
        d.handle_packet_internal(first),
        PacketDecision::Broadcast { .. }
    ));
    let second = flood_packet(7, 1, vec![(1, NodeType::Client)], 1);
    match d.handle_packet_internal(second) {
        PacketDecision::Respond { response, next } => {
            assert_eq!(next, 1);
            assert_eq!(response.routing_header.hops, vec![2, 1]);
        },
        _ => panic!("expected a direct response, not a second fan-out"),
    }
    // a different flood id is fresh again
    let third = flood_packet(8, 1, vec![(1, NodeType::Client)], 2);
    assert!(matches!(
        d.handle_packet_internal(third),
        PacketDecision::Broadcast { .. }
    ));
}

#[test]
fn crashed_fragment_bounces_as_route_error() {
    // Crash then a fragment: always ErrorInRouting naming this node, even
    // with the drop rate at its maximum; never forwarded onward.
    let d = FungiDrone::new(2, vec![1, 3], PDR_DENOM);
    let p = fragment_packet(vec![1, 2, 3], 1, 5, 3);
    match d.handle_packet_crashed(p) {
        PacketDecision::Respond { response, next } => {
            assert_eq!(next, 1);
            assert_eq!(response.routing_header.hop_index, 1);
            assert_eq!(response.routing_header.hops, vec![2, 1]);
            match response.pack_type {
                PacketType::Nack(n) => {
                    assert_eq!(n.fragment_index, 3);
                    assert_eq!(n.nack_type, NackType::ErrorInRouting(2));
                },
                _ => panic!("expected a NACK"),
            }
        },
        _ => panic!("expected the bounced NACK"),
    }
}

#[test]
fn crashed_ack_is_processed_normally() {
    let d = FungiDrone::new(2, vec![1, 3], 0);
    let p = Packet {
        pack_type: PacketType::Ack(Ack { fragment_index: 0 }),
        routing_header: SourceRoutingHeader { hop_index: 1, hops: vec![1, 2, 3] },
        session_id: 0,
    };
    match d.handle_packet_crashed(p) {
        PacketDecision::Deliver { next, dropped, packet } => {
            assert_eq!(next, 3);
            assert!(!dropped);
            assert_eq!(packet.routing_header.hop_index, 2);
        },
        _ => panic!("expected normal forwarding"),
    }
}

#[test]
fn crashed_flood_request_is_discarded() {
    let d = FungiDrone::new(2, vec![1, 3], 0);
    let p = flood_packet(1, 1, vec![(1, NodeType::Client)], 0);
    assert!(matches!(d.handle_packet_crashed(p), PacketDecision::Ignore));
}

#[test]
fn commands_update_state() {
    let mut d = FungiDrone::new(2, vec![1], 0);
    assert!(matches!(
        d.handle_command_internal(Some(DroneCommand::AddSender(3))),
        CommandResult::Continue
    ));
    assert!(d.has_neighbor(3));
    assert!(matches!(
        d.handle_command_internal(Some(DroneCommand::SetPacketDropRate(500))),
        CommandResult::Continue
    ));
    assert_eq!(d.pdr, 500);
    assert!(matches!(
        d.handle_command_internal(Some(DroneCommand::RemoveSender(1))),
        CommandResult::Continue
    ));
    assert!(!d.has_neighbor(1));
    assert!(d.has_neighbor(3));
    assert!(matches!(
        d.handle_command_internal(Some(DroneCommand::Crash)),
        CommandResult::Break
    ));
    assert!(matches!(d.handle_command_internal(None), CommandResult::NoController));
}

#[test]
fn send_error_decisions() {
    let d = FungiDrone::new(2, vec![1, 3], 0);
    // a fragment that failed toward a disconnected 3 becomes an
    // ErrorInRouting(3) NACK sent back toward 1
    let p = fragment_packet(vec![1, 2, 3], 2, 5, 1);
    match d.handle_send_error(p, 3) {
        PacketDecision::Respond { response, next } => {
            assert_eq!(next, 1);
            assert_eq!(response.routing_header.hops, vec![2, 1]);
            match response.pack_type {
                PacketType::Nack(n) => {
                    assert_eq!(n.nack_type, NackType::ErrorInRouting(3));
                },
                _ => panic!("expected a NACK"),
            }
        },
        _ => panic!("expected the NACK resent"),
    }
    // other kinds are surfaced; flood requests are discarded
    let a = Packet {
        pack_type: PacketType::Ack(Ack { fragment_index: 0 }),
        routing_header: SourceRoutingHeader { hop_index: 2, hops: vec![1, 2, 3] },
        session_id: 0,
    };
    assert!(matches!(d.handle_send_error(a, 3), PacketDecision::Shortcut { .. }));
    let f = flood_packet(1, 1, vec![(1, NodeType::Client)], 0);
    assert!(matches!(d.handle_send_error(f, 3), PacketDecision::Ignore));
}

#[test]
fn unexpected_builder_corrects_first_entry() {
    let h = SourceRoutingHeader { hop_index: 3, hops: vec![1, 2, 3, 4] };
    let q = unexpected(h, 9, 8, 2);
    assert_eq!(q.routing_header.hop_index, 1);
    assert_eq!(q.routing_header.hops, vec![8, 2, 1]);
    assert_eq!(q.session_id, 9);
    match q.pack_type {
        PacketType::Nack(n) => {
            assert_eq!(n.fragment_index, 2);
            assert_eq!(n.nack_type, NackType::UnexpectedRecipient(8));
        },
        _ => panic!("expected a NACK"),
    }
}

#[test]
fn flood_response_builder_copies_trace() {
    let req = FloodRequest {
        flood_id: 3,
        initiator_id: 1,
        path_trace: vec![(1, NodeType::Client), (2, NodeType::Drone)],
    };
    let q = flood_response(2, req, 4);
    assert_eq!(q.session_id, 4);
    assert_eq!(q.routing_header.hop_index, 1);
    assert_eq!(q.routing_header.hops, vec![2, 1]);
    match q.pack_type {
        PacketType::FloodResponse(r) => {
            assert_eq!(r.flood_id, 3);
            assert_eq!(r.path_trace, vec![(1, NodeType::Client), (2, NodeType::Drone)]);
        },
        _ => panic!("expected a flood response"),
    }
}

#[test]
fn debug_switches_set_flags() {
    let mut d = FungiDrone::new(2, vec![], 0);
    assert!(!d.debug_print);
    assert!(!d.debug_shortcut);
    d.set_debug_print();
    d.set_debug_shortcut();
    assert!(d.debug_print);
    assert!(d.debug_shortcut);
}

#[test]
fn dropped_nack_builder_via_pipeline_dedup_trace() {
    // A flood whose own trace already contains this node: the duplicate pair
    // arrives a second time along a longer loop, and the cut still happens at
    // the first occurrence of this node.
    let mut d = FungiDrone::new(9, vec![1, 7], 0);
    let first = flood_packet(1, 1, vec![(1, NodeType::Client)], 0);
    assert!(matches!(
        d.handle_packet_internal(first),
        PacketDecision::Broadcast { .. }
    ));
    let second = flood_packet(
        1,
        1,
        vec![
            (1, NodeType::Client),
            (2, NodeType::Drone),
            (9, NodeType::Drone),
            (7, NodeType::Drone),
        ],
        1,
    );
    match d.handle_packet_internal(second) {
        PacketDecision::RespondUnroutable { response } => {
            // the route cuts at the first occurrence of 9; its next hop 2 is
            // not a neighbor here, so the reply cannot be resolved
            assert_eq!(response.routing_header.hops, vec![9, 2, 1]);
        },
        _ => panic!("expected an unroutable response cut at the first occurrence"),
    }
}

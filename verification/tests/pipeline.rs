//! The validation pipeline on concrete packets: wrong hop, destination
//! reached, probabilistic drop at both ends of the range, unknown next hop,
//! malformed headers, and the full forwarding scenario.

use fungi_drone::check_packet::{destination_is_drone, id_matches_hop, not_neighbor, CheckError};
use fungi_drone::dispatch::PacketDecision;
use fungi_drone::drone::FungiDrone;
use fungi_drone::header::{get_hop, increment_index};
use fungi_drone::packet::{
    Ack, Fragment, Nack, NackType, Packet, PacketType, SourceRoutingHeader,
};
use fungi_drone::PDR_DENOM;

fn fragment_packet(hops: Vec<u8>, hop_index: usize, session_id: u64, f_index: u64) -> Packet {
    Packet {
        pack_type: PacketType::MsgFragment(Fragment {
            fragment_index: f_index,
            total_n_fragments: 1,
            length: 4,
            data: vec![1, 2, 3, 4],
        }),
        routing_header: SourceRoutingHeader { hop_index, hops },
        session_id,
    }
}

fn ack_packet(hops: Vec<u8>, hop_index: usize, session_id: u64) -> Packet {
    Packet {
        pack_type: PacketType::Ack(Ack { fragment_index: 0 }),
        routing_header: SourceRoutingHeader { hop_index, hops },
        session_id,
    }
}

#[test]
fn get_hop_reads_cursor() {
    let h = SourceRoutingHeader { hop_index: 1, hops: vec![1, 2, 3] };
    assert_eq!(get_hop(&h), Some(2));
    let out = SourceRoutingHeader { hop_index: 3, hops: vec![1, 2, 3] };
    assert_eq!(get_hop(&out), None);
}

#[test]
fn increment_index_advances_by_one() {
    let mut h = SourceRoutingHeader { hop_index: 1, hops: vec![1, 2, 3] };
    increment_index(&mut h);
    assert_eq!(h.hop_index, 2);
    assert_eq!(h.hops, vec![1, 2, 3]);
}

#[test]
fn unexpected_recipient_reverses_traveled_prefix() {
    // Node 9 receives a fragment whose current hop is 3: the reply's hops are
    // the reverse of the traveled prefix [1,2,3] with the first entry set to 9.
    let d = FungiDrone::new(9, vec![2], 0);
    let p = fragment_packet(vec![1, 2, 3, 4], 2, 77, 5);
    match id_matches_hop(p, &d) {
        Err(CheckError::SendNack(q)) => {
            match q.pack_type {
                PacketType::Nack(n) => {
                    assert_eq!(n.fragment_index, 5);
                    assert_eq!(n.nack_type, NackType::UnexpectedRecipient(9));
                },
                _ => panic!("expected a NACK"),
            }
            assert_eq!(q.routing_header.hop_index, 1);
            assert_eq!(q.routing_header.hops, vec![9, 2, 1]);
            assert_eq!(q.session_id, 77);
        },
        _ => panic!("expected an UnexpectedRecipient NACK"),
    }
}

#[test]
fn wrong_hop_ack_is_shortcut() {
    let d = FungiDrone::new(9, vec![2], 0);
    let p = ack_packet(vec![1, 2, 3], 1, 8);
    match id_matches_hop(p, &d) {
        Err(CheckError::MustShortcut(q)) => {
            assert_eq!(q.routing_header.hop_index, 1);
            assert_eq!(q.routing_header.hops, vec![1, 2, 3]);
        },
        _ => panic!("expected a shortcut"),
    }
}

#[test]
fn malformed_header_is_debug() {
    let d = FungiDrone::new(9, vec![2], 0);
    let p = fragment_packet(vec![1, 2], 5, 8, 0);
    assert!(matches!(id_matches_hop(p, &d), Err(CheckError::Debug(_))));
}

#[test]
fn destination_is_drone_yields_nack() {
    // After advancing, the cursor equals the route length: a fragment becomes
    // a DestinationIsDrone NACK routed back along the reversed prefix.
    let p = fragment_packet(vec![1, 2], 2, 3, 9);
    match destination_is_drone(p) {
        Err(CheckError::SendNack(q)) => {
            match q.pack_type {
                PacketType::Nack(n) => {
                    assert_eq!(n.fragment_index, 9);
                    assert_eq!(n.nack_type, NackType::DestinationIsDrone);
                },
                _ => panic!("expected a NACK"),
            }
            assert_eq!(q.routing_header.hop_index, 1);
            assert_eq!(q.routing_header.hops, vec![2, 1]);
        },
        _ => panic!("expected a DestinationIsDrone NACK"),
    }
}

#[test]
fn destination_ack_is_shortcut() {
    let p = ack_packet(vec![1, 2], 2, 3);
    assert!(matches!(destination_is_drone(p), Err(CheckError::MustShortcut(_))));
}

#[test]
fn not_neighbor_yields_route_error() {
    let d = FungiDrone::new(2, vec![1], 0);
    // advanced header: next hop 3 is not a neighbor
    let p = fragment_packet(vec![1, 2, 3], 2, 3, 4);
    match not_neighbor(p, &d) {
        Err(CheckError::SendNack(q)) => {
            match q.pack_type {
                PacketType::Nack(n) => {
                    assert_eq!(n.fragment_index, 4);
                    assert_eq!(n.nack_type, NackType::ErrorInRouting(3));
                },
                _ => panic!("expected a NACK"),
            }
            assert_eq!(q.routing_header.hop_index, 1);
            assert_eq!(q.routing_header.hops, vec![2, 1]);
        },
        _ => panic!("expected an ErrorInRouting NACK"),
    }
}

#[test]
fn forward_scenario_reports_sent() {
    // Node 2 with neighbors {1,3}, zero drop rate, fragment on [1,2,3] at
    // cursor 1: forwarded to 3 with the cursor at 2, reported as sent.
    let mut d = FungiDrone::new(2, vec![1, 3], 0);
    let p = fragment_packet(vec![1, 2, 3], 1, 11, 0);
    match d.handle_packet_internal(p) {
        PacketDecision::Deliver { packet, next, dropped } => {
            assert_eq!(next, 3);
            assert!(!dropped);
            assert_eq!(packet.routing_header.hop_index, 2);
            assert_eq!(packet.routing_header.hops, vec![1, 2, 3]);
            assert!(matches!(packet.pack_type, PacketType::MsgFragment(_)));
        },
        _ => panic!("expected delivery to 3"),
    }
}

#[test]
fn removed_neighbor_scenario_yields_route_error() {
    // Same as the forward scenario, but 3 has been removed from the neighbor
    // table: the result is an ErrorInRouting(3) NACK routed back to 1.
    let mut d = FungiDrone::new(2, vec![1], 0);
    let p = fragment_packet(vec![1, 2, 3], 1, 11, 6);
    match d.handle_packet_internal(p) {
        PacketDecision::Deliver { packet, next, dropped } => {
            assert_eq!(next, 1);
            assert!(!dropped);
            assert_eq!(packet.routing_header.hop_index, 1);
            assert_eq!(packet.routing_header.hops, vec![2, 1]);
            match packet.pack_type {
                PacketType::Nack(n) => {
                    assert_eq!(n.fragment_index, 6);
                    assert_eq!(n.nack_type, NackType::ErrorInRouting(3));
                },
                _ => panic!("expected a NACK"),
            }
        },
        _ => panic!("expected the NACK delivered back to 1"),
    }
}

#[test]
fn full_drop_rate_yields_dropped_nack() {
    // With the drop rate at its maximum every fragment is lost: the pipeline
    // must produce a Dropped NACK routed back, reported as dropped. This also
    // exercises the uniform draw: a roll at or above the bound would let the
    // fragment through.
    let mut d = FungiDrone::new(2, vec![1, 3], PDR_DENOM);
    for _ in 0..50 {
        let p = fragment_packet(vec![1, 2, 3], 1, 4, 8);
        match d.handle_packet_internal(p) {
            PacketDecision::Deliver { packet, next, dropped } => {
                assert_eq!(next, 1);
                assert!(dropped);
                assert_eq!(packet.routing_header.hop_index, 1);
                assert_eq!(packet.routing_header.hops, vec![2, 1]);
                match packet.pack_type {
                    PacketType::Nack(n) => {
                        assert_eq!(n.fragment_index, 8);
                        assert_eq!(n.nack_type, NackType::Dropped);
                    },
                    _ => panic!("expected a Dropped NACK"),
                }
            },
            _ => panic!("expected the Dropped NACK delivered back to 1"),
        }
    }
}

#[test]
fn transiting_dropped_nack_reported_as_dropped() {
    // A Dropped-kind NACK passing through is forwarded but reported as a
    // dropped packet, not a sent one.
    let mut d = FungiDrone::new(2, vec![1, 3], 0);
    let p = Packet {
        pack_type: PacketType::Nack(Nack { fragment_index: 0, nack_type: NackType::Dropped }),
        routing_header: SourceRoutingHeader { hop_index: 1, hops: vec![3, 2, 1] },
        session_id: 0,
    };
    match d.handle_packet_internal(p) {
        PacketDecision::Deliver { next, dropped, .. } => {
            assert_eq!(next, 1);
            assert!(dropped);
        },
        _ => panic!("expected delivery"),
    }
}

#[test]
fn unroutable_ready_packet_is_surfaced() {
    // An ack whose next hop after advancing is not a neighbor is surfaced.
    let mut d = FungiDrone::new(2, vec![1], 0);
    let p = ack_packet(vec![1, 2, 3], 1, 0);
    assert!(matches!(d.handle_packet_internal(p), PacketDecision::Shortcut { .. }));
}

//! The ordered validation pipeline applied to every inbound packet that is
//! not a flood request: hop match, advance, destination check, probabilistic
//! drop, neighbor existence. Any early failure short-circuits the rest.

use vstd::prelude::*;

use crate::drone::{DroneView, FungiDrone};
use crate::generate::{
    destination_drone, dropped_packet, route_error, spec_nack_packet, spec_unexpected, unexpected,
};
use crate::header::{get_hop, increment_index};
use crate::packet::{
    Nack, NackType, NodeId, Packet, PacketType, PacketTypeView, PacketView,
};
use crate::PDR_DENOM;

verus! {

/// How a packet leaves the pipeline: passed on for forwarding, handed to the
/// event sink, answered with a NACK, dropped on purpose, or set aside as
/// malformed.
pub enum CheckError {
    MustShortcut(Packet),
    SendNack(Packet),
    Dropped(Packet),
    Debug(Packet),
}

/// Mathematical view of a pipeline outcome.
pub enum CheckV {
    Pass(PacketView),
    Shortcut(PacketView),
    Nack(PacketView),
    Drop(PacketView),
    Malformed(PacketView),
}

/// The view of an executable pipeline result.
pub open spec fn check_res_view(r: Result<Packet, CheckError>) -> CheckV {
    match r {
        Ok(p) => CheckV::Pass(p@),
        Err(CheckError::MustShortcut(p)) => CheckV::Shortcut(p@),
        Err(CheckError::SendNack(p)) => CheckV::Nack(p@),
        Err(CheckError::Dropped(p)) => CheckV::Drop(p@),
        Err(CheckError::Debug(p)) => CheckV::Malformed(p@),
    }
}

/// Stage one: the node the cursor points at must be this node. A missing hop
/// is malformed; a fragment at the wrong node is answered with an
/// UnexpectedRecipient NACK computed from the advanced cursor; any other kind
/// at the wrong node is surfaced to the event sink.
pub open spec fn spec_id_matches_hop(id: NodeId, p: PacketView) -> CheckV {
    match p.routing_header.current_hop() {
        None => CheckV::Malformed(p),
        Some(hop) => if hop == id {
            CheckV::Pass(p)
        } else {
            match p.pack_type {
                PacketTypeView::MsgFragment(f) => CheckV::Nack(
                    spec_unexpected(
                        p.routing_header.advanced(),
                        p.session_id,
                        id,
                        f.fragment_index,
                    ),
                ),
                _ => CheckV::Shortcut(p),
            }
        },
    }
}

/// Stage three: an exhausted route means the packet was addressed to a
/// forwarding node. A fragment is answered with a DestinationIsDrone NACK;
/// any other kind is surfaced.
pub open spec fn spec_destination_is_drone(p: PacketView) -> CheckV {
    if p.routing_header.hop_index == p.routing_header.hops.len() {
        match p.pack_type {
            PacketTypeView::MsgFragment(f) => CheckV::Nack(
                spec_nack_packet(
                    p.routing_header,
                    p.session_id,
                    f.fragment_index,
                    NackType::DestinationIsDrone,
                ),
            ),
            _ => CheckV::Shortcut(p),
        }
    } else {
        CheckV::Pass(p)
    }
}

/// Stage four: only fragments are subject to the probabilistic drop;
/// `roll_drop` is the outcome of the drop roll. A lost fragment turns into a
/// Dropped NACK routed back along the traveled prefix, itself subject to
/// forwarding.
pub open spec fn spec_message_drop(p: PacketView, roll_drop: bool) -> CheckV {
    match p.pack_type {
        PacketTypeView::MsgFragment(f) => if roll_drop {
            CheckV::Drop(
                spec_nack_packet(
                    p.routing_header,
                    p.session_id,
                    f.fragment_index,
                    NackType::Dropped,
                ),
            )
        } else {
            CheckV::Pass(p)
        },
        _ => CheckV::Pass(p),
    }
}

/// Stage five: the next hop must be a neighbor. A fragment bound for an
/// unknown neighbor is answered with an ErrorInRouting NACK naming it; any
/// other kind is surfaced; a missing hop is malformed.
pub open spec fn spec_not_neighbor(d: DroneView, p: PacketView) -> CheckV {
    match p.routing_header.current_hop() {
        None => CheckV::Malformed(p),
        Some(next_hop) => if !d.neighbors.contains(next_hop) {
            match p.pack_type {
                PacketTypeView::MsgFragment(f) => CheckV::Nack(
                    spec_nack_packet(
                        p.routing_header,
                        p.session_id,
                        f.fragment_index,
                        NackType::ErrorInRouting(next_hop),
                    ),
                ),
                _ => CheckV::Shortcut(p),
            }
        } else {
            CheckV::Pass(p)
        },
    }
}

/// The whole pipeline, in its fixed order: hop match, advance, destination
/// check, drop roll, neighbor existence.
pub open spec fn spec_check_packet(d: DroneView, p: PacketView, roll_drop: bool) -> CheckV {
    match spec_id_matches_hop(d.id, p) {
        CheckV::Pass(p1) => {
            let p2 = PacketView { routing_header: p1.routing_header.advanced(), ..p1 };
            match spec_destination_is_drone(p2) {
                CheckV::Pass(p3) => match spec_message_drop(p3, roll_drop) {
                    CheckV::Pass(p4) => spec_not_neighbor(d, p4),
                    e => e,
                },
                e => e,
            }
        },
        e => e,
    }
}

/// Checks that this node is the packet's current hop; see
/// [`spec_id_matches_hop`] for the exact outcome in every case.
pub fn id_matches_hop(p: Packet, d: &FungiDrone) -> (r: Result<Packet, CheckError>)
    ensures
        check_res_view(r) == spec_id_matches_hop(d@.id, p@),
{
    let ghost pv = p@;
    let mut p = p;
    let hop_res = get_hop(&p.routing_header);
    if hop_res.is_none() {
        return Err(CheckError::Debug(p));
    }
    let hop = hop_res.unwrap();
    if d.id == hop {
        return Ok(p);
    }
    if let PacketType::MsgFragment(f) = p.pack_type {
        proof {
            assert(p.routing_header.hops.len() == p.routing_header.hops@.len());
        }
        increment_index(&mut p.routing_header);
        let err_p = unexpected(p.routing_header, p.session_id, d.id, f.fragment_index);
        return Err(CheckError::SendNack(err_p));
    }
    Err(CheckError::MustShortcut(p))
}

/// Checks that the (advanced) route is not exhausted; see
/// [`spec_destination_is_drone`].
pub fn destination_is_drone(p: Packet) -> (r: Result<Packet, CheckError>)
    ensures
        check_res_view(r) == spec_destination_is_drone(p@),
{
    if p.routing_header.hop_index == p.routing_header.hops.len() {
        if let PacketType::MsgFragment(f) = p.pack_type {
            let err_p = destination_drone(p.routing_header, p.session_id, f.fragment_index);
            return Err(CheckError::SendNack(err_p));
        }
        return Err(CheckError::MustShortcut(p));
    }
    Ok(p)
}

/// Rolls to see whether a fragment is dropped; other kinds always pass. One
/// fresh uniform roll decides, so only the ends of the probability range pin
/// the outcome.
pub fn message_drop(p: Packet, d: &FungiDrone) -> (r: Result<Packet, CheckError>)
    requires
        d@.wf(),
    ensures
        exists|roll_drop: bool|
            {
                &&& check_res_view(r) == #[trigger] spec_message_drop(p@, roll_drop)
                &&& (d@.pdr == 0 ==> !roll_drop)
                &&& (d@.pdr == PDR_DENOM ==> roll_drop)
            },
{
    if !matches!(&p.pack_type, PacketType::MsgFragment(_)) {
        proof {
            let w = d@.pdr != 0;
            assert(check_res_view(Result::<Packet, CheckError>::Ok(p)) == spec_message_drop(
                p@,
                w,
            ));
        }
        return Ok(p);
    }
    let ghost pv = p@;
    if d.dropped() {
        if let PacketType::MsgFragment(f) = p.pack_type {
            let err_p = dropped_packet(p.routing_header, p.session_id, f);
            proof {
                assert(check_res_view(
                    Result::<Packet, CheckError>::Err(CheckError::Dropped(err_p)),
                ) == spec_message_drop(pv, true));
            }
            return Err(CheckError::Dropped(err_p));
        }
    }
    proof {
        assert(check_res_view(Result::<Packet, CheckError>::Ok(p)) == spec_message_drop(
            p@,
            false,
        ));
    }
    Ok(p)
}

/// Checks that the packet's next hop is a neighbor of this node; see
/// [`spec_not_neighbor`].
pub fn not_neighbor(p: Packet, d: &FungiDrone) -> (r: Result<Packet, CheckError>)
    ensures
        check_res_view(r) == spec_not_neighbor(d@, p@),
{
    let hop_res = get_hop(&p.routing_header);
    match hop_res {
        Some(next_hop) => {
            if !d.has_neighbor(next_hop) {
                if let PacketType::MsgFragment(msg) = p.pack_type {
                    let err_p = route_error(
                        p.routing_header,
                        p.session_id,
                        next_hop,
                        msg.fragment_index,
                    );
                    return Err(CheckError::SendNack(err_p));
                }
                return Err(CheckError::MustShortcut(p));
            }
            Ok(p)
        },
        None => Err(CheckError::Debug(p)),
    }
}

impl FungiDrone {
    /// Runs the whole validation pipeline on one packet. The outcome equals
    /// [`spec_check_packet`] for the drop roll actually drawn; a zero drop
    /// rate forces the roll to pass, a full one forces it to drop.
    pub fn check_packet(&self, packet: Packet) -> (r: Result<Packet, CheckError>)
        requires
            self@.wf(),
        ensures
            exists|roll_drop: bool|
                {
                    &&& check_res_view(r) == #[trigger] spec_check_packet(self@, packet@, roll_drop)
                    &&& (self@.pdr == 0 ==> !roll_drop)
                    &&& (self@.pdr == PDR_DENOM ==> roll_drop)
                },
    {
        let ghost pv = packet@;
        let mut p = match id_matches_hop(packet, self) {
            Ok(q) => q,
            Err(e) => {
                proof {
                    let w = self@.pdr != 0;
                    assert(check_res_view(Result::<Packet, CheckError>::Err(e))
                        == spec_check_packet(self@, pv, w));
                }
                return Err(e);
            },
        };
        proof {
            assert(spec_id_matches_hop(self@.id, pv) == CheckV::Pass(p@));
            assert(p@ == pv);
            assert(p.routing_header.hops.len() == p.routing_header.hops@.len());
        }
        increment_index(&mut p.routing_header);
        let ghost p2v = p@;
        proof {
            assert(p2v == (PacketView { routing_header: pv.routing_header.advanced(), ..pv }));
        }
        let p = match destination_is_drone(p) {
            Ok(q) => q,
            Err(e) => {
                proof {
                    let w = self@.pdr != 0;
                    assert(check_res_view(Result::<Packet, CheckError>::Err(e))
                        == spec_check_packet(self@, pv, w));
                }
                return Err(e);
            },
        };
        proof {
            assert(p@ == p2v);
        }
        let p = match message_drop(p, self) {
            Ok(q) => q,
            Err(e) => {
                proof {
                    let roll = choose|roll_drop: bool|
                        {
                            &&& check_res_view(Result::<Packet, CheckError>::Err(e))
                                == #[trigger] spec_message_drop(p2v, roll_drop)
                            &&& (self@.pdr == 0 ==> !roll_drop)
                            &&& (self@.pdr == PDR_DENOM ==> roll_drop)
                        };
                    assert(check_res_view(Result::<Packet, CheckError>::Err(e))
                        == spec_check_packet(self@, pv, roll));
                }
                return Err(e);
            },
        };
        let ghost roll = choose|roll_drop: bool|
            {
                &&& CheckV::Pass(p@) == #[trigger] spec_message_drop(p2v, roll_drop)
                &&& (self@.pdr == 0 ==> !roll_drop)
                &&& (self@.pdr == PDR_DENOM ==> roll_drop)
            };
        proof {
            assert(p@ == p2v);
        }
        let r = not_neighbor(p, self);
        proof {
            assert(check_res_view(r) == spec_check_packet(self@, pv, roll));
        }
        r
    }
}

/// For every fragment whose current hop is some node other than this one, the
/// pipeline yields an UnexpectedRecipient NACK whose hops are the reverse of
/// the traveled prefix (cursor advanced past this node), whose first entry is
/// this node's id, and whose cursor starts at one.
pub proof fn lemma_unexpected_recipient(
    d: DroneView,
    p: PacketView,
    roll_drop: bool,
    other: NodeId,
)
    requires
        p.pack_type is MsgFragment,
        p.routing_header.current_hop() == Some(other),
        other != d.id,
    ensures
        spec_check_packet(d, p, roll_drop) matches CheckV::Nack(q) && {
            &&& q.pack_type == PacketTypeView::Nack(
                Nack {
                    fragment_index: p.pack_type->MsgFragment_0.fragment_index,
                    nack_type: NackType::UnexpectedRecipient(d.id),
                },
            )
            &&& q.routing_header.hop_index == 1
            &&& q.routing_header.hops.len() == p.routing_header.hop_index + 1
            &&& q.routing_header.hops[0] == d.id
            &&& forall|j: int|
                1 <= j < q.routing_header.hops.len() ==> q.routing_header.hops[j]
                    == p.routing_header.hops[p.routing_header.hop_index - j]
            &&& q.session_id == p.session_id
        },
{
    let adv = p.routing_header.advanced();
    let f = p.pack_type->MsgFragment_0;
    let q = spec_unexpected(adv, p.session_id, d.id, f.fragment_index);
    assert(spec_check_packet(d, p, roll_drop) == CheckV::Nack(q));
    let prefix = adv.hops.take(adv.hop_index);
    assert(prefix.len() == p.routing_header.hop_index + 1);
    assert(prefix.reverse().len() == prefix.len());
    assert(q.routing_header.hops == prefix.reverse().update(0, d.id));
    assert(forall|j: int|
        1 <= j < prefix.len() ==> prefix.reverse()[j] == p.routing_header.hops[
            p.routing_header.hop_index - j
        ]);
}

/// The pipeline advances the cursor exactly once: whatever it passes on for
/// forwarding carries the arriving packet's kind, route and session with the
/// cursor exactly one past its arriving position — never two.
pub proof fn lemma_advance_once(d: DroneView, p: PacketView, roll_drop: bool)
    ensures
        spec_check_packet(d, p, roll_drop) matches CheckV::Pass(q) ==> q == (PacketView {
            routing_header: p.routing_header.advanced(),
            ..p
        }),
{
}

/// The drop roll can only matter to a fragment: for every other packet kind
/// the pipeline's outcome is the same whatever the roll.
pub proof fn lemma_check_packet_no_fragment(d: DroneView, p: PacketView, b1: bool, b2: bool)
    requires
        !(p.pack_type is MsgFragment),
    ensures
        spec_check_packet(d, p, b1) == spec_check_packet(d, p, b2),
{
}

/// A fragment that arrives at its own hop with the route's end right after it
/// always yields a DestinationIsDrone NACK; it is never passed on.
pub proof fn lemma_destination_is_drone(d: DroneView, p: PacketView, roll_drop: bool)
    requires
        p.pack_type is MsgFragment,
        p.routing_header.current_hop() == Some(d.id),
        p.routing_header.hop_index + 1 == p.routing_header.hops.len(),
    ensures
        spec_check_packet(d, p, roll_drop) matches CheckV::Nack(q) && q.pack_type matches
            PacketTypeView::Nack(n) && n.nack_type == NackType::DestinationIsDrone,
        !(spec_check_packet(d, p, roll_drop) is Pass),
{
}

} // verus!

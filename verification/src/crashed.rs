//! Crash-mode behavior: the node keeps draining packets until every sender is
//! gone. Fragments are bounced back as routing errors naming this node;
//! acknowledgments, NACKs and flood responses are handled as usual; flood
//! requests are ignored.

use vstd::prelude::*;

use crate::check_packet::{
    check_res_view, lemma_check_packet_no_fragment, spec_check_packet,
};
use crate::dispatch::{spec_handle_checked, spec_respond, DecisionV, PacketDecision};
use crate::drone::{DroneView, FungiDrone};
use crate::generate::spec_nack_packet;
use crate::header::increment_index;
use crate::packet::{Nack, NackType, Packet, PacketType, PacketTypeView, PacketView};
use crate::PDR_DENOM;

verus! {

/// The node's verdict on one packet while crashed. A fragment's cursor is
/// advanced and the fragment converted into an ErrorInRouting NACK naming
/// this node — crashed nodes never forward fragments onward, only bounce them
/// back. Other routed kinds run the normal pipeline exactly as in normal
/// mode. Flood requests are discarded.
pub open spec fn spec_crashed_decision(d: DroneView, p: PacketView) -> DecisionV {
    match p.pack_type {
        PacketTypeView::MsgFragment(f) => spec_respond(
            d,
            spec_nack_packet(
                p.routing_header.advanced(),
                p.session_id,
                f.fragment_index,
                NackType::ErrorInRouting(d.id),
            ),
        ),
        PacketTypeView::FloodRequest(_) => DecisionV::Ignore,
        _ => spec_handle_checked(d, spec_check_packet(d, p, false)),
    }
}

impl FungiDrone {
    /// Serves one packet in crash mode; the outcome is deterministic — the
    /// drop roll never reaches a fragment here, whatever the drop rate.
    pub fn handle_packet_crashed(&self, packet: Packet) -> (d: PacketDecision)
        requires
            self@.wf(),
            packet@.pack_type is MsgFragment ==> packet@.routing_header.hop_index < usize::MAX,
        ensures
            d@ == spec_crashed_decision(self@, packet@),
    {
        let ghost pv = packet@;
        let is_fragment = matches!(&packet.pack_type, PacketType::MsgFragment(_));
        let is_flood_request = matches!(&packet.pack_type, PacketType::FloodRequest(_));
        if is_fragment {
            let mut packet = packet;
            increment_index(&mut packet.routing_header);
            self.handle_send_error(packet, self.id)
        } else if is_flood_request {
            PacketDecision::Ignore
        } else {
            let res = self.check_packet(packet);
            proof {
                let roll = choose|roll_drop: bool|
                    {
                        &&& check_res_view(res) == #[trigger] spec_check_packet(
                            self@,
                            pv,
                            roll_drop,
                        )
                        &&& (self@.pdr == 0 ==> !roll_drop)
                        &&& (self@.pdr == PDR_DENOM ==> roll_drop)
                    };
                lemma_check_packet_no_fragment(self@, pv, roll, false);
            }
            self.handle_check_result(res)
        }
    }
}

/// In crash mode a fragment is always turned into an ErrorInRouting NACK
/// naming this node, whatever the drop rate; it is never forwarded onward and
/// never broadcast.
pub proof fn lemma_crashed_fragment(d: DroneView, p: PacketView)
    requires
        p.pack_type is MsgFragment,
    ensures
        ({
            let dec = spec_crashed_decision(d, p);
            &&& !(dec is Deliver)
            &&& !(dec is Broadcast)
            &&& (dec is Respond || dec is RespondUnroutable)
            &&& (dec matches DecisionV::Respond { response, next } ==> response.pack_type
                == PacketTypeView::Nack(
                Nack {
                    fragment_index: p.pack_type->MsgFragment_0.fragment_index,
                    nack_type: NackType::ErrorInRouting(d.id),
                },
            ))
            &&& (dec matches DecisionV::RespondUnroutable { response } ==> response.pack_type
                == PacketTypeView::Nack(
                Nack {
                    fragment_index: p.pack_type->MsgFragment_0.fragment_index,
                    nack_type: NackType::ErrorInRouting(d.id),
                },
            ))
        }),
{
}

} // verus!

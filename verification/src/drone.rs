//! The node's state and the control-side transitions: construction, command
//! handling, the probabilistic drop decision, and next-hop resolution.

use vstd::prelude::*;

use crate::packet::{NodeId, Packet, PacketTypeView, PacketView};
use crate::rng::draw_uniform;
use crate::PDR_DENOM;

verus! {

/// One forwarding node: its identity, who it can reach, its drop rate (a
/// numerator over [`PDR_DENOM`]), the floods it has already served, and its
/// debug switches. Channel handles live with the process that hosts the node.
pub struct FungiDrone {
    pub id: NodeId,
    pub neighbors: Vec<NodeId>,
    pub pdr: u64,
    pub seen_flood_ids: Vec<(u64, NodeId)>,
    pub debug_print: bool,
    pub debug_shortcut: bool,
}

/// Mathematical view of a node: the neighbor table as an ordered sequence of
/// ids and the served floods as a set of (flood id, initiator id) pairs.
pub struct DroneView {
    pub id: NodeId,
    pub neighbors: Seq<NodeId>,
    pub pdr: u64,
    pub seen_flood_ids: Set<(u64, NodeId)>,
    pub debug_print: bool,
    pub debug_shortcut: bool,
}

impl View for FungiDrone {
    type V = DroneView;

    open spec fn view(&self) -> DroneView {
        DroneView {
            id: self.id,
            neighbors: self.neighbors@,
            pdr: self.pdr,
            seen_flood_ids: self.seen_flood_ids@.to_set(),
            debug_print: self.debug_print,
            debug_shortcut: self.debug_shortcut,
        }
    }
}

impl DroneView {
    /// Well-formedness: the drop rate is a valid probability numerator and the
    /// neighbor table holds each id at most once.
    pub open spec fn wf(self) -> bool {
        &&& self.pdr <= PDR_DENOM
        &&& forall|i: int, j: int|
            0 <= i < j < self.neighbors.len() ==> self.neighbors[i] != self.neighbors[j]
    }

    /// The neighbor the packet's cursor points at, when it is reachable.
    pub open spec fn next_hop(self, p: PacketView) -> Option<NodeId> {
        match p.routing_header.current_hop() {
            Some(h) => if self.neighbors.contains(h) {
                Some(h)
            } else {
                None
            },
            None => None,
        }
    }
}

/// A command from the node's controller. Adding a neighbor also hands the
/// hosting process the matching channel; the node itself records the id.
pub enum DroneCommand {
    AddSender(NodeId),
    RemoveSender(NodeId),
    SetPacketDropRate(u64),
    Crash,
}

/// What the event loop should do after a command has been handled.
pub enum CommandResult {
    Break,
    Continue,
    NoController,
}

/// Whether a packet is itself a Dropped-kind NACK; such a packet in transit is
/// reported as dropped rather than sent.
pub open spec fn spec_is_dropped(p: PacketView) -> bool {
    p.pack_type matches PacketTypeView::Nack(n) && n.nack_type is Dropped
}

impl FungiDrone {
    /// Builds a node from its id, its initial neighbor ids, and its initial
    /// drop-rate numerator. The flood set starts empty; debugging is off.
    pub fn new(id: NodeId, neighbors: Vec<NodeId>, pdr: u64) -> (d: Self)
        requires
            pdr <= PDR_DENOM,
            forall|i: int, j: int| 0 <= i < j < neighbors@.len() ==> neighbors@[i] != neighbors@[j],
        ensures
            d@.wf(),
            d@.id == id,
            d@.neighbors == neighbors@,
            d@.pdr == pdr,
            d@.seen_flood_ids == Set::<(u64, NodeId)>::empty(),
            !d@.debug_print,
            !d@.debug_shortcut,
    {
        let d = FungiDrone {
            id,
            neighbors,
            pdr,
            seen_flood_ids: Vec::new(),
            debug_print: false,
            debug_shortcut: false,
        };
        proof {
            assert(d.seen_flood_ids@.to_set() =~= Set::<(u64, NodeId)>::empty());
        }
        d
    }

    /// Switches console diagnostics on.
    pub fn set_debug_print(&mut self)
        ensures
            final(self)@ == (DroneView { debug_print: true, ..old(self)@ }),
    {
        self.debug_print = true;
    }

    /// Switches reporting of undeliverable packets to the event sink on.
    pub fn set_debug_shortcut(&mut self)
        ensures
            final(self)@ == (DroneView { debug_shortcut: true, ..old(self)@ }),
    {
        self.debug_shortcut = true;
    }

    /// Whether `n` is in the neighbor table.
    pub fn has_neighbor(&self, n: NodeId) -> (b: bool)
        ensures
            b == self@.neighbors.contains(n),
    {
        let mut i: usize = 0;
        while i < self.neighbors.len()
            invariant
                i <= self.neighbors@.len(),
                forall|j: int| 0 <= j < i ==> self.neighbors@[j] != n,
            decreases self.neighbors@.len() - i,
        {
            if self.neighbors[i] == n {
                return true;
            }
            i = i + 1;
        }
        false
    }

    /// Whether the flood identified by `(flood_id, initiator_id)` has already
    /// been served by this node.
    pub fn has_seen_flood(&self, flood_id: u64, initiator_id: NodeId) -> (b: bool)
        ensures
            b == self@.seen_flood_ids.contains((flood_id, initiator_id)),
    {
        let mut i: usize = 0;
        while i < self.seen_flood_ids.len()
            invariant
                i <= self.seen_flood_ids@.len(),
                forall|j: int| 0 <= j < i ==> self.seen_flood_ids@[j] != (flood_id, initiator_id),
            decreases self.seen_flood_ids@.len() - i,
        {
            let entry = self.seen_flood_ids[i];
            if entry.0 == flood_id && entry.1 == initiator_id {
                return true;
            }
            i = i + 1;
        }
        false
    }

    /// Records that the flood identified by `(flood_id, initiator_id)` has
    /// been served. The flood set only ever grows.
    pub fn record_flood(&mut self, flood_id: u64, initiator_id: NodeId)
        ensures
            final(self)@ == (DroneView {
                seen_flood_ids: old(self)@.seen_flood_ids.insert((flood_id, initiator_id)),
                ..old(self)@
            }),
    {
        self.seen_flood_ids.push((flood_id, initiator_id));
        proof {
            old(self).seen_flood_ids@.lemma_push_to_set_commute((flood_id, initiator_id));
        }
    }

    /// Applies one controller command and says whether the event loop should
    /// go on, stop, or note that the controller is gone (`None` stands for a
    /// disconnected command source, which is not fatal).
    pub fn handle_command_internal(&mut self, command_res: Option<DroneCommand>) -> (r:
        CommandResult)
        requires
            old(self)@.wf(),
            command_res matches Some(DroneCommand::SetPacketDropRate(p)) ==> p <= PDR_DENOM,
        ensures
            final(self)@.wf(),
            final(self)@.id == old(self)@.id,
            final(self)@.seen_flood_ids == old(self)@.seen_flood_ids,
            final(self)@.debug_print == old(self)@.debug_print,
            final(self)@.debug_shortcut == old(self)@.debug_shortcut,
            match command_res {
                Some(DroneCommand::AddSender(n)) => {
                    &&& r is Continue
                    &&& final(self)@.pdr == old(self)@.pdr
                    &&& final(self)@.neighbors == (if old(self)@.neighbors.contains(n) {
                        old(self)@.neighbors
                    } else {
                        old(self)@.neighbors.push(n)
                    })
                },
                Some(DroneCommand::RemoveSender(n)) => {
                    &&& r is Continue
                    &&& final(self)@.pdr == old(self)@.pdr
                    &&& if old(self)@.neighbors.contains(n) {
                        exists|i: int|
                            0 <= i < old(self)@.neighbors.len() && old(self)@.neighbors[i] == n
                                && final(self)@.neighbors == old(self)@.neighbors.remove(i)
                    } else {
                        final(self)@.neighbors == old(self)@.neighbors
                    }
                    &&& !final(self)@.neighbors.contains(n)
                },
                Some(DroneCommand::SetPacketDropRate(p)) => {
                    &&& r is Continue
                    &&& final(self)@.pdr == p
                    &&& final(self)@.neighbors == old(self)@.neighbors
                },
                Some(DroneCommand::Crash) => {
                    &&& r is Break
                    &&& final(self)@ == old(self)@
                },
                None => {
                    &&& r is NoController
                    &&& final(self)@ == old(self)@
                },
            },
    {
        match command_res {
            Some(DroneCommand::AddSender(node_id)) => {
                if !self.has_neighbor(node_id) {
                    self.neighbors.push(node_id);
                }
                CommandResult::Continue
            },
            Some(DroneCommand::RemoveSender(node_id)) => {
                let mut i: usize = 0;
                #[verifier::loop_isolation(false)]
                while i < self.neighbors.len()
                    invariant
                        i <= self.neighbors@.len(),
                        old(self)@.wf(),
                        self.id == old(self).id,
                        self.pdr == old(self).pdr,
                        self.seen_flood_ids == old(self).seen_flood_ids,
                        self.debug_print == old(self).debug_print,
                        self.debug_shortcut == old(self).debug_shortcut,
                        self.neighbors == old(self).neighbors,
                        forall|j: int| 0 <= j < i ==> self.neighbors@[j] != node_id,
                    decreases self.neighbors@.len() - i,
                {
                    if self.neighbors[i] == node_id {
                        let ghost before = self.neighbors@;
                        self.neighbors.remove(i);
                        proof {
                            assert(before == old(self)@.neighbors);
                            assert(forall|a: int, b: int|
                                0 <= a < b < before.len() ==> before[a] != before[b]);
                            assert(before[i as int] == node_id);
                            assert forall|a: int, b: int|
                                0 <= a < b < self.neighbors@.len() implies self.neighbors@[a]
                                != self.neighbors@[b] by {
                                let aa: int = if a < i { a } else { a + 1 };
                                let bb: int = if b < i { b } else { b + 1 };
                                assert(self.neighbors@[a] == before[aa]);
                                assert(self.neighbors@[b] == before[bb]);
                                assert(before[aa] != before[bb]);
                            }
                            assert forall|k: int|
                                0 <= k < self.neighbors@.len() implies self.neighbors@[k]
                                != node_id by {
                                let kk: int = if k < i { k } else { k + 1 };
                                assert(self.neighbors@[k] == before[kk]);
                                if kk != i {
                                    assert(before[kk] != before[i as int]);
                                }
                            }
                            assert(self.neighbors@ == old(self)@.neighbors.remove(i as int));
                            assert(exists|j: int|
                                0 <= j < old(self)@.neighbors.len() && old(self)@.neighbors[j]
                                    == node_id && self.neighbors@ == old(self)@.neighbors.remove(
                                    j,
                                ));
                        }
                        return CommandResult::Continue;
                    }
                    i = i + 1;
                }
                CommandResult::Continue
            },
            Some(DroneCommand::SetPacketDropRate(p)) => {
                self.pdr = p;
                CommandResult::Continue
            },
            Some(DroneCommand::Crash) => CommandResult::Break,
            None => CommandResult::NoController,
        }
    }

    /// Decides whether a fragment should be dropped: draws one fresh uniform
    /// roll and compares it with the drop-rate numerator. Nothing can be said
    /// of a single outcome except at the two ends of the probability range.
    pub fn dropped(&self) -> (b: bool)
        requires
            self@.wf(),
        ensures
            self@.pdr == 0 ==> !b,
            self@.pdr == PDR_DENOM ==> b,
    {
        let roll = draw_uniform(PDR_DENOM);
        roll < self.pdr
    }

    /// Whether a packet is itself a Dropped-kind NACK.
    pub fn is_dropped(&self, packet: &Packet) -> (b: bool)
        ensures
            b == spec_is_dropped(packet@),
    {
        match &packet.pack_type {
            crate::packet::PacketType::Nack(n) => matches!(n.nack_type, crate::packet::NackType::Dropped),
            _ => false,
        }
    }

    /// Resolves the channel a ready packet should leave on: the packet comes
    /// back with the id of its current hop when that hop is a neighbor, and
    /// unchanged as an error otherwise (cursor out of range or unknown next
    /// hop).
    pub fn get_send_info(&self, p: Packet) -> (r: Result<(Packet, NodeId), Packet>)
        ensures
            match r {
                Ok(pair) => {
                    &&& pair.0@ == p@
                    &&& self@.next_hop(p@) == Some(pair.1)
                },
                Err(q) => {
                    &&& q@ == p@
                    &&& self@.next_hop(p@) is None
                },
            },
    {
        let hop_id = crate::header::get_hop(&p.routing_header);
        match hop_id {
            None => Err(p),
            Some(id) => {
                if self.has_neighbor(id) {
                    Ok((p, id))
                } else {
                    Err(p)
                }
            },
        }
    }
}

} // verus!

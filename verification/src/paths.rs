//! Reverse-path builders: the return route of an error reply is derived from
//! the forward route, and the return route of a flood response from the
//! flood's visited-node trace.

use vstd::prelude::*;

use crate::packet::{NodeId, NodeType};

verus! {

/// The traveled prefix of a route (everything below `hop_index`, capped at the
/// route's length), reversed.
pub open spec fn spec_backwards_path(hops: Seq<NodeId>, hop_index: int) -> Seq<NodeId> {
    let cut = if 0 <= hop_index <= hops.len() {
        hop_index
    } else if hop_index > hops.len() {
        hops.len() as int
    } else {
        0
    };
    hops.take(cut).reverse()
}

/// Takes the prefix of `hops` below `hop_index` — the path actually traveled
/// so far — and reverses it, yielding the forward route of a reply.
pub fn backwards_path(hops: Vec<NodeId>, hop_index: usize) -> (r: Vec<NodeId>)
    ensures
        r@ == spec_backwards_path(hops@, hop_index as int),
{
    let n = if hop_index <= hops.len() {
        hop_index
    } else {
        hops.len()
    };
    let mut r: Vec<NodeId> = Vec::new();
    let mut i: usize = n;
    while i > 0
        invariant
            i <= n <= hops.len(),
            r@.len() == n - i,
            forall|j: int| 0 <= j < r@.len() ==> r@[j] == hops@[n - 1 - j],
        decreases i,
    {
        i = i - 1;
        r.push(hops[i]);
    }
    proof {
        assert(r@ =~= spec_backwards_path(hops@, hop_index as int));
    }
    r
}

/// The node identifiers of a path trace, in trace order.
pub open spec fn trace_ids(trace: Seq<(NodeId, NodeType)>) -> Seq<NodeId> {
    trace.map_values(|t: (NodeId, NodeType)| t.0)
}

/// Length of the prefix of `ids` that ends at the first occurrence of
/// `target` (inclusive), or the whole length if `target` never occurs.
pub open spec fn spec_cut_len(ids: Seq<NodeId>, target: NodeId) -> int
    decreases ids.len(),
{
    if ids.len() == 0 {
        0
    } else if ids[0] == target {
        1
    } else {
        1 + spec_cut_len(ids.drop_first(), target)
    }
}

/// The return route of a flood response: the trace cut at the FIRST occurrence
/// of `search_id`, reversed, with `initiator_id` appended whenever the
/// reply would not already end at it.
pub open spec fn spec_flood_route(
    search_id: NodeId,
    trace: Seq<(NodeId, NodeType)>,
    initiator_id: NodeId,
) -> Seq<NodeId> {
    let ids = trace_ids(trace);
    let kept = ids.take(spec_cut_len(ids, search_id)).reverse();
    if kept.len() > 0 && kept.last() != initiator_id {
        kept.push(initiator_id)
    } else {
        kept
    }
}

/// If no occurrence of `target` lies below position `i`, the cut ends at `i`
/// exactly when `ids[i] == target`, and covers everything when `i` is the end.
proof fn lemma_cut_len_at(ids: Seq<NodeId>, target: NodeId, i: int)
    requires
        0 <= i <= ids.len(),
        forall|j: int| 0 <= j < i ==> ids[j] != target,
    ensures
        i < ids.len() && ids[i] == target ==> spec_cut_len(ids, target) == i + 1,
        i == ids.len() ==> spec_cut_len(ids, target) == ids.len(),
    decreases ids.len(),
{
    if ids.len() == 0 {
    } else if ids[0] == target {
    } else {
        let rest = ids.drop_first();
        if i > 0 {
            assert(forall|j: int| 0 <= j < i - 1 ==> rest[j] != target);
            lemma_cut_len_at(rest, target, i - 1);
        } else {
            lemma_cut_len_at(rest, target, 0);
        }
    }
}

/// Scans `path_trace` from the start, keeps nodes up to and including the
/// first occurrence of `search_id`, reverses that prefix, and appends the
/// initiator if the reply would not otherwise end at it.
pub fn flooding_response_path(
    search_id: NodeId,
    path_trace: &Vec<(NodeId, NodeType)>,
    initiator_id: NodeId,
) -> (r: Vec<NodeId>)
    ensures
        r@ == spec_flood_route(search_id, path_trace@, initiator_id),
{
    let ghost ids = trace_ids(path_trace@);
    assert(ids.len() == path_trace@.len());

    let mut cut: usize = 0;
    let mut found = false;
    while cut < path_trace.len() && !found
        invariant
            cut <= path_trace.len(),
            ids == trace_ids(path_trace@),
            forall|j: int| 0 <= j < ids.len() ==> ids[j] == path_trace@[j].0,
            !found ==> forall|j: int| 0 <= j < cut ==> ids[j] != search_id,
            found ==> {
                &&& 1 <= cut <= ids.len()
                &&& ids[cut - 1] == search_id
                &&& forall|j: int| 0 <= j < cut - 1 ==> ids[j] != search_id
            },
        decreases path_trace.len() - cut,
    {
        if path_trace[cut].0 == search_id {
            found = true;
        }
        cut = cut + 1;
    }
    proof {
        if found {
            lemma_cut_len_at(ids, search_id, cut - 1);
        } else {
            lemma_cut_len_at(ids, search_id, ids.len() as int);
        }
        assert(spec_cut_len(ids, search_id) == cut);
    }

    let mut r: Vec<NodeId> = Vec::new();
    let mut i: usize = cut;
    while i > 0
        invariant
            i <= cut <= path_trace.len(),
            ids == trace_ids(path_trace@),
            forall|j: int| 0 <= j < ids.len() ==> ids[j] == path_trace@[j].0,
            r@.len() == cut - i,
            forall|j: int| 0 <= j < r@.len() ==> r@[j] == ids[cut - 1 - j],
        decreases i,
    {
        i = i - 1;
        r.push(path_trace[i].0);
    }
    proof {
        assert(r@ =~= ids.take(spec_cut_len(ids, search_id)).reverse());
    }

    if r.len() > 0 && r[r.len() - 1] != initiator_id {
        r.push(initiator_id);
    }
    proof {
        assert(r@ =~= spec_flood_route(search_id, path_trace@, initiator_id));
    }
    r
}

} // verus!

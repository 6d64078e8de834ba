//! Choice of the ingester node for a call: one of the eligible members of the
//! cluster, picked by a number drawn for that call.

use crate::status::Status;
use crate::status::StatusView;
use crate::status::Code;
use crate::status::no_eligible_node_message;
use vstd::prelude::*;

verus! {

/// A member of the cluster as the selector sees it.
#[derive(Clone, Debug)]
pub struct Node {
    /// Where the node takes gRPC calls (host and port).
    pub addr: String,
    /// Whether the node takes ingestion traffic at present.
    pub eligible: bool,
}

/// A `Node` as contracts see it.
pub struct NodeView {
    pub addr: Seq<char>,
    pub eligible: bool,
}

impl View for Node {
    type V = NodeView;

    open spec fn view(&self) -> NodeView {
        NodeView { addr: self.addr@, eligible: self.eligible }
    }
}

/// The members of a cluster as contracts see them.
pub open spec fn members(nodes: Seq<Node>) -> Seq<NodeView> {
    Seq::new(nodes.len(), |i: int| nodes[i]@)
}

/// The addresses of the eligible members, in the order of the membership.
pub open spec fn eligible_addrs(nodes: Seq<NodeView>) -> Seq<Seq<char>>
    decreases nodes.len(),
{
    if nodes.len() == 0 {
        Seq::empty()
    } else if nodes.last().eligible {
        eligible_addrs(nodes.drop_last()).push(nodes.last().addr)
    } else {
        eligible_addrs(nodes.drop_last())
    }
}

/// What the selector answers for a membership and a draw: the eligible
/// address at position `draw` modulo their number, or nothing where no
/// member is eligible.
pub open spec fn selection(nodes: Seq<NodeView>, draw: u64) -> Option<Seq<char>> {
    let candidates = eligible_addrs(nodes);
    if candidates.len() == 0 {
        None
    } else {
        Some(candidates[draw as int % candidates.len() as int])
    }
}

/// The failure with which the selector answers when no member is eligible.
pub open spec fn no_eligible_node() -> StatusView {
    StatusView { code: Code::Unavailable, message: no_eligible_node_message() }
}

/// Picks the node for one call. `draw` is a number drawn at random for this
/// call; every eligible member is picked by as many draws as any other, up to
/// the remainder of the division.
pub fn select_ingester(nodes: &Vec<Node>, draw: u64) -> (picked: Result<String, Status>)
    ensures
        match picked {
            Ok(addr) => selection(members(nodes@), draw) == Some(addr@),
            Err(status) => selection(members(nodes@), draw) is None && status@ == no_eligible_node(),
        },
{
    let mut candidates: Vec<usize> = Vec::new();
    let mut i: usize = 0;
    while i < nodes.len()
        invariant
            i <= nodes.len(),
            candidates.len() == eligible_addrs(members(nodes@).take(i as int)).len(),
            candidates.len() <= i,
            forall|k: int|
                0 <= k < candidates.len() ==> (#[trigger] candidates[k]) < i
                    && nodes[candidates[k] as int].addr@ == eligible_addrs(
                    members(nodes@).take(i as int),
                )[k],
        decreases nodes.len() - i,
    {
        proof {
            let all = members(nodes@);
            assert(all.take(i + 1).drop_last() =~= all.take(i as int));
            assert(all.take(i + 1).last() == nodes[i as int]@);
        }
        if nodes[i].eligible {
            candidates.push(i);
        }
        i = i + 1;
    }
    proof {
        assert(members(nodes@).take(nodes.len() as int) =~= members(nodes@));
    }
    if candidates.len() == 0 {
        Err(Status::no_eligible_node())
    } else {
        let count: u64 = candidates.len() as u64;
        let slot: usize = (draw % count) as usize;
        Ok(nodes[candidates[slot]].addr.clone())
    }
}

/// Whatever the draw, the node picked is an eligible member.
pub proof fn lemma_selection_is_eligible(nodes: Seq<NodeView>, draw: u64)
    requires
        selection(nodes, draw) is Some,
    ensures
        eligible_addrs(nodes).contains(selection(nodes, draw)->Some_0),
{
    let candidates = eligible_addrs(nodes);
    let slot = draw as int % candidates.len() as int;
    assert(candidates[slot] == selection(nodes, draw)->Some_0);
}

/// A node is picked exactly when some member is eligible.
pub proof fn lemma_selection_fails_only_without_candidates(nodes: Seq<NodeView>, draw: u64)
    ensures
        selection(nodes, draw) is None <==> forall|i: int|
            0 <= i < nodes.len() ==> !(#[trigger] nodes[i]).eligible,
    decreases nodes.len(),
{
    if nodes.len() > 0 {
        lemma_selection_fails_only_without_candidates(nodes.drop_last(), draw);
        if eligible_addrs(nodes).len() == 0 {
            assert forall|i: int| 0 <= i < nodes.len() implies !(#[trigger] nodes[i]).eligible by {
                if i < nodes.len() - 1 {
                    assert(nodes.drop_last()[i] == nodes[i]);
                }
            }
        } else if !nodes.last().eligible {
            let j = choose|j: int| 0 <= j < nodes.drop_last().len() && nodes.drop_last()[j].eligible;
            assert(nodes[j].eligible);
        }
    }
}

/// Every eligible member is picked by some draw: the draw of its own position
/// among the eligible.
pub proof fn lemma_every_candidate_is_reachable(nodes: Seq<NodeView>, slot: int)
    requires
        0 <= slot < eligible_addrs(nodes).len(),
        eligible_addrs(nodes).len() <= u64::MAX,
    ensures
        selection(nodes, slot as u64) == Some(eligible_addrs(nodes)[slot]),
{
    let count = eligible_addrs(nodes).len() as int;
    assert(slot % count == slot) by {
        vstd::arithmetic::div_mod::lemma_small_mod(slot as nat, count as nat);
    }
}

} // verus!

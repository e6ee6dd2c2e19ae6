//! What holds of handles across calls: identity, round trips, isolation of
//! arenas, stability under insertion and the bounds of a session.
use vstd::prelude::*;

use crate::graph::{Graph, GraphGuard};
use crate::handle::{HandleError, NodeGuard, NodePtr};

verus! {

/// Raw handles taken from checked handles of one session are equal exactly
/// when the checked handles denote the same node.
pub proof fn lemma_identity_stability<N>(
    g: GraphGuard<N>,
    h1: NodeGuard,
    h2: NodeGuard,
    p1: NodePtr,
    p2: NodePtr,
)
    requires
        g.vouches(h1),
        g.vouches(h2),
        h1.is_ptr_of(p1),
        h2.is_ptr_of(p2),
    ensures
        (p1 == p2) <==> h1.same_node(h2),
{
    p1.lemma_identity(p2);
}

/// The raw handle of a node differs from that of a node inserted after it.
pub proof fn lemma_later_node_differs<N>(
    g: GraphGuard<N>,
    h: NodeGuard,
    later: NodeGuard,
    p: NodePtr,
    q: NodePtr,
)
    requires
        g.vouches(h),
        later.arena_id() == g.arena_id(),
        later.slot() == g.nodes().len(),
        h.is_ptr_of(p),
        later.is_ptr_of(q),
    ensures
        p != q,
{
    p.lemma_identity(q);
}

/// Resolving the raw handle of a node through the session that issued it
/// gives back a checked handle to that very node, holding the same value.
pub proof fn lemma_round_trip<N>(g: GraphGuard<N>, h: NodeGuard, p: NodePtr, back: NodeGuard)
    requires
        g.vouches(h),
        h.is_ptr_of(p),
        g.resolves_to(p, back),
    ensures
        g.holds(p),
        g.vouches(back),
        back.same_node(h),
        g.nodes()[back.slot() as int] == g.nodes()[h.slot() as int],
{
}

/// A raw handle issued by one arena never resolves through a session over
/// an arena with another identity.
pub proof fn lemma_cross_arena_isolation<N>(
    a: GraphGuard<N>,
    b: GraphGuard<N>,
    h: NodeGuard,
    p: NodePtr,
)
    requires
        a.vouches(h),
        h.is_ptr_of(p),
        a.arena_id() != b.arena_id(),
    ensures
        !b.holds(p),
        b.refusal(h) == Some(HandleError::Foreign),
{
}

/// Adding nodes to an arena leaves every handle an earlier state of the
/// session vouched for still vouched for, on the same value, and every raw
/// handle it held still held.
pub proof fn lemma_append_only<N>(g: GraphGuard<N>, grown: GraphGuard<N>, h: NodeGuard, p: NodePtr)
    requires
        g.vouches(h),
        h.is_ptr_of(p),
        grown.arena_id() == g.arena_id(),
        grown.brand() == g.brand(),
        g.nodes().len() <= grown.nodes().len(),
        grown.nodes().subrange(0, g.nodes().len() as int) == g.nodes(),
    ensures
        grown.vouches(h),
        grown.holds(p),
        grown.nodes()[h.slot() as int] == g.nodes()[h.slot() as int],
{
    assert(grown.nodes().subrange(0, g.nodes().len() as int)[h.slot() as int] == grown.nodes()[h.slot() as int]);
}

/// Once a session has finished, no later session over the same arena
/// vouches for a handle it issued: such a handle is refused as stale.
pub proof fn lemma_scope_bounded<N>(g: GraphGuard<N>, later: Graph<N>, next: GraphGuard<N>, h: NodeGuard)
    requires
        g.vouches(h),
        later.arena_id() == g.arena_id(),
        later.sessions() > g.brand(),
        next.arena_id() == later.arena_id(),
        next.brand() == later.sessions(),
    ensures
        !next.vouches(h),
        h.slot() < next.nodes().len() ==> next.refusal(h) == Some(HandleError::Stale),
{
}

} // verus!

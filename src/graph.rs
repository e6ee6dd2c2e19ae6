//! The arena itself and the session token through which it is read and
//! grown.
use vstd::prelude::*;

use crate::handle::{HandleError, NodeGuard, NodePtr};

verus! {

/// An append-only arena of nodes of type `N`.
///
/// A node keeps its slot for as long as the arena lives; all nodes go away
/// together with the arena. Every arena carries an identity, and counts the
/// sessions it has gone through so that each session gets its own brand.
pub struct Graph<N> {
    nodes: Vec<N>,
    id: u64,
    sessions: u64,
}

/// A session over one arena: the only way to add nodes and to turn raw
/// handles back into checked ones.
///
/// The token owns the arena for the length of the session and hands it back
/// in `finish`; handles it issued are refused by every later session.
pub struct GraphGuard<N> {
    graph: Graph<N>,
    brand: u64,
}

/// A source of arena identities: every arena it makes gets an identity that
/// no arena made earlier by the same source got.
pub struct ArenaIds {
    next: u64,
}

impl ArenaIds {
    /// The identity the next arena made by this source gets.
    pub closed spec fn next_id(self) -> u64 {
        self.next
    }

    /// A source whose first arena gets identity 0.
    pub fn new() -> (r: Self)
        ensures
            r.next_id() == 0,
    {
        ArenaIds { next: 0 }
    }

    /// An empty arena with the next identity of this source.
    pub fn graph<N>(&mut self) -> (r: Graph<N>)
        requires
            old(self).next_id() < u64::MAX,
        ensures
            r.nodes() == Seq::<N>::empty(),
            r.arena_id() == old(self).next_id(),
            r.sessions() == 0,
            final(self).next_id() == old(self).next_id() + 1,
    {
        let id = self.next;
        self.next = self.next + 1;
        Graph::new(id)
    }
}

impl<N> Graph<N> {
    /// The nodes, in the order they were inserted: slot `i` holds the `i`-th.
    pub closed spec fn nodes(self) -> Seq<N> {
        self.nodes@
    }

    /// The identity of this arena.
    pub closed spec fn arena_id(self) -> u64 {
        self.id
    }

    /// The brand that the next session over this arena will carry.
    pub closed spec fn sessions(self) -> u64 {
        self.sessions
    }

    /// An empty arena with identity `id`.
    ///
    /// Distinct arenas that share handles must be given distinct identities:
    /// the identity is what tells a handle of one arena from one of another.
    pub fn new(id: u64) -> (r: Self)
        ensures
            r.nodes() == Seq::<N>::empty(),
            r.arena_id() == id,
            r.sessions() == 0,
    {
        Graph { nodes: Vec::new(), id, sessions: 0 }
    }

    /// Opens a session over this arena, with a brand that no earlier session
    /// of it carried.
    pub fn with(self) -> (r: GraphGuard<N>)
        requires
            self.sessions() < u64::MAX,
        ensures
            r.wf(),
            r.nodes() == self.nodes(),
            r.arena_id() == self.arena_id(),
            r.brand() == self.sessions(),
    {
        let brand = self.sessions;
        GraphGuard { graph: self, brand }
    }

    /// The number of nodes in the arena.
    pub fn len(&self) -> (r: usize)
        ensures
            r == self.nodes().len(),
    {
        self.nodes.len()
    }

    /// The identity of this arena.
    pub fn id(&self) -> (r: u64)
        ensures
            r == self.arena_id(),
    {
        self.id
    }
}

impl<N> GraphGuard<N> {
    /// The nodes of the arena, in the order they were inserted.
    pub closed spec fn nodes(self) -> Seq<N> {
        self.graph.nodes()
    }

    /// The identity of the arena this session is over.
    pub closed spec fn arena_id(self) -> u64 {
        self.graph.arena_id()
    }

    /// The brand of this session.
    pub closed spec fn brand(self) -> u64 {
        self.brand
    }

    /// The token's invariant: the arena counts this session as its latest.
    pub closed spec fn wf(self) -> bool {
        self.graph.sessions() == self.brand && self.brand < u64::MAX
    }

    /// Whether `p` names a node that this session's arena holds.
    pub open spec fn holds(self, p: NodePtr) -> bool {
        p.arena_id() == self.arena_id() && p.slot() < self.nodes().len()
    }

    /// Whether this session vouches for `h`: it was issued by this session
    /// and names a node of its arena.
    pub open spec fn vouches(self, h: NodeGuard) -> bool {
        h.arena_id() == self.arena_id() && h.brand_id() == self.brand() && h.slot()
            < self.nodes().len()
    }

    /// Whether `h` is the checked handle this session makes of `p`.
    pub open spec fn resolves_to(self, p: NodePtr, h: NodeGuard) -> bool {
        h.is_ptr_of(p) && h.brand_id() == self.brand()
    }

    /// The error with which this session refuses `h`, if any.
    pub open spec fn refusal(self, h: NodeGuard) -> Option<HandleError> {
        if h.arena_id() != self.arena_id() || h.slot() >= self.nodes().len() {
            Some(HandleError::Foreign)
        } else if h.brand_id() != self.brand() {
            Some(HandleError::Stale)
        } else {
            None
        }
    }

    /// Stores `node` in a fresh slot, after every node already there, and
    /// returns a handle to it vouched for by this session.
    pub fn insert(&mut self, node: N) -> (r: NodeGuard)
        requires
            old(self).nodes().len() < usize::MAX,
        ensures
            final(self).nodes() == old(self).nodes().push(node),
            final(self).arena_id() == old(self).arena_id(),
            final(self).brand() == old(self).brand(),
            final(self).wf() == old(self).wf(),
            r.arena_id() == old(self).arena_id(),
            r.brand_id() == old(self).brand(),
            r.slot() == old(self).nodes().len(),
    {
        let index = self.graph.nodes.len();
        self.graph.nodes.push(node);
        NodeGuard::issue(self.graph.id, self.brand, index)
    }

    /// Turns a raw handle back into a checked handle of this session.
    ///
    /// Fails with `Foreign` when `p` names no node of this arena: it was
    /// issued by another arena, or names a slot this arena does not hold.
    pub fn lookup_ptr(&self, p: NodePtr) -> (r: Result<NodeGuard, HandleError>)
        ensures
            match r {
                Ok(h) => self.holds(p) && self.resolves_to(p, h),
                Err(e) => !self.holds(p) && e == HandleError::Foreign,
            },
    {
        if p.arena() == self.graph.id && p.index() < self.graph.nodes.len() {
            Ok(NodeGuard::issue(p.arena(), self.brand, p.index()))
        } else {
            Err(HandleError::Foreign)
        }
    }

    /// Reads the node that `h` denotes, if this session vouches for it.
    pub fn get(&self, h: NodeGuard) -> (r: Result<&N, HandleError>)
        ensures
            match r {
                Ok(v) => self.vouches(h) && *v == self.nodes()[h.slot() as int],
                Err(e) => self.refusal(h) == Some(e),
            },
            r is Ok <==> self.refusal(h) is None,
    {
        if h.arena() != self.graph.id || h.index() >= self.graph.nodes.len() {
            Err(HandleError::Foreign)
        } else if h.brand() != self.brand {
            Err(HandleError::Stale)
        } else {
            Ok(&self.graph.nodes[h.index()])
        }
    }

    /// The number of nodes in the arena.
    pub fn len(&self) -> (r: usize)
        ensures
            r == self.nodes().len(),
    {
        self.graph.nodes.len()
    }

    /// The identity of the arena this session is over.
    pub fn id(&self) -> (r: u64)
        ensures
            r == self.arena_id(),
    {
        self.graph.id
    }

    /// The brand of this session.
    pub fn brand_of(&self) -> (r: u64)
        ensures
            r == self.brand(),
    {
        self.brand
    }

    /// Ends the session and hands the arena back; the next session over it
    /// carries a later brand.
    pub fn finish(self) -> (r: Graph<N>)
        requires
            self.wf(),
        ensures
            r.nodes() == self.nodes(),
            r.arena_id() == self.arena_id(),
            r.sessions() == self.brand() + 1,
    {
        let mut graph = self.graph;
        graph.sessions = self.brand + 1;
        graph
    }
}

impl NodeGuard {
    /// The node this handle denotes, read through the session that vouches
    /// for it.
    pub fn node<'a, N>(&self, g: &'a GraphGuard<N>) -> (r: &'a N)
        requires
            g.vouches(*self),
        ensures
            *r == g.nodes()[self.slot() as int],
    {
        &g.graph.nodes[self.index()]
    }

    /// Resolves `p` through the session that vouches for this handle.
    ///
    /// Fails with `Stale` when `g` does not vouch for this handle, else as
    /// `GraphGuard::lookup_ptr` does.
    pub fn lookup_ptr<N>(&self, g: &GraphGuard<N>, p: NodePtr) -> (r: Result<
        NodeGuard,
        HandleError,
    >)
        ensures
            match r {
                Ok(h) => g.vouches(*self) && g.holds(p) && g.resolves_to(p, h),
                Err(e) => if g.vouches(*self) {
                    !g.holds(p) && e == HandleError::Foreign
                } else {
                    e == HandleError::Stale
                },
            },
    {
        if self.arena() != g.graph.id || self.brand() != g.brand || self.index()
            >= g.graph.nodes.len() {
            Err(HandleError::Stale)
        } else {
            g.lookup_ptr(p)
        }
    }
}

impl NodePtr {
    /// Makes a checked handle of this session from `p` without asking whether
    /// `p` was issued by this arena.
    ///
    /// This is the unchecked tier: the caller answers for `p` naming a node of
    /// the arena `g` is over. Prefer `GraphGuard::lookup_ptr`.
    pub fn lookup_unchecked<N>(&self, g: &GraphGuard<N>) -> (r: NodeGuard)
        ensures
            r.is_ptr_of(*self),
            r.brand_id() == g.brand(),
    {
        NodeGuard::issue(self.arena(), g.brand, self.index())
    }
}

} // verus!

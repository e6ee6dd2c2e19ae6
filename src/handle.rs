//! Handles into an arena: the raw, storable identity of a node and the
//! checked handle that carries the brand of a session.
use vstd::prelude::*;

verus! {

/// Why a handle could not be honoured by a session.
#[derive(Debug, Clone, Copy, PartialEq, Eq, Structural)]
pub enum HandleError {
    /// The handle names a slot of another arena, or a slot that this arena
    /// does not hold.
    Foreign,
    /// The checked handle was issued by a session that is not the current one.
    Stale,
}

/// The storable identity of a node: the arena it lives in and its slot.
///
/// It carries no brand and cannot be read through on its own; a session of
/// the same arena turns it back into a checked handle. Storing one escapes
/// the checked-access discipline: the holder is responsible for resolving it
/// only through a session of the arena that issued it.
#[derive(Debug, Clone, Copy, PartialEq, Eq, Structural, PartialOrd, Ord, Hash)]
pub struct NodePtr {
    pub(crate) arena: u64,
    pub(crate) index: usize,
}

/// A handle to one node, vouched for by the session with the given brand.
#[derive(Debug, Clone, Copy)]
pub struct NodeGuard {
    pub(crate) arena: u64,
    pub(crate) brand: u64,
    pub(crate) index: usize,
}

impl NodePtr {
    /// The arena that issued this handle.
    pub closed spec fn arena_id(self) -> u64 {
        self.arena
    }

    /// The slot of the node in its arena.
    pub closed spec fn slot(self) -> usize {
        self.index
    }

    /// Two raw handles are equal exactly when they name the same slot of the
    /// same arena.
    pub proof fn lemma_identity(self, other: Self)
        ensures
            (self == other) <==> (self.arena_id() == other.arena_id() && self.slot() == other.slot()),
    {
    }

    /// Whether both handles denote the same slot of the same arena.
    pub fn ptr_eq(self, other: Self) -> (r: bool)
        ensures
            r == (self == other),
            r == (self.arena_id() == other.arena_id() && self.slot() == other.slot()),
    {
        self.arena == other.arena && self.index == other.index
    }

    /// The arena that issued this handle.
    pub fn arena(&self) -> (r: u64)
        ensures
            r == self.arena_id(),
    {
        self.arena
    }

    /// The slot of the node in its arena.
    pub fn index(&self) -> (r: usize)
        ensures
            r == self.slot(),
    {
        self.index
    }
}

impl NodeGuard {
    /// The arena that issued this handle.
    pub closed spec fn arena_id(self) -> u64 {
        self.arena
    }

    /// The brand of the session that vouches for this handle.
    pub closed spec fn brand_id(self) -> u64 {
        self.brand
    }

    /// The slot of the node in its arena.
    pub closed spec fn slot(self) -> usize {
        self.index
    }

    /// Whether both handles denote the same node, whatever their brands.
    pub open spec fn same_node(self, other: NodeGuard) -> bool {
        self.arena_id() == other.arena_id() && self.slot() == other.slot()
    }

    /// Whether `p` is the raw identity of the node this handle denotes.
    pub open spec fn is_ptr_of(self, p: NodePtr) -> bool {
        p.arena_id() == self.arena_id() && p.slot() == self.slot()
    }

    /// A handle to slot `index` of arena `arena`, vouched for by `brand`.
    pub(crate) fn issue(arena: u64, brand: u64, index: usize) -> (r: NodeGuard)
        ensures
            r.arena_id() == arena,
            r.brand_id() == brand,
            r.slot() == index,
    {
        NodeGuard { arena, brand, index }
    }

    /// The raw identity of the node, free of the session's brand.
    ///
    /// The result escapes the checked-access discipline: resolve it only
    /// through a session of the same arena.
    pub fn make_ptr(&self) -> (r: NodePtr)
        ensures
            self.is_ptr_of(r),
    {
        NodePtr { arena: self.arena, index: self.index }
    }

    /// The arena that issued this handle.
    pub fn arena(&self) -> (r: u64)
        ensures
            r == self.arena_id(),
    {
        self.arena
    }

    /// The brand of the session that vouches for this handle.
    pub fn brand(&self) -> (r: u64)
        ensures
            r == self.brand_id(),
    {
        self.brand
    }

    /// The slot of the node in its arena.
    pub fn index(&self) -> (r: usize)
        ensures
            r == self.slot(),
    {
        self.index
    }
}

/// Two checked handles are equal when they denote the same node, whatever
/// the sessions that vouch for them.
impl PartialEq for NodeGuard {
    fn eq(&self, other: &NodeGuard) -> (r: bool) {
        self.arena == other.arena && self.index == other.index
    }
}

impl vstd::std_specs::cmp::PartialEqSpecImpl for NodeGuard {
    open spec fn obeys_eq_spec() -> bool {
        true
    }

    open spec fn eq_spec(&self, other: &NodeGuard) -> bool {
        self.same_node(*other)
    }
}

} // verus!

use vstd::prelude::*;

verus! {

/// The foreign runtime's handle to one unit of deferred computation. A node
/// is not associated with any thread, only with the event loop it was created
/// on; it is move-only and is consumed exactly once when a bridge's awaiter
/// is constructed from it. The foreign runtime mints node identities and
/// drives resolution; both appear here as plain values.
pub struct OwnPromiseNode {
    id: u64,
    loop_id: u64,
    resolved: bool,
}

impl OwnPromiseNode {
    /// The node's identity, as minted by the foreign runtime.
    pub closed spec fn id(&self) -> u64 {
        self.id
    }

    /// The event loop this node is bound to.
    pub closed spec fn loop_id(&self) -> u64 {
        self.loop_id
    }

    /// Whether the bridged computation has completed.
    pub closed spec fn is_resolved(&self) -> bool {
        self.resolved
    }

    /// A node as the foreign runtime hands it out: bound to one event loop,
    /// already resolved or still pending.
    pub fn new(id: u64, loop_id: u64, resolved: bool) -> (node: OwnPromiseNode)
        ensures
            node.id() == id,
            node.loop_id() == loop_id,
            node.is_resolved() == resolved,
    {
        OwnPromiseNode { id, loop_id, resolved }
    }

    /// The foreign event loop completes the bridged computation. Identity and
    /// loop binding never change.
    pub fn resolve(&mut self)
        ensures
            final(self).id() == old(self).id(),
            final(self).loop_id() == old(self).loop_id(),
            final(self).is_resolved(),
    {
        self.resolved = true;
    }

    /// The node's identity, for inspection.
    pub fn identity(&self) -> (i: u64)
        ensures
            i == self.id(),
    {
        self.id
    }

    /// The event loop this node is bound to, for inspection.
    pub fn event_loop(&self) -> (l: u64)
        ensures
            l == self.loop_id(),
    {
        self.loop_id
    }

    /// Whether the bridged computation has completed, for inspection.
    pub fn resolved(&self) -> (r: bool)
        ensures
            r == self.is_resolved(),
    {
        self.resolved
    }
}

} // verus!

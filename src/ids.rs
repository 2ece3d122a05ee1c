use vstd::prelude::*;

verus! {

/// Identity of a syntax node: the owning item and the node's index inside it.
#[derive(Debug, Clone, Copy, PartialEq, Eq, Structural, Hash)]
pub struct HirId {
    pub owner: u32,
    pub local_id: u32,
}

/// Identity of a top-level item, named by the item's owner index.
#[derive(Debug, Clone, Copy, PartialEq, Eq, Structural, Hash)]
pub struct ItemId {
    pub owner_id: u32,
}

/// Identity of a body: the node handle of the body's root expression.
#[derive(Debug, Clone, Copy, PartialEq, Eq, Structural, Hash)]
pub struct BodyId {
    pub hir_id: HirId,
}

/// Identity of a definition, possibly in another crate.
#[derive(Debug, Clone, Copy, PartialEq, Eq, Structural, Hash)]
pub struct DefId {
    pub krate: u32,
    pub index: u32,
}

impl ItemId {
    /// The node handle of the item itself: its owner with local index zero.
    pub open spec fn spec_hir_id(self) -> HirId {
        HirId { owner: self.owner_id, local_id: 0 }
    }

    pub fn hir_id(&self) -> (r: HirId)
        ensures
            r == self.spec_hir_id(),
    {
        HirId { owner: self.owner_id, local_id: 0 }
    }
}

} // verus!

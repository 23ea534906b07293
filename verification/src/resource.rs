//! Logical resources: handles, declarations, and the table that owns them.
//!
//! A [`ResourceHandle`] is an index into the handle table of the builder
//! that allocated it (arena + index: handles never point at each other).
//! Physical backing is planned at build time; [`PhysicalBinding`] is the
//! resolved form a built graph hands out.

use vstd::prelude::*;

verus! {

/// What a logical resource is used for.
#[derive(Clone, Copy, Debug, PartialEq, Eq, Structural)]
pub enum Usage {
    ColorAttachment,
    DepthAttachment,
    Sampled,
    Transfer,
}

/// How long a resource's contents must survive.
///
/// `FrameLocal` contents are valid within one frame only; `Persistent`
/// contents are kept across frame boundaries.
#[derive(Clone, Copy, Debug, PartialEq, Eq, Structural)]
pub enum Lifetime {
    FrameLocal,
    Persistent,
}

/// Opaque identifier of a logical image or buffer.
///
/// A handle is valid only within the graph whose builder allocated it;
/// handing it to another builder's graph is caught at build time as an
/// undeclared handle.
#[derive(Clone, Copy, Debug, PartialEq, Eq, Structural)]
pub struct ResourceHandle {
    pub id: usize,
}

/// The declaration a handle was allocated with.
#[derive(Clone, Copy, Debug, PartialEq, Eq, Structural)]
pub struct ResourceDecl {
    pub usage: Usage,
    pub lifetime: Lifetime,
}

/// Resolved physical backing of one logical resource, valid once the
/// graph is built.  Backing is planned arena-style: the physical index
/// equals the handle id, and the narrowest lifetime that satisfies the
/// declaration is kept (a frame-local declaration is never widened).
#[derive(Clone, Copy, Debug, PartialEq, Eq, Structural)]
pub struct PhysicalBinding {
    pub index: usize,
    pub usage: Usage,
    pub lifetime: Lifetime,
}

/// An RGBA clear value; each channel holds the raw bit pattern of an
/// IEEE-754 single-precision float, so the engine can carry the value
/// without computing on it.
#[derive(Clone, Copy, Debug, PartialEq, Eq, Structural)]
pub struct ClearValue {
    pub r_bits: u32,
    pub g_bits: u32,
    pub b_bits: u32,
    pub a_bits: u32,
}

/// Tracks the logical resources declared while a graph is being built.
pub struct HandleTable {
    pub decls: Vec<ResourceDecl>,
}

impl HandleTable {
    /// True of every handle the table has handed out.
    pub open spec fn declares(&self, h: ResourceHandle) -> bool {
        h.id < self.decls@.len()
    }

    pub fn new() -> (t: HandleTable)
        ensures
            t.decls@ == Seq::<ResourceDecl>::empty(),
    {
        HandleTable { decls: Vec::new() }
    }

    pub fn len(&self) -> (n: usize)
        ensures
            n == self.decls@.len(),
    {
        self.decls.len()
    }

    /// Declares one logical resource and hands out its handle.
    pub fn allocate(&mut self, usage: Usage, lifetime: Lifetime) -> (h: ResourceHandle)
        ensures
            h.id == old(self).decls@.len(),
            final(self).decls@ == old(self).decls@.push(ResourceDecl { usage, lifetime }),
            final(self).declares(h),
    {
        let id = self.decls.len();
        self.decls.push(ResourceDecl { usage, lifetime });
        ResourceHandle { id }
    }

    /// The declaration a handle was allocated with.
    pub fn decl_of(&self, h: ResourceHandle) -> (d: ResourceDecl)
        requires
            self.declares(h),
        ensures
            d == self.decls@[h.id as int],
    {
        self.decls[h.id]
    }
}

} // verus!

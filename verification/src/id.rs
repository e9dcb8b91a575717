//! Element identifiers: opaque names for nodes of the layout tree.

use vstd::prelude::*;

verus! {

/// An identifier naming one node in the layout tree, attached so that
/// consumers of the render output (for instance pointer-capability code) can
/// find the node again. An identifier is created per element while the tree
/// is built and, like every per-pass artifact, stops naming anything once
/// the next layout pass begins.
#[derive(Debug, Clone, Copy, PartialEq, Eq, Structural)]
pub struct Id {
    /// The numeric identity handed to the engine's attach call.
    pub id: u32,
}

impl Id {
    /// An identifier with the given numeric identity.
    pub fn new(id: u32) -> (r: Self)
        ensures
            r == (Id { id }),
    {
        Self { id }
    }

    /// The identifier that names nothing: elements built without an
    /// explicit identifier carry this one.
    pub fn default() -> (r: Self)
        ensures
            r == (Id { id: 0u32 }),
    {
        Self { id: 0 }
    }
}

} // verus!

//! The scroll container: clips its children to the element's box and lets
//! them scroll along the enabled axes.

use vstd::prelude::*;

use crate::elements::ElementConfigType;
use crate::id::Id;
use crate::CallView;
use crate::Clay;
use crate::ClayView;
use crate::EngineCall;
use crate::TypedConfig;

verus! {

/// Accumulates a scroll-container configuration; finalizing with
/// [`Scroll::end`] copies the accumulated record into the engine's arena.
#[derive(Debug, Clone, Copy, PartialEq, Eq, Structural)]
pub struct Scroll {
    /// Whether the children may scroll horizontally.
    pub horizontal: bool,
    /// Whether the children may scroll vertically.
    pub vertical: bool,
}

impl Scroll {
    /// A scroll container with both axes locked.
    pub fn new() -> (r: Self)
        ensures
            r == (Scroll { horizontal: false, vertical: false }),
    {
        Self { horizontal: false, vertical: false }
    }

    /// Enables or disables horizontal scrolling.
    pub fn horizontal(&mut self, horizontal: bool) -> (r: &mut Self)
        ensures
            *r == (Scroll { horizontal, ..*old(self) }),
            *final(self) == *final(r),
    {
        self.horizontal = horizontal;
        self
    }

    /// Enables or disables vertical scrolling.
    pub fn vertical(&mut self, vertical: bool) -> (r: &mut Self)
        ensures
            *r == (Scroll { vertical, ..*old(self) }),
            *final(self) == *final(r),
    {
        self.vertical = vertical;
        self
    }

    /// Copies the accumulated record into the current pass's arena and
    /// returns the handle for attaching it, stamped with the
    /// scroll-container discriminant and this pass's generation.
    pub fn end(&self, clay: &mut Clay) -> (r: TypedConfig)
        requires
            old(clay)@.building,
            old(clay)@.stored < usize::MAX,
        ensures
            r.config_type == ElementConfigType::ScrollContainer,
            r.config_slot as int == old(clay)@.stored,
            r.generation as int == old(clay)@.generation,
            r.id == (Id { id: 0u32 }),
            final(clay)@ == (ClayView {
                log: old(clay)@.log.push(CallView::StoreScroll { config: *self }),
                stored: old(clay)@.stored + 1,
                ..old(clay)@
            }),
            r.valid_for(final(clay)@),
    {
        let slot = clay.store(EngineCall::StoreScroll { config: *self });
        TypedConfig {
            config_slot: slot,
            id: Id::default(),
            config_type: ElementConfigType::ScrollContainer,
            generation: clay.generation(),
        }
    }
}

} // verus!

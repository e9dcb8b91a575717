//! The rectangle element: a filled box with optional corner rounding.

use vstd::prelude::*;

use crate::color::Color;
use crate::elements::CornerRadius;
use crate::elements::ElementConfigType;
use crate::id::Id;
use crate::CallView;
use crate::Clay;
use crate::ClayView;
use crate::EngineCall;
use crate::TypedConfig;

verus! {

/// Accumulates a rectangle's configuration; finalizing with [`Rectangle::end`]
/// copies the accumulated record into the engine's arena.
#[derive(Debug, Clone, Copy, PartialEq, Eq, Structural)]
pub struct Rectangle {
    pub color: Color,
    pub corner_radius: CornerRadius,
}

impl Rectangle {
    /// A rectangle with no fill and square corners.
    pub fn new() -> (r: Self)
        ensures
            r == (Rectangle {
                color: Color { r: 0u8, g: 0u8, b: 0u8, a: 0u8 },
                corner_radius: CornerRadius::All(0u16),
            }),
    {
        Self { color: Color { r: 0, g: 0, b: 0, a: 0 }, corner_radius: CornerRadius::All(0) }
    }

    /// Sets the fill color.
    pub fn color(&mut self, color: Color) -> (r: &mut Self)
        ensures
            *r == (Rectangle { color, ..*old(self) }),
            *final(self) == *final(r),
    {
        self.color = color;
        self
    }

    /// Sets the corner rounding.
    pub fn corner_radius(&mut self, corner_radius: CornerRadius) -> (r: &mut Self)
        ensures
            *r == (Rectangle { corner_radius, ..*old(self) }),
            *final(self) == *final(r),
    {
        self.corner_radius = corner_radius;
        self
    }

    /// Copies the accumulated record into the current pass's arena and
    /// returns the handle for attaching it, stamped with the rectangle
    /// discriminant and this pass's generation.
    pub fn end(&self, clay: &mut Clay) -> (r: TypedConfig)
        requires
            old(clay)@.building,
            old(clay)@.stored < usize::MAX,
        ensures
            r.config_type == ElementConfigType::Rectangle,
            r.config_slot as int == old(clay)@.stored,
            r.generation as int == old(clay)@.generation,
            r.id == (Id { id: 0u32 }),
            final(clay)@ == (ClayView {
                log: old(clay)@.log.push(CallView::StoreRectangle { config: *self }),
                stored: old(clay)@.stored + 1,
                ..old(clay)@
            }),
            r.valid_for(final(clay)@),
    {
        let slot = clay.store(EngineCall::StoreRectangle { config: *self });
        TypedConfig {
            config_slot: slot,
            id: Id::default(),
            config_type: ElementConfigType::Rectangle,
            generation: clay.generation(),
        }
    }
}

} // verus!

//! The border container: draws an edge around the element it configures.

use vstd::prelude::*;

use crate::color::Color;
use crate::elements::CornerRadius;
use crate::elements::ElementConfigType;
use crate::id::Id;
use crate::CallView;
use crate::Clay;
use crate::ClayView;
use crate::EngineCall;
use crate::TypedConfig;

verus! {

/// One edge of a border: its thickness in pixels and its color. A width of
/// zero means the edge is not drawn.
#[derive(Debug, Clone, Copy, PartialEq, Eq, Structural)]
pub struct BorderSide {
    pub width: u32,
    pub color: Color,
}

/// The edge that is not drawn.
pub open spec fn no_side() -> BorderSide {
    BorderSide { width: 0u32, color: Color { r: 0u8, g: 0u8, b: 0u8, a: 0u8 } }
}

/// Accumulates a border configuration; finalizing with
/// [`BorderContainer::end`] copies the accumulated record into the
/// engine's arena.
#[derive(Debug, Clone, Copy, PartialEq, Eq, Structural)]
pub struct BorderContainer {
    pub left: BorderSide,
    pub right: BorderSide,
    pub top: BorderSide,
    pub bottom: BorderSide,
    /// Drawn between adjacent children of the element.
    pub between_children: BorderSide,
    pub corner_radius: CornerRadius,
}

impl BorderContainer {
    /// A border drawing no edge, with square corners.
    pub fn new() -> (r: Self)
        ensures
            r == (BorderContainer {
                left: no_side(),
                right: no_side(),
                top: no_side(),
                bottom: no_side(),
                between_children: no_side(),
                corner_radius: CornerRadius::All(0u16),
            }),
    {
        let side = BorderSide { width: 0, color: Color { r: 0, g: 0, b: 0, a: 0 } };
        Self {
            left: side,
            right: side,
            top: side,
            bottom: side,
            between_children: side,
            corner_radius: CornerRadius::All(0),
        }
    }

    /// Draws all four edges with the same thickness and color.
    pub fn all_directions(&mut self, width: u32, color: Color) -> (r: &mut Self)
        ensures
            *r == (BorderContainer {
                left: BorderSide { width, color },
                right: BorderSide { width, color },
                top: BorderSide { width, color },
                bottom: BorderSide { width, color },
                ..*old(self)
            }),
            *final(self) == *final(r),
    {
        let side = BorderSide { width, color };
        self.left = side;
        self.right = side;
        self.top = side;
        self.bottom = side;
        self
    }

    /// Sets the edge drawn between adjacent children.
    pub fn between_children(&mut self, width: u32, color: Color) -> (r: &mut Self)
        ensures
            *r == (BorderContainer { between_children: BorderSide { width, color }, ..*old(self) }),
            *final(self) == *final(r),
    {
        self.between_children = BorderSide { width, color };
        self
    }

    /// Sets the corner rounding of the border.
    pub fn corner_radius(&mut self, corner_radius: CornerRadius) -> (r: &mut Self)
        ensures
            *r == (BorderContainer { corner_radius, ..*old(self) }),
            *final(self) == *final(r),
    {
        self.corner_radius = corner_radius;
        self
    }

    /// Copies the accumulated record into the current pass's arena and
    /// returns the handle for attaching it, stamped with the border
    /// discriminant and this pass's generation.
    pub fn end(&self, clay: &mut Clay) -> (r: TypedConfig)
        requires
            old(clay)@.building,
            old(clay)@.stored < usize::MAX,
        ensures
            r.config_type == ElementConfigType::BorderContainer,
            r.config_slot as int == old(clay)@.stored,
            r.generation as int == old(clay)@.generation,
            r.id == (Id { id: 0u32 }),
            final(clay)@ == (ClayView {
                log: old(clay)@.log.push(CallView::StoreBorder { config: *self }),
                stored: old(clay)@.stored + 1,
                ..old(clay)@
            }),
            r.valid_for(final(clay)@),
    {
        let slot = clay.store(EngineCall::StoreBorder { config: *self });
        TypedConfig {
            config_slot: slot,
            id: Id::default(),
            config_type: ElementConfigType::BorderContainer,
            generation: clay.generation(),
        }
    }
}

} // verus!

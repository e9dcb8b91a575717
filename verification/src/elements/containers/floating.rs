//! The floating container: an element taken out of the normal flow and
//! anchored to another element instead.

use vstd::prelude::*;

use crate::elements::ElementConfigType;
use crate::id::Id;
use crate::CallView;
use crate::Clay;
use crate::ClayView;
use crate::EngineCall;
use crate::TypedConfig;

verus! {

/// Where a floating element fastens onto a box: one of the nine anchor
/// points the engine distinguishes.
#[derive(Debug, Clone, Copy, PartialEq, Eq, Structural)]
pub enum FloatingAttachPointType {
    LeftTop,
    LeftCenter,
    LeftBottom,
    CenterTop,
    CenterCenter,
    CenterBottom,
    RightTop,
    RightCenter,
    RightBottom,
}

/// The tag value the engine gives each anchor point.
pub open spec fn attach_point_code(t: FloatingAttachPointType) -> u8 {
    match t {
        FloatingAttachPointType::LeftTop => 0u8,
        FloatingAttachPointType::LeftCenter => 1u8,
        FloatingAttachPointType::LeftBottom => 2u8,
        FloatingAttachPointType::CenterTop => 3u8,
        FloatingAttachPointType::CenterCenter => 4u8,
        FloatingAttachPointType::CenterBottom => 5u8,
        FloatingAttachPointType::RightTop => 6u8,
        FloatingAttachPointType::RightCenter => 7u8,
        FloatingAttachPointType::RightBottom => 8u8,
    }
}

impl FloatingAttachPointType {
    /// The tag value handed to the engine for this anchor point.
    pub fn code(&self) -> (r: u8)
        ensures
            r == attach_point_code(*self),
    {
        match self {
            FloatingAttachPointType::LeftTop => 0,
            FloatingAttachPointType::LeftCenter => 1,
            FloatingAttachPointType::LeftBottom => 2,
            FloatingAttachPointType::CenterTop => 3,
            FloatingAttachPointType::CenterCenter => 4,
            FloatingAttachPointType::CenterBottom => 5,
            FloatingAttachPointType::RightTop => 6,
            FloatingAttachPointType::RightCenter => 7,
            FloatingAttachPointType::RightBottom => 8,
        }
    }
}

/// The pair of anchor points a floating element is fastened by: its own
/// point, laid onto a point of the parent.
#[derive(Debug, Clone, Copy, PartialEq, Eq, Structural)]
pub struct FloatingAttachPoints {
    pub element: FloatingAttachPointType,
    pub parent: FloatingAttachPointType,
}

/// Accumulates a floating-container configuration; finalizing with
/// [`Floating::end`] copies the accumulated record into the engine's
/// arena.
#[derive(Debug, Clone, Copy, PartialEq, Eq, Structural)]
pub struct Floating {
    /// Horizontal shift from the anchor, in pixels.
    pub offset_x: i32,
    /// Vertical shift from the anchor, in pixels.
    pub offset_y: i32,
    /// Extra width added around the element's own size, in pixels.
    pub expand_width: u32,
    /// Extra height added around the element's own size, in pixels.
    pub expand_height: u32,
    /// Stacking order among floating elements.
    pub z_index: u16,
    /// The element floated over; 0 means the parent in the tree.
    pub parent_id: u32,
    /// How the element fastens onto the parent.
    pub attachment: FloatingAttachPoints,
}

impl Floating {
    /// A floating container anchored top-left to its tree parent, with no
    /// offset and no expansion.
    pub fn new() -> (r: Self)
        ensures
            r == (Floating {
                offset_x: 0i32,
                offset_y: 0i32,
                expand_width: 0u32,
                expand_height: 0u32,
                z_index: 0u16,
                parent_id: 0u32,
                attachment: FloatingAttachPoints {
                    element: FloatingAttachPointType::LeftTop,
                    parent: FloatingAttachPointType::LeftTop,
                },
            }),
    {
        Self {
            offset_x: 0,
            offset_y: 0,
            expand_width: 0,
            expand_height: 0,
            z_index: 0,
            parent_id: 0,
            attachment: FloatingAttachPoints {
                element: FloatingAttachPointType::LeftTop,
                parent: FloatingAttachPointType::LeftTop,
            },
        }
    }

    /// Sets the shift from the anchor point.
    pub fn offset(&mut self, offset_x: i32, offset_y: i32) -> (r: &mut Self)
        ensures
            *r == (Floating { offset_x, offset_y, ..*old(self) }),
            *final(self) == *final(r),
    {
        self.offset_x = offset_x;
        self.offset_y = offset_y;
        self
    }

    /// Sets the extra size added around the element.
    pub fn expand(&mut self, expand_width: u32, expand_height: u32) -> (r: &mut Self)
        ensures
            *r == (Floating { expand_width, expand_height, ..*old(self) }),
            *final(self) == *final(r),
    {
        self.expand_width = expand_width;
        self.expand_height = expand_height;
        self
    }

    /// Sets the stacking order.
    pub fn z_index(&mut self, z_index: u16) -> (r: &mut Self)
        ensures
            *r == (Floating { z_index, ..*old(self) }),
            *final(self) == *final(r),
    {
        self.z_index = z_index;
        self
    }

    /// Sets which element is floated over, by its identifier.
    pub fn parent_id(&mut self, parent_id: u32) -> (r: &mut Self)
        ensures
            *r == (Floating { parent_id, ..*old(self) }),
            *final(self) == *final(r),
    {
        self.parent_id = parent_id;
        self
    }

    /// Sets the anchor points on the element and on the parent.
    pub fn attachment(
        &mut self,
        element: FloatingAttachPointType,
        parent: FloatingAttachPointType,
    ) -> (r: &mut Self)
        ensures
            *r == (Floating {
                attachment: FloatingAttachPoints { element, parent },
                ..*old(self)
            }),
            *final(self) == *final(r),
    {
        self.attachment = FloatingAttachPoints { element, parent };
        self
    }

    /// Copies the accumulated record into the current pass's arena and
    /// returns the handle for attaching it, stamped with the
    /// floating-container discriminant and this pass's generation.
    pub fn end(&self, clay: &mut Clay) -> (r: TypedConfig)
        requires
            old(clay)@.building,
            old(clay)@.stored < usize::MAX,
        ensures
            r.config_type == ElementConfigType::FloatingContainer,
            r.config_slot as int == old(clay)@.stored,
            r.generation as int == old(clay)@.generation,
            r.id == (Id { id: 0u32 }),
            final(clay)@ == (ClayView {
                log: old(clay)@.log.push(CallView::StoreFloating { config: *self }),
                stored: old(clay)@.stored + 1,
                ..old(clay)@
            }),
            r.valid_for(final(clay)@),
    {
        let slot = clay.store(EngineCall::StoreFloating { config: *self });
        TypedConfig {
            config_slot: slot,
            id: Id::default(),
            config_type: ElementConfigType::FloatingContainer,
            generation: clay.generation(),
        }
    }
}

} // verus!

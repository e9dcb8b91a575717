//! Layout configuration: sizing, direction, alignment and padding for one
//! element's box.

use vstd::prelude::*;

pub mod padding;

use crate::elements::ElementConfigType;
use crate::id::Id;
use crate::layout::padding::Padding;
use crate::CallView;
use crate::Clay;
use crate::ClayView;
use crate::EngineCall;
use crate::TypedConfig;

verus! {

/// How one axis of an element is sized. Lengths are in pixels; a
/// percentage is of the parent's length on the same axis, from 0 to 100.
#[derive(Debug, Clone, Copy, PartialEq, Eq, Structural)]
pub enum Sizing {
    /// Shrink to the children, within the given bounds.
    Fit { min: u16, max: u16 },
    /// Take the space the parent has left, within the given bounds.
    Grow { min: u16, max: u16 },
    /// Exactly this many pixels.
    Fixed(u16),
    /// This share of the parent's length, in percent.
    Percent(u8),
}

/// The axis along which an element lays its children out.
#[derive(Debug, Clone, Copy, PartialEq, Eq, Structural)]
pub enum LayoutDirection {
    LeftToRight,
    TopToBottom,
}

/// Horizontal placement of children within their parent.
#[derive(Debug, Clone, Copy, PartialEq, Eq, Structural)]
pub enum LayoutAlignmentX {
    Left,
    Right,
    Center,
}

/// Vertical placement of children within their parent.
#[derive(Debug, Clone, Copy, PartialEq, Eq, Structural)]
pub enum LayoutAlignmentY {
    Top,
    Bottom,
    Center,
}

/// Where children sit within their parent, on both axes.
#[derive(Debug, Clone, Copy, PartialEq, Eq, Structural)]
pub struct Alignment {
    pub x: LayoutAlignmentX,
    pub y: LayoutAlignmentY,
}

/// Accumulates an element's layout configuration; finalizing with
/// [`Layout::end`] copies the accumulated record into the engine's arena.
#[derive(Debug, Clone, Copy, PartialEq, Eq, Structural)]
pub struct Layout {
    pub width: Sizing,
    pub height: Sizing,
    pub padding: Padding,
    /// Pixels between adjacent children.
    pub child_gap: u16,
    pub alignment: Alignment,
    pub direction: LayoutDirection,
}

/// The layout every element starts from: fit both axes, no padding, no
/// gap, children at the top left, laid out left to right.
pub open spec fn default_layout() -> Layout {
    Layout {
        width: Sizing::Fit { min: 0u16, max: 65535u16 },
        height: Sizing::Fit { min: 0u16, max: 65535u16 },
        padding: Padding { left: 0u16, right: 0u16, top: 0u16, bottom: 0u16 },
        child_gap: 0u16,
        alignment: Alignment { x: LayoutAlignmentX::Left, y: LayoutAlignmentY::Top },
        direction: LayoutDirection::LeftToRight,
    }
}

impl Layout {
    /// The default layout: fit both axes, no padding, no gap, children at
    /// the top left, laid out left to right.
    pub fn new() -> (r: Self)
        ensures
            r == default_layout(),
    {
        Self {
            width: Sizing::Fit { min: 0, max: 65535 },
            height: Sizing::Fit { min: 0, max: 65535 },
            padding: Padding::new(),
            child_gap: 0,
            alignment: Alignment { x: LayoutAlignmentX::Left, y: LayoutAlignmentY::Top },
            direction: LayoutDirection::LeftToRight,
        }
    }

    /// Sets how the element is sized horizontally.
    pub fn sizing_width(&mut self, width: Sizing) -> (r: &mut Self)
        ensures
            *r == (Layout { width, ..*old(self) }),
            *final(self) == *final(r),
    {
        self.width = width;
        self
    }

    /// Sets how the element is sized vertically.
    pub fn sizing_height(&mut self, height: Sizing) -> (r: &mut Self)
        ensures
            *r == (Layout { height, ..*old(self) }),
            *final(self) == *final(r),
    {
        self.height = height;
        self
    }

    /// Sets the padding around the element's children.
    pub fn padding(&mut self, padding: Padding) -> (r: &mut Self)
        ensures
            *r == (Layout { padding, ..*old(self) }),
            *final(self) == *final(r),
    {
        self.padding = padding;
        self
    }

    /// Sets the pixels between adjacent children.
    pub fn child_gap(&mut self, child_gap: u16) -> (r: &mut Self)
        ensures
            *r == (Layout { child_gap, ..*old(self) }),
            *final(self) == *final(r),
    {
        self.child_gap = child_gap;
        self
    }

    /// Sets where children sit within the element.
    pub fn alignment(&mut self, alignment: Alignment) -> (r: &mut Self)
        ensures
            *r == (Layout { alignment, ..*old(self) }),
            *final(self) == *final(r),
    {
        self.alignment = alignment;
        self
    }

    /// Sets the axis along which children are laid out.
    pub fn direction(&mut self, direction: LayoutDirection) -> (r: &mut Self)
        ensures
            *r == (Layout { direction, ..*old(self) }),
            *final(self) == *final(r),
    {
        self.direction = direction;
        self
    }

    /// Copies the accumulated record into the current pass's arena and
    /// returns the handle for attaching it, stamped with the layout
    /// discriminant and this pass's generation.
    pub fn end(&self, clay: &mut Clay) -> (r: TypedConfig)
        requires
            old(clay)@.building,
            old(clay)@.stored < usize::MAX,
        ensures
            r.config_type == ElementConfigType::Layout,
            r.config_slot as int == old(clay)@.stored,
            r.generation as int == old(clay)@.generation,
            r.id == (Id { id: 0u32 }),
            final(clay)@ == (ClayView {
                log: old(clay)@.log.push(CallView::StoreLayout { config: *self }),
                stored: old(clay)@.stored + 1,
                ..old(clay)@
            }),
            r.valid_for(final(clay)@),
    {
        let slot = clay.store(EngineCall::StoreLayout { config: *self });
        TypedConfig {
            config_slot: slot,
            id: Id::default(),
            config_type: ElementConfigType::Layout,
            generation: clay.generation(),
        }
    }
}

} // verus!

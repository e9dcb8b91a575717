//! Element kinds and their per-kind configuration builders.

use vstd::prelude::*;

pub mod containers;
pub mod custom;
pub mod image;
pub mod rectangle;
pub mod text;

verus! {

/// The discriminant stamped on a typed configuration handle, telling the
/// tree-construction code which attach entry point of the engine the handle
/// must be routed to. The engine gives each element kind a distinct tag
/// value; the two wrapper-side kinds (identifier and layout attachment) sit
/// above the engine's range because each has a dedicated entry point of its
/// own rather than the generic element-config one.
#[derive(Debug, Clone, Copy, PartialEq, Eq, Structural)]
pub enum ElementConfigType {
    Rectangle,
    BorderContainer,
    FloatingContainer,
    ScrollContainer,
    Image,
    Text,
    Custom,
    Id,
    Layout,
}

/// The tag value the engine gives each configuration kind. The engine's own
/// kinds are one-hot bit flags; the two wrapper-side kinds follow them.
pub open spec fn config_type_code(t: ElementConfigType) -> u8 {
    match t {
        ElementConfigType::Rectangle => 1u8,
        ElementConfigType::BorderContainer => 2u8,
        ElementConfigType::FloatingContainer => 4u8,
        ElementConfigType::ScrollContainer => 8u8,
        ElementConfigType::Image => 16u8,
        ElementConfigType::Text => 32u8,
        ElementConfigType::Custom => 64u8,
        ElementConfigType::Id => 65u8,
        ElementConfigType::Layout => 66u8,
    }
}

/// The configuration kind a tag value stands for, if it stands for one.
pub open spec fn config_type_of_code(code: u8) -> Option<ElementConfigType> {
    match code {
        1u8 => Some(ElementConfigType::Rectangle),
        2u8 => Some(ElementConfigType::BorderContainer),
        4u8 => Some(ElementConfigType::FloatingContainer),
        8u8 => Some(ElementConfigType::ScrollContainer),
        16u8 => Some(ElementConfigType::Image),
        32u8 => Some(ElementConfigType::Text),
        64u8 => Some(ElementConfigType::Custom),
        65u8 => Some(ElementConfigType::Id),
        66u8 => Some(ElementConfigType::Layout),
        _ => None,
    }
}

impl ElementConfigType {
    /// The tag value handed to the engine for this kind.
    pub fn code(&self) -> (r: u8)
        ensures
            r == config_type_code(*self),
    {
        match self {
            ElementConfigType::Rectangle => 1,
            ElementConfigType::BorderContainer => 2,
            ElementConfigType::FloatingContainer => 4,
            ElementConfigType::ScrollContainer => 8,
            ElementConfigType::Image => 16,
            ElementConfigType::Text => 32,
            ElementConfigType::Custom => 64,
            ElementConfigType::Id => 65,
            ElementConfigType::Layout => 66,
        }
    }

    /// Reads a kind back from its tag value; `None` on a value the engine
    /// never emits.
    pub fn from_code(code: u8) -> (r: Option<Self>)
        ensures
            r == config_type_of_code(code),
    {
        match code {
            1 => Some(ElementConfigType::Rectangle),
            2 => Some(ElementConfigType::BorderContainer),
            4 => Some(ElementConfigType::FloatingContainer),
            8 => Some(ElementConfigType::ScrollContainer),
            16 => Some(ElementConfigType::Image),
            32 => Some(ElementConfigType::Text),
            64 => Some(ElementConfigType::Custom),
            65 => Some(ElementConfigType::Id),
            66 => Some(ElementConfigType::Layout),
            _ => None,
        }
    }
}

/// Every configuration kind survives the trip through its engine tag value:
/// the tag is read back as exactly the kind that produced it.
pub proof fn lemma_config_type_code_round_trip(t: ElementConfigType)
    ensures
        config_type_of_code(config_type_code(t)) == Some(t),
{
}

/// Corner rounding for rectangles and borders, in pixels.
#[derive(Debug, Clone, Copy, PartialEq, Eq, Structural)]
pub enum CornerRadius {
    /// The same radius on all four corners.
    All(u16),
    /// One radius per corner.
    Individual { top_left: u16, top_right: u16, bottom_left: u16, bottom_right: u16 },
}

} // verus!

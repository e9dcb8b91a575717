//! The engine's output: render commands, and the pass-scoped view of them.

use vstd::prelude::*;

verus! {

/// The kind tag of one render command in the engine's output array. The
/// engine stores it as a small integer beside the command's bounding box
/// and its kind-specific configuration.
#[derive(Debug, Clone, Copy, PartialEq, Eq, Structural)]
pub enum RenderCommandType {
    /// Draw nothing; the engine emits it for culled entries.
    NoCommand,
    /// Fill a rectangle.
    Rectangle,
    /// Draw a border.
    Border,
    /// Draw a run of text.
    Text,
    /// Draw an image.
    Image,
    /// Start clipping to a scroll container's box.
    ScissorStart,
    /// Stop clipping.
    ScissorEnd,
    /// Hand the caller's custom element back for the caller to draw.
    Custom,
}

/// The tag value the engine writes for each render command kind.
pub open spec fn render_command_code(t: RenderCommandType) -> u8 {
    match t {
        RenderCommandType::NoCommand => 0u8,
        RenderCommandType::Rectangle => 1u8,
        RenderCommandType::Border => 2u8,
        RenderCommandType::Text => 3u8,
        RenderCommandType::Image => 4u8,
        RenderCommandType::ScissorStart => 5u8,
        RenderCommandType::ScissorEnd => 6u8,
        RenderCommandType::Custom => 7u8,
    }
}

/// The render command kind a tag value stands for, if it stands for one.
pub open spec fn render_command_of_code(code: u8) -> Option<RenderCommandType> {
    match code {
        0u8 => Some(RenderCommandType::NoCommand),
        1u8 => Some(RenderCommandType::Rectangle),
        2u8 => Some(RenderCommandType::Border),
        3u8 => Some(RenderCommandType::Text),
        4u8 => Some(RenderCommandType::Image),
        5u8 => Some(RenderCommandType::ScissorStart),
        6u8 => Some(RenderCommandType::ScissorEnd),
        7u8 => Some(RenderCommandType::Custom),
        _ => None,
    }
}

impl RenderCommandType {
    /// The tag value the engine writes for this kind.
    pub fn code(&self) -> (r: u8)
        ensures
            r == render_command_code(*self),
    {
        match self {
            RenderCommandType::NoCommand => 0,
            RenderCommandType::Rectangle => 1,
            RenderCommandType::Border => 2,
            RenderCommandType::Text => 3,
            RenderCommandType::Image => 4,
            RenderCommandType::ScissorStart => 5,
            RenderCommandType::ScissorEnd => 6,
            RenderCommandType::Custom => 7,
        }
    }

    /// Reads a kind back from its tag value; `None` on a value the engine
    /// never writes. Reading the output array goes through this, so an
    /// unknown tag surfaces as a decoding failure instead of a misread
    /// union.
    pub fn from_code(code: u8) -> (r: Option<Self>)
        ensures
            r == render_command_of_code(code),
    {
        match code {
            0 => Some(RenderCommandType::NoCommand),
            1 => Some(RenderCommandType::Rectangle),
            2 => Some(RenderCommandType::Border),
            3 => Some(RenderCommandType::Text),
            4 => Some(RenderCommandType::Image),
            5 => Some(RenderCommandType::ScissorStart),
            6 => Some(RenderCommandType::ScissorEnd),
            7 => Some(RenderCommandType::Custom),
            _ => None,
        }
    }
}

/// Every render command kind survives the trip through its tag value: the
/// tag is read back as exactly the kind the engine wrote.
pub proof fn lemma_render_command_code_round_trip(t: RenderCommandType)
    ensures
        render_command_of_code(render_command_code(t)) == Some(t),
{
}

/// Stands for the engine's output array of one layout pass: a read-only
/// view over engine-owned memory, not a copy. The engine reuses that
/// memory on the next pass, so the view carries the generation of the pass
/// that produced it and is current exactly while that pass is the
/// wrapper's latest.
#[derive(Debug)]
pub struct RenderCommandArray {
    generation: u64,
}

impl View for RenderCommandArray {
    type V = int;

    closed spec fn view(&self) -> int {
        self.generation as int
    }
}

impl RenderCommandArray {
    /// Tags a fresh view with the pass that produced it. Only ending a
    /// pass creates one.
    pub(crate) fn new_for_pass(generation: u64) -> (r: Self)
        ensures
            r@ == generation as int,
    {
        Self { generation }
    }

    /// The generation of the pass this view belongs to.
    pub fn generation(&self) -> (r: u64)
        ensures
            r as int == self@,
    {
        self.generation
    }
}

} // verus!

//! The text element: a leaf node carrying a string to be measured, wrapped
//! and placed by the engine.

use vstd::prelude::*;

use crate::color::Color;
use crate::CallView;
use crate::Clay;
use crate::ClayView;
use crate::EngineCall;

verus! {

/// How the engine may break the text onto several lines.
#[derive(Debug, Clone, Copy, PartialEq, Eq, Structural)]
pub enum TextWrapMode {
    /// Break between words where the line overflows.
    Words,
    /// Break only at newline characters in the text.
    Newlines,
    /// Never break the line.
    NoWrap,
}

/// Horizontal alignment of the text within its element.
#[derive(Debug, Clone, Copy, PartialEq, Eq, Structural)]
pub enum TextAlignment {
    Left,
    Center,
    Right,
}

/// Accumulates a text configuration; finalizing with [`Text::end`] copies
/// the accumulated record into the engine's arena.
#[derive(Debug, Clone, Copy, PartialEq, Eq, Structural)]
pub struct Text {
    pub color: Color,
    pub font_id: u16,
    pub font_size: u16,
    pub letter_spacing: u16,
    pub line_height: u16,
    pub wrap_mode: TextWrapMode,
    pub alignment: TextAlignment,
}

/// The handle returned by finalizing a text configuration: the arena slot
/// the record went to, tagged with the pass that owns it. Unlike the other
/// kinds it is not attached to an open element; it is handed whole to the
/// atomic text call together with the string.
#[derive(Debug, Clone, Copy, PartialEq, Eq, Structural)]
pub struct TextElementConfig {
    /// Arena slot of the stored text configuration.
    pub slot: usize,
    /// The layout pass the handle belongs to.
    pub generation: u64,
}

impl Text {
    /// A text configuration with transparent color, font 0 and the
    /// engine's defaults: word wrapping, left alignment.
    pub fn new() -> (r: Self)
        ensures
            r == (Text {
                color: Color { r: 0u8, g: 0u8, b: 0u8, a: 0u8 },
                font_id: 0u16,
                font_size: 0u16,
                letter_spacing: 0u16,
                line_height: 0u16,
                wrap_mode: TextWrapMode::Words,
                alignment: TextAlignment::Left,
            }),
    {
        Self {
            color: Color { r: 0, g: 0, b: 0, a: 0 },
            font_id: 0,
            font_size: 0,
            letter_spacing: 0,
            line_height: 0,
            wrap_mode: TextWrapMode::Words,
            alignment: TextAlignment::Left,
        }
    }

    /// Sets the text color.
    pub fn color(&mut self, color: Color) -> (r: &mut Self)
        ensures
            *r == (Text { color, ..*old(self) }),
            *final(self) == *final(r),
    {
        self.color = color;
        self
    }

    /// Sets which font the text is measured and drawn with.
    pub fn font_id(&mut self, font_id: u16) -> (r: &mut Self)
        ensures
            *r == (Text { font_id, ..*old(self) }),
            *final(self) == *final(r),
    {
        self.font_id = font_id;
        self
    }

    /// Sets the font size, in pixels.
    pub fn font_size(&mut self, font_size: u16) -> (r: &mut Self)
        ensures
            *r == (Text { font_size, ..*old(self) }),
            *final(self) == *final(r),
    {
        self.font_size = font_size;
        self
    }

    /// Sets the extra spacing between letters, in pixels.
    pub fn letter_spacing(&mut self, letter_spacing: u16) -> (r: &mut Self)
        ensures
            *r == (Text { letter_spacing, ..*old(self) }),
            *final(self) == *final(r),
    {
        self.letter_spacing = letter_spacing;
        self
    }

    /// Sets the line height, in pixels; 0 leaves it to the font.
    pub fn line_height(&mut self, line_height: u16) -> (r: &mut Self)
        ensures
            *r == (Text { line_height, ..*old(self) }),
            *final(self) == *final(r),
    {
        self.line_height = line_height;
        self
    }

    /// Sets how the engine may break the text onto several lines.
    pub fn wrap_mode(&mut self, wrap_mode: TextWrapMode) -> (r: &mut Self)
        ensures
            *r == (Text { wrap_mode, ..*old(self) }),
            *final(self) == *final(r),
    {
        self.wrap_mode = wrap_mode;
        self
    }

    /// Sets the horizontal alignment of the text within its element.
    pub fn alignment(&mut self, alignment: TextAlignment) -> (r: &mut Self)
        ensures
            *r == (Text { alignment, ..*old(self) }),
            *final(self) == *final(r),
    {
        self.alignment = alignment;
        self
    }

    /// Copies the accumulated record into the current pass's arena and
    /// returns the handle that the atomic text call takes.
    pub fn end(&self, clay: &mut Clay) -> (r: TextElementConfig)
        requires
            old(clay)@.building,
            old(clay)@.stored < usize::MAX,
        ensures
            r.slot as int == old(clay)@.stored,
            r.generation as int == old(clay)@.generation,
            final(clay)@ == (ClayView {
                log: old(clay)@.log.push(CallView::StoreText { config: *self }),
                stored: old(clay)@.stored + 1,
                ..old(clay)@
            }),
    {
        let slot = clay.store(EngineCall::StoreText { config: *self });
        TextElementConfig { slot, generation: clay.generation() }
    }
}

} // verus!

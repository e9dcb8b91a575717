//! Four-sided padding, in pixels, around an element's children.
//!
//! The engine's own padding record stores the same four 16-bit fields, so
//! the two forms convert to one another without loss in either direction.

use vstd::prelude::*;

verus! {

/// Padding between an element's edges and its children, one value per side.
#[derive(Debug, Clone, Copy, PartialEq, Eq, Structural)]
pub struct Padding {
    pub left: u16,
    pub right: u16,
    pub top: u16,
    pub bottom: u16,
}

/// The engine's plain-data padding record: the same four sides in the
/// engine's own field order.
#[derive(Debug, Clone, Copy, PartialEq, Eq, Structural)]
pub struct PaddingRecord {
    pub left: u16,
    pub right: u16,
    pub top: u16,
    pub bottom: u16,
}

/// The engine-side record that a padding value marshals to.
pub open spec fn record_of_padding(p: Padding) -> PaddingRecord {
    PaddingRecord { left: p.left, right: p.right, top: p.top, bottom: p.bottom }
}

/// The padding value read back from an engine-side record.
pub open spec fn padding_of_record(r: PaddingRecord) -> Padding {
    Padding { left: r.left, right: r.right, top: r.top, bottom: r.bottom }
}

impl Padding {
    /// Padding with each side given explicitly.
    pub fn new_rect(left: u16, right: u16, top: u16, bottom: u16) -> (r: Self)
        ensures
            r == (Padding { left, right, top, bottom }),
    {
        Self { left, right, top, bottom }
    }

    /// The same padding on all four sides.
    pub fn all(value: u16) -> (r: Self)
        ensures
            r == (Padding { left: value, right: value, top: value, bottom: value }),
    {
        Self::new_rect(value, value, value, value)
    }

    /// Padding on the left and right sides only.
    pub fn horizontal(value: u16) -> (r: Self)
        ensures
            r == (Padding { left: value, right: value, top: 0u16, bottom: 0u16 }),
    {
        Self::new_rect(value, value, 0, 0)
    }

    /// Padding on the top and bottom sides only.
    pub fn vertical(value: u16) -> (r: Self)
        ensures
            r == (Padding { left: 0u16, right: 0u16, top: value, bottom: value }),
    {
        Self::new_rect(0, 0, value, value)
    }

    /// No padding on any side.
    pub fn new() -> (r: Self)
        ensures
            r == (Padding { left: 0u16, right: 0u16, top: 0u16, bottom: 0u16 }),
    {
        Self::new_rect(0, 0, 0, 0)
    }

    /// Sets the left side, leaving the others as they were.
    pub fn left(&mut self, value: u16) -> (r: &mut Self)
        ensures
            *r == (Padding { left: value, ..*old(self) }),
            *final(self) == *final(r),
    {
        self.left = value;
        self
    }

    /// Sets the right side, leaving the others as they were.
    pub fn right(&mut self, value: u16) -> (r: &mut Self)
        ensures
            *r == (Padding { right: value, ..*old(self) }),
            *final(self) == *final(r),
    {
        self.right = value;
        self
    }

    /// Sets the top side, leaving the others as they were.
    pub fn top(&mut self, value: u16) -> (r: &mut Self)
        ensures
            *r == (Padding { top: value, ..*old(self) }),
            *final(self) == *final(r),
    {
        self.top = value;
        self
    }

    /// Sets the bottom side, leaving the others as they were.
    pub fn bottom(&mut self, value: u16) -> (r: &mut Self)
        ensures
            *r == (Padding { bottom: value, ..*old(self) }),
            *final(self) == *final(r),
    {
        self.bottom = value;
        self
    }

    /// Finishes a chain of side setters, yielding the accumulated value.
    pub fn end(&mut self) -> (r: Self)
        ensures
            r == *old(self),
            *final(self) == *old(self),
    {
        *self
    }

    /// Marshals this padding into the engine's record form.
    pub fn to_record(&self) -> (r: PaddingRecord)
        ensures
            r == record_of_padding(*self),
    {
        PaddingRecord { left: self.left, right: self.right, top: self.top, bottom: self.bottom }
    }

    /// Reads a padding value back out of the engine's record form.
    pub fn from_record(r: PaddingRecord) -> (p: Self)
        ensures
            p == padding_of_record(r),
    {
        Self { left: r.left, right: r.right, top: r.top, bottom: r.bottom }
    }
}

impl From<(u16, u16, u16, u16)> for Padding {
    /// A padding from its four sides as a tuple: left, right, top, bottom.
    fn from(other: (u16, u16, u16, u16)) -> (r: Self) {
        Self::new_rect(other.0, other.1, other.2, other.3)
    }
}

impl vstd::std_specs::convert::FromSpecImpl<(u16, u16, u16, u16)> for Padding {
    open spec fn obeys_from_spec() -> bool {
        true
    }

    open spec fn from_spec(other: (u16, u16, u16, u16)) -> Self {
        Padding { left: other.0, right: other.1, top: other.2, bottom: other.3 }
    }
}

impl From<(u16, u16)> for Padding {
    /// A padding from a pair: the first value on the left and right sides,
    /// the second on the top and bottom.
    fn from(other: (u16, u16)) -> (r: Self) {
        Self::new_rect(other.0, other.0, other.1, other.1)
    }
}

impl vstd::std_specs::convert::FromSpecImpl<(u16, u16)> for Padding {
    open spec fn obeys_from_spec() -> bool {
        true
    }

    open spec fn from_spec(other: (u16, u16)) -> Self {
        Padding { left: other.0, right: other.0, top: other.1, bottom: other.1 }
    }
}

/// Converting a padding value to the engine's record and back returns the
/// value unchanged, whatever its four sides hold.
pub proof fn lemma_padding_round_trip(p: Padding)
    ensures
        padding_of_record(record_of_padding(p)) == p,
{
}

/// Reading a record and marshalling the result back yields the record
/// unchanged: the conversion loses nothing in the other direction either.
pub proof fn lemma_padding_record_round_trip(r: PaddingRecord)
    ensures
        record_of_padding(padding_of_record(r)) == r,
{
}

} // verus!

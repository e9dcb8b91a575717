//! The image element: draws caller-provided image data at the element's
//! computed box.

use vstd::prelude::*;

use crate::elements::ElementConfigType;
use crate::id::Id;
use crate::CallView;
use crate::Clay;
use crate::ClayView;
use crate::DataRef;
use crate::EngineCall;
use crate::TypedConfig;

verus! {

/// Accumulates an image configuration; finalizing with [`Image::end`]
/// copies the accumulated record into the engine's arena. The source
/// dimensions give the engine the image's aspect ratio for fitting.
#[derive(Debug, Clone, Copy, PartialEq, Eq, Structural)]
pub struct Image {
    /// Source image width, in pixels.
    pub source_width: u32,
    /// Source image height, in pixels.
    pub source_height: u32,
    /// The image data the render command will carry, if any.
    pub data: Option<DataRef>,
}

impl Image {
    /// An image of no size and no data.
    pub fn new() -> (r: Self)
        ensures
            r == (Image { source_width: 0u32, source_height: 0u32, data: Option::<DataRef>::None }),
    {
        Self { source_width: 0, source_height: 0, data: None }
    }

    /// Sets the source dimensions.
    pub fn dimensions(&mut self, source_width: u32, source_height: u32) -> (r: &mut Self)
        ensures
            *r == (Image { source_width, source_height, ..*old(self) }),
            *final(self) == *final(r),
    {
        self.source_width = source_width;
        self.source_height = source_height;
        self
    }

    /// Sets the image data. The reference must come from the shell's
    /// per-pass allocation helper, so that what it names outlives the
    /// layout pass.
    pub fn data(&mut self, data: DataRef) -> (r: &mut Self)
        ensures
            *r == (Image { data: Some(data), ..*old(self) }),
            *final(self) == *final(r),
    {
        self.data = Some(data);
        self
    }

    /// Copies the accumulated record into the current pass's arena and
    /// returns the handle for attaching it, stamped with the image
    /// discriminant and this pass's generation.
    pub fn end(&self, clay: &mut Clay) -> (r: TypedConfig)
        requires
            old(clay)@.building,
            old(clay)@.stored < usize::MAX,
        ensures
            r.config_type == ElementConfigType::Image,
            r.config_slot as int == old(clay)@.stored,
            r.generation as int == old(clay)@.generation,
            r.id == (Id { id: 0u32 }),
            final(clay)@ == (ClayView {
                log: old(clay)@.log.push(CallView::StoreImage { config: *self }),
                stored: old(clay)@.stored + 1,
                ..old(clay)@
            }),
            r.valid_for(final(clay)@),
    {
        let slot = clay.store(EngineCall::StoreImage { config: *self });
        TypedConfig {
            config_slot: slot,
            id: Id::default(),
            config_type: ElementConfigType::Image,
            generation: clay.generation(),
        }
    }
}

} // verus!

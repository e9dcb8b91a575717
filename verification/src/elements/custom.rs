//! The custom element: an element whose drawing is left to the caller.
//!
//! The configuration carries one opaque back-reference to caller data. The
//! engine never reads it; it comes back unchanged in the matching render
//! command, where the caller's own drawing code picks it up. The data must
//! live in storage whose lifetime covers the layout pass, which is why it
//! is referred to through a [`DataRef`] into the shell's per-pass table
//! rather than held here.

use vstd::prelude::*;

use crate::elements::ElementConfigType;
use crate::id::Id;
use crate::CallView;
use crate::Clay;
use crate::ClayView;
use crate::DataRef;
use crate::EngineCall;
use crate::TypedConfig;

verus! {

/// Accumulates a custom element's configuration; finalizing with
/// [`Custom::end`] copies the accumulated record into the engine's arena.
#[derive(Debug, Clone, Copy, PartialEq, Eq, Structural)]
pub struct Custom {
    /// The caller data the render command will carry, if any.
    pub data: Option<DataRef>,
}

/// The engine's plain-data custom-element record: nothing but the opaque
/// data reference, handed back unread in the render command.
#[derive(Debug, Clone, Copy, PartialEq, Eq, Structural)]
pub struct CustomElementConfigRecord {
    pub custom_data: Option<DataRef>,
}

/// The engine-side record that a custom configuration marshals to.
pub open spec fn record_of_custom(c: Custom) -> CustomElementConfigRecord {
    CustomElementConfigRecord { custom_data: c.data }
}

/// The custom configuration read back from an engine-side record.
pub open spec fn custom_of_record(r: CustomElementConfigRecord) -> Custom {
    Custom { data: r.custom_data }
}

/// Converting a custom configuration to the engine's record and back
/// returns the value unchanged, whatever data reference it carries.
pub proof fn lemma_custom_round_trip(c: Custom)
    ensures
        custom_of_record(record_of_custom(c)) == c,
{
}

/// Reading a record and marshalling the result back yields the record
/// unchanged: the conversion loses nothing in the other direction either.
pub proof fn lemma_custom_record_round_trip(r: CustomElementConfigRecord)
    ensures
        record_of_custom(custom_of_record(r)) == r,
{
}

impl Custom {
    /// Marshals this configuration into the engine's record form.
    pub fn to_record(&self) -> (r: CustomElementConfigRecord)
        ensures
            r == record_of_custom(*self),
    {
        CustomElementConfigRecord { custom_data: self.data }
    }

    /// Reads a configuration back out of the engine's record form.
    pub fn from_record(r: CustomElementConfigRecord) -> (c: Self)
        ensures
            c == custom_of_record(r),
    {
        Self { data: r.custom_data }
    }

    /// A custom configuration carrying no data.
    pub fn new() -> (r: Self)
        ensures
            r == (Custom { data: Option::<DataRef>::None }),
    {
        Self { data: None }
    }

    /// Sets the data for the custom element. The reference must come from
    /// the shell's per-pass allocation helper, so that what it names
    /// outlives the layout pass.
    pub fn data(&mut self, data: DataRef) -> (r: &mut Self)
        ensures
            *r == (Custom { data: Some(data) }),
            *final(self) == *final(r),
    {
        self.data = Some(data);
        self
    }

    /// Copies the accumulated record into the current pass's arena and
    /// returns the handle for attaching it, stamped with the custom
    /// discriminant, the given identifier and this pass's generation.
    pub fn end(&self, id: Id, clay: &mut Clay) -> (r: TypedConfig)
        requires
            old(clay)@.building,
            old(clay)@.stored < usize::MAX,
        ensures
            r.config_type == ElementConfigType::Custom,
            r.config_slot as int == old(clay)@.stored,
            r.generation as int == old(clay)@.generation,
            r.id == id,
            final(clay)@ == (ClayView {
                log: old(clay)@.log.push(CallView::StoreCustom { config: *self }),
                stored: old(clay)@.stored + 1,
                ..old(clay)@
            }),
            r.valid_for(final(clay)@),
    {
        let slot = clay.store(EngineCall::StoreCustom { config: *self });
        TypedConfig {
            config_slot: slot,
            id,
            config_type: ElementConfigType::Custom,
            generation: clay.generation(),
        }
    }
}

} // verus!

use vstd::prelude::*;

use crate::control::ColorControl;

verus! {

/// The payload of a pointer drag that started on one of the panel's
/// controls: the id of the picker state that owns the panel and the control
/// the drag started on.
#[derive(Clone, Copy, Debug, PartialEq, Eq, Structural)]
pub struct ColorPickerDrag {
    pub entity_id: u64,
    pub control: ColorControl,
}

impl ColorPickerDrag {
    /// A drag that started on `control` of the panel owned by `entity_id`.
    pub fn new(entity_id: u64, control: ColorControl) -> (r: Self)
        ensures
            r.entity_id == entity_id,
            r.control == control,
    {
        ColorPickerDrag { entity_id, control }
    }

    /// Whether a drag move should update `control` of the panel owned by
    /// `entity_id`: only a drag that started on that very control of that
    /// very panel does.
    pub fn targets(&self, entity_id: u64, control: ColorControl) -> (r: bool)
        ensures
            r == (self.entity_id == entity_id && self.control == control),
    {
        self.entity_id == entity_id && self.control == control
    }
}

} // verus!

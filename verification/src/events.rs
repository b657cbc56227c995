use vstd::prelude::*;

use crate::control::ColorControl;
use crate::drag::ColorPickerDrag;
use crate::hsv::Channel;
use crate::keyboard::{
    arrow_key_of, key_adjustment, keyboard_dispatch, lemma_arrow_key_names, lemma_keyboard_mapping,
    Adjustment, Step,
};

verus! {

/// An input event that reaches one of the two controls of a panel.
#[derive(Clone, Debug, PartialEq, Eq)]
pub enum PanelInput {
    /// The left mouse button went down over the control.
    MouseDown { control: ColorControl },
    /// A drag started on the control.
    DragStart { control: ColorControl },
    /// The pointer moved during a drag, over the panel and its control.
    DragMove { drag: ColorPickerDrag, control: ColorControl },
    /// A key went down while the control had focus; `key` names the key.
    KeyDown { control: ColorControl, key: String },
}

/// What the panel does in answer to an input, in this order: move the focus
/// to a control, start a drag, recompute the colour from the pointer
/// position over a control, step a channel from the keyboard, and stop the
/// event from reaching the enclosing elements. The colour is reported to
/// the picker only when one of the two updates actually changes it.
#[derive(Clone, Copy, Debug, PartialEq, Eq, Structural)]
pub struct PanelResponse {
    pub focus: Option<ColorControl>,
    pub start_drag: Option<ColorPickerDrag>,
    pub update_from_position: Option<ColorControl>,
    pub adjustment: Option<Adjustment>,
    pub stop_propagation: bool,
}

/// The answer of the panel owned by `entity_id` to `input`.
///
/// A mouse press focuses the control, moves the colour to the pointer and
/// stops there; starting a drag records where it started and stops there; a
/// drag move updates the control only when the drag started on that control
/// of this panel; a key press steps the colour as the keyboard mapping says,
/// and stops there exactly when it is an arrow key.
pub open spec fn response_to(entity_id: u64, input: PanelInput) -> PanelResponse {
    match input {
        PanelInput::MouseDown { control } => PanelResponse {
            focus: Some(control),
            start_drag: None,
            update_from_position: Some(control),
            adjustment: None,
            stop_propagation: true,
        },
        PanelInput::DragStart { control } => PanelResponse {
            focus: None,
            start_drag: Some(ColorPickerDrag { entity_id, control }),
            update_from_position: None,
            adjustment: None,
            stop_propagation: true,
        },
        PanelInput::DragMove { drag, control } => PanelResponse {
            focus: None,
            start_drag: None,
            update_from_position: if drag.entity_id == entity_id && drag.control == control {
                Some(control)
            } else {
                None
            },
            adjustment: None,
            stop_propagation: false,
        },
        PanelInput::KeyDown { control, key } => PanelResponse {
            focus: None,
            start_drag: None,
            update_from_position: None,
            adjustment: key_adjustment(control, key@),
            stop_propagation: arrow_key_of(key@).is_some(),
        },
    }
}

/// The answer of the panel owned by `entity_id` to `input`.
pub fn respond(entity_id: u64, input: &PanelInput) -> (r: PanelResponse)
    ensures
        r == response_to(entity_id, *input),
{
    match input {
        PanelInput::MouseDown { control } => PanelResponse {
            focus: Some(*control),
            start_drag: None,
            update_from_position: Some(*control),
            adjustment: None,
            stop_propagation: true,
        },
        PanelInput::DragStart { control } => PanelResponse {
            focus: None,
            start_drag: Some(ColorPickerDrag::new(entity_id, *control)),
            update_from_position: None,
            adjustment: None,
            stop_propagation: true,
        },
        PanelInput::DragMove { drag, control } => PanelResponse {
            focus: None,
            start_drag: None,
            update_from_position: if drag.targets(entity_id, *control) {
                Some(*control)
            } else {
                None
            },
            adjustment: None,
            stop_propagation: false,
        },
        PanelInput::KeyDown { control, key } => {
            let dispatch = keyboard_dispatch(*control, key.as_str());
            PanelResponse {
                focus: None,
                start_drag: None,
                update_from_position: None,
                adjustment: dispatch.adjustment,
                stop_propagation: dispatch.stop_propagation,
            }
        },
    }
}

/// A mouse press on either control focuses that control, moves the colour to
/// the pointer on it, and stops the event there; it starts no drag and steps
/// nothing.
pub proof fn lemma_mouse_down_response(entity_id: u64, control: ColorControl)
    ensures
        ({
            let r = response_to(entity_id, PanelInput::MouseDown { control });
            &&& r.update_from_position == Some(control)
            &&& r.focus == Some(control)
            &&& r.stop_propagation
            &&& r.start_drag is None && r.adjustment is None
        }),
{
}

/// Starting a drag on a control records this panel and that control as the
/// drag's origin and stops the event; nothing else happens yet.
pub proof fn lemma_drag_start_response(entity_id: u64, control: ColorControl)
    ensures
        ({
            let r = response_to(entity_id, PanelInput::DragStart { control });
            &&& r.start_drag == Some(ColorPickerDrag { entity_id, control })
            &&& r.stop_propagation
            &&& r.focus is None && r.update_from_position is None && r.adjustment is None
        }),
{
}

/// A drag move over a control updates the colour from the pointer on that
/// control exactly when the drag started on that control of this panel, and
/// never stops the event.
pub proof fn lemma_drag_move_response(entity_id: u64, drag: ColorPickerDrag, control: ColorControl)
    ensures
        ({
            let r = response_to(entity_id, PanelInput::DragMove { drag, control });
            &&& (r.update_from_position == Some(control)) <==> (drag.entity_id == entity_id
                && drag.control == control)
            &&& r.update_from_position is None <==> !(drag.entity_id == entity_id && drag.control
                == control)
            &&& r.focus is None && r.start_drag is None && r.adjustment is None
            &&& !r.stop_propagation
        }),
{
}

/// A key press carries the step of the keyboard mapping for that control and
/// key (left and right move saturation on the spectrum and hue on the hue
/// strip, up and down move value on the spectrum only), and stops the event
/// exactly when the key is one of "left", "right", "up" and "down", whatever
/// the control and whether or not a step applies.
pub proof fn lemma_key_down_response(entity_id: u64, control: ColorControl, key: String)
    ensures
        ({
            let r = response_to(entity_id, PanelInput::KeyDown { control, key });
            let k = key@;
            let is_arrow = k == seq!['l', 'e', 'f', 't'] || k == seq!['r', 'i', 'g', 'h', 't']
                || k == seq!['u', 'p'] || k == seq!['d', 'o', 'w', 'n'];
            &&& r.stop_propagation <==> is_arrow
            &&& r.adjustment == key_adjustment(control, k)
            &&& k == seq!['l', 'e', 'f', 't'] ==> r.adjustment == Some(
                Adjustment {
                    channel: if control == ColorControl::Hue {
                        Channel::Hue
                    } else {
                        Channel::Saturation
                    },
                    step: Step::Decrease,
                },
            )
            &&& k == seq!['r', 'i', 'g', 'h', 't'] ==> r.adjustment == Some(
                Adjustment {
                    channel: if control == ColorControl::Hue {
                        Channel::Hue
                    } else {
                        Channel::Saturation
                    },
                    step: Step::Increase,
                },
            )
            &&& k == seq!['u', 'p'] ==> r.adjustment == if control == ColorControl::Spectrum {
                Some(Adjustment { channel: Channel::Value, step: Step::Increase })
            } else {
                None
            }
            &&& k == seq!['d', 'o', 'w', 'n'] ==> r.adjustment == if control
                == ColorControl::Spectrum {
                Some(Adjustment { channel: Channel::Value, step: Step::Decrease })
            } else {
                None
            }
            &&& !is_arrow ==> r.adjustment is None
            &&& r.focus is None && r.start_drag is None && r.update_from_position is None
        }),
{
    lemma_arrow_key_names(key@);
    lemma_keyboard_mapping(control, key@);
}

/// The control that an input reaches.
pub open spec fn input_control(input: PanelInput) -> ColorControl {
    match input {
        PanelInput::MouseDown { control } => control,
        PanelInput::DragStart { control } => control,
        PanelInput::DragMove { control, .. } => control,
        PanelInput::KeyDown { control, .. } => control,
    }
}

/// An input only ever moves, focuses or starts a drag on the control it
/// reached; and a single input never both follows the pointer and steps a
/// channel.
pub proof fn lemma_response_stays_on_input_control(entity_id: u64, input: PanelInput)
    ensures
        ({
            let r = response_to(entity_id, input);
            &&& r.focus.is_some() ==> r.focus.unwrap() == input_control(input)
            &&& r.update_from_position.is_some() ==> r.update_from_position.unwrap()
                == input_control(input)
            &&& r.start_drag.is_some() ==> r.start_drag.unwrap().control == input_control(input)
                && r.start_drag.unwrap().entity_id == entity_id
            &&& !(r.update_from_position.is_some() && r.adjustment.is_some())
        }),
{
}

/// A drag started on one control of a panel moves that control of that
/// panel, and never the other control or another panel.
pub proof fn lemma_drag_round_trip(
    entity_id: u64,
    control: ColorControl,
    other_id: u64,
    other_control: ColorControl,
)
    ensures
        ({
            let drag = response_to(entity_id, PanelInput::DragStart { control }).start_drag.unwrap();
            response_to(other_id, PanelInput::DragMove { drag, control: other_control }).update_from_position
                == if other_id == entity_id && other_control == control {
                Some(control)
            } else {
                None
            }
        }),
{
}

} // verus!

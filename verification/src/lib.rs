//! Verified core of an inline saturation/value and hue colour picker panel.

pub mod control;
pub mod drag;
pub mod events;
pub mod hsv;
pub mod hue_strip;
pub mod keyboard;
pub mod sector;

pub use control::ColorControl;
pub use drag::ColorPickerDrag;
pub use events::{respond, PanelInput, PanelResponse};
pub use hsv::{update_hsv_from_position, Channel, Hsv};
pub use hue_strip::{hue_segments, segment_rounding, HueSegment, SegmentRounding};
pub use keyboard::{adjust_with_keyboard, keyboard_adjustment, keyboard_dispatch, parse_arrow_key, Adjustment, ArrowKey, KeyDispatch, Step};
pub use sector::{sector_rgb, SectorComponent};

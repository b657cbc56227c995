use vstd::prelude::*;

use crate::control::ColorControl;

verus! {

/// A colour in hue, saturation and value coordinates.
///
/// The channel type is generic: the panel stores its channels as numbers in
/// `[0, 1]`, and this module only decides which channel receives which value.
#[derive(Clone, Copy, Debug, PartialEq)]
pub struct Hsv<T> {
    pub h: T,
    pub s: T,
    pub v: T,
}

/// One of the three channels of an [`Hsv`] colour.
#[derive(Clone, Copy, Debug, PartialEq, Eq, Structural)]
pub enum Channel {
    Hue,
    Saturation,
    Value,
}

/// The colour after a pointer at horizontal position `x` over `control`,
/// where `value` is the brightness that the vertical position stands for
/// (one minus the normalised distance from the top of the spectrum).
///
/// On the spectrum the pointer picks saturation and value and keeps the hue;
/// on the hue strip it picks the hue and keeps saturation and value.
pub open spec fn position_update<T>(hsv: Hsv<T>, control: ColorControl, x: T, value: T) -> Hsv<T> {
    match control {
        ColorControl::Spectrum => Hsv { h: hsv.h, s: x, v: value },
        ColorControl::Hue => Hsv { h: x, s: hsv.s, v: hsv.v },
    }
}

impl<T: Copy> Hsv<T> {
    /// The value of channel `channel`.
    pub open spec fn channel_of(self, channel: Channel) -> T {
        match channel {
            Channel::Hue => self.h,
            Channel::Saturation => self.s,
            Channel::Value => self.v,
        }
    }

    /// This colour with channel `channel` replaced by `x`.
    pub open spec fn with_channel(self, channel: Channel, x: T) -> Hsv<T> {
        match channel {
            Channel::Hue => Hsv { h: x, s: self.s, v: self.v },
            Channel::Saturation => Hsv { h: self.h, s: x, v: self.v },
            Channel::Value => Hsv { h: self.h, s: self.s, v: x },
        }
    }

    /// Reads one channel.
    pub fn channel(&self, channel: Channel) -> (r: T)
        ensures
            r == self.channel_of(channel),
    {
        match channel {
            Channel::Hue => self.h,
            Channel::Saturation => self.s,
            Channel::Value => self.v,
        }
    }

    /// Replaces one channel and leaves the other two as they were.
    pub fn set_channel(&mut self, channel: Channel, x: T)
        ensures
            *final(self) == old(self).with_channel(channel, x),
    {
        match channel {
            Channel::Hue => self.h = x,
            Channel::Saturation => self.s = x,
            Channel::Value => self.v = x,
        }
    }
}

/// Moves the colour to the pointer position `x` (horizontal, normalised) and
/// `value` (the brightness of the vertical position) on `control`.
pub fn update_hsv_from_position<T: Copy>(hsv: &mut Hsv<T>, control: ColorControl, x: T, value: T)
    ensures
        *final(hsv) == position_update(*old(hsv), control, x, value),
{
    match control {
        ColorControl::Spectrum => {
            hsv.s = x;
            hsv.v = value;
        },
        ColorControl::Hue => hsv.h = x,
    }
}

/// Dragging on the hue strip changes the hue to the pointer position and
/// nothing else.
pub proof fn lemma_hue_drag_changes_only_hue<T>(hsv: Hsv<T>, x: T, value: T)
    ensures
        position_update(hsv, ColorControl::Hue, x, value).h == x,
        position_update(hsv, ColorControl::Hue, x, value).s == hsv.s,
        position_update(hsv, ColorControl::Hue, x, value).v == hsv.v,
{
}

/// Dragging on the spectrum keeps the hue and sets saturation and value from
/// the pointer.
pub proof fn lemma_spectrum_drag_keeps_hue<T>(hsv: Hsv<T>, x: T, value: T)
    ensures
        position_update(hsv, ColorControl::Spectrum, x, value).h == hsv.h,
        position_update(hsv, ColorControl::Spectrum, x, value).s == x,
        position_update(hsv, ColorControl::Spectrum, x, value).v == value,
{
}

/// The channels name the fields: hue is `h`, saturation `s` and value `v`,
/// both when read and when replaced.
pub proof fn lemma_channels_name_fields<T: Copy>(hsv: Hsv<T>, x: T)
    ensures
        hsv.channel_of(Channel::Hue) == hsv.h,
        hsv.channel_of(Channel::Saturation) == hsv.s,
        hsv.channel_of(Channel::Value) == hsv.v,
        hsv.with_channel(Channel::Hue, x) == (Hsv { h: x, s: hsv.s, v: hsv.v }),
        hsv.with_channel(Channel::Saturation, x) == (Hsv { h: hsv.h, s: x, v: hsv.v }),
        hsv.with_channel(Channel::Value, x) == (Hsv { h: hsv.h, s: hsv.s, v: x }),
{
}

/// Replacing a channel and reading it back gives the value written, and the
/// other channels read as before.
pub proof fn lemma_read_after_write<T: Copy>(hsv: Hsv<T>, written: Channel, read: Channel, x: T)
    ensures
        hsv.with_channel(written, x).channel_of(read) == (if read == written {
            x
        } else {
            hsv.channel_of(read)
        }),
{
}

/// Writing back the value a channel already has leaves the colour unchanged.
pub proof fn lemma_write_same_value<T: Copy>(hsv: Hsv<T>, channel: Channel)
    ensures
        hsv.with_channel(channel, hsv.channel_of(channel)) == hsv,
{
}

/// Repeating a pointer update at the same position changes nothing more.
pub proof fn lemma_position_update_idempotent<T>(
    hsv: Hsv<T>,
    control: ColorControl,
    x: T,
    value: T,
)
    ensures
        position_update(position_update(hsv, control, x, value), control, x, value)
            == position_update(hsv, control, x, value),
{
}

} // verus!

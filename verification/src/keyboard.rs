use vstd::prelude::*;
use vstd::string::StrSliceExecFns;

use crate::control::ColorControl;
use crate::hsv::{Channel, Hsv};

verus! {

/// An arrow key, as named by the key of a keystroke.
#[derive(Clone, Copy, Debug, PartialEq, Eq, Structural)]
pub enum ArrowKey {
    Left,
    Right,
    Up,
    Down,
}

/// The direction in which a keyboard step moves a channel.
#[derive(Clone, Copy, Debug, PartialEq, Eq, Structural)]
pub enum Step {
    Decrease,
    Increase,
}

/// A keyboard step on one channel of the colour.
#[derive(Clone, Copy, Debug, PartialEq, Eq, Structural)]
pub struct Adjustment {
    pub channel: Channel,
    pub step: Step,
}

/// What the panel does with a key pressed while one of its controls has
/// focus: the step it applies to the colour, if any, and whether the key
/// event stops there instead of reaching the enclosing elements.
#[derive(Clone, Copy, Debug, PartialEq, Eq, Structural)]
pub struct KeyDispatch {
    pub adjustment: Option<Adjustment>,
    pub stop_propagation: bool,
}

/// The arrow key that a key name stands for: `"left"`, `"right"`, `"up"` and
/// `"down"`; any other name is no arrow key.
pub open spec fn arrow_key_of(key: Seq<char>) -> Option<ArrowKey> {
    if key == seq!['l', 'e', 'f', 't'] {
        Some(ArrowKey::Left)
    } else if key == seq!['r', 'i', 'g', 'h', 't'] {
        Some(ArrowKey::Right)
    } else if key == seq!['u', 'p'] {
        Some(ArrowKey::Up)
    } else if key == seq!['d', 'o', 'w', 'n'] {
        Some(ArrowKey::Down)
    } else {
        None
    }
}

/// The step an arrow key applies on a control. On the spectrum, left and
/// right move the saturation and up and down move the value; on the hue
/// strip, left and right move the hue and up and down do nothing.
pub open spec fn arrow_adjustment(control: ColorControl, key: ArrowKey) -> Option<Adjustment> {
    match (control, key) {
        (ColorControl::Spectrum, ArrowKey::Left) => Some(
            Adjustment { channel: Channel::Saturation, step: Step::Decrease },
        ),
        (ColorControl::Spectrum, ArrowKey::Right) => Some(
            Adjustment { channel: Channel::Saturation, step: Step::Increase },
        ),
        (ColorControl::Spectrum, ArrowKey::Up) => Some(
            Adjustment { channel: Channel::Value, step: Step::Increase },
        ),
        (ColorControl::Spectrum, ArrowKey::Down) => Some(
            Adjustment { channel: Channel::Value, step: Step::Decrease },
        ),
        (ColorControl::Hue, ArrowKey::Left) => Some(
            Adjustment { channel: Channel::Hue, step: Step::Decrease },
        ),
        (ColorControl::Hue, ArrowKey::Right) => Some(
            Adjustment { channel: Channel::Hue, step: Step::Increase },
        ),
        (ColorControl::Hue, _) => None,
    }
}

/// The step that the key named `key` applies on `control`, if any.
pub open spec fn key_adjustment(control: ColorControl, key: Seq<char>) -> Option<Adjustment> {
    match arrow_key_of(key) {
        Some(arrow) => arrow_adjustment(control, arrow),
        None => None,
    }
}

/// Whether `key` reads exactly as `name`, character by character.
fn key_is(key: &str, name: &str) -> (r: bool)
    ensures
        r == (key@ == name@),
{
    let n = key.unicode_len();
    if n != name.unicode_len() {
        return false;
    }
    let mut i: usize = 0;
    while i < n
        invariant
            n == key@.len(),
            n == name@.len(),
            i <= n,
            forall|j: int| 0 <= j < i ==> key@[j] == name@[j],
        decreases n - i,
    {
        if key.get_char(i) != name.get_char(i) {
            return false;
        }
        i = i + 1;
    }
    assert(key@ =~= name@);
    true
}

/// The arrow key that a key name stands for, if any.
pub fn parse_arrow_key(key: &str) -> (r: Option<ArrowKey>)
    ensures
        r == arrow_key_of(key@),
{
    proof {
        reveal_strlit("left");
        reveal_strlit("right");
        reveal_strlit("up");
        reveal_strlit("down");
        assert("left"@ =~= seq!['l', 'e', 'f', 't']);
        assert("right"@ =~= seq!['r', 'i', 'g', 'h', 't']);
        assert("up"@ =~= seq!['u', 'p']);
        assert("down"@ =~= seq!['d', 'o', 'w', 'n']);
    }
    if key_is(key, "left") {
        Some(ArrowKey::Left)
    } else if key_is(key, "right") {
        Some(ArrowKey::Right)
    } else if key_is(key, "up") {
        Some(ArrowKey::Up)
    } else if key_is(key, "down") {
        Some(ArrowKey::Down)
    } else {
        None
    }
}

/// The step that the key named `key` applies on `control`: `None` for a key
/// that is no arrow key, and for up and down on the hue strip.
pub fn keyboard_adjustment(control: ColorControl, key: &str) -> (r: Option<Adjustment>)
    ensures
        r == key_adjustment(control, key@),
{
    match parse_arrow_key(key) {
        Some(arrow) => match (control, arrow) {
            (ColorControl::Spectrum, ArrowKey::Left) => Some(
                Adjustment { channel: Channel::Saturation, step: Step::Decrease },
            ),
            (ColorControl::Spectrum, ArrowKey::Right) => Some(
                Adjustment { channel: Channel::Saturation, step: Step::Increase },
            ),
            (ColorControl::Spectrum, ArrowKey::Up) => Some(
                Adjustment { channel: Channel::Value, step: Step::Increase },
            ),
            (ColorControl::Spectrum, ArrowKey::Down) => Some(
                Adjustment { channel: Channel::Value, step: Step::Decrease },
            ),
            (ColorControl::Hue, ArrowKey::Left) => Some(
                Adjustment { channel: Channel::Hue, step: Step::Decrease },
            ),
            (ColorControl::Hue, ArrowKey::Right) => Some(
                Adjustment { channel: Channel::Hue, step: Step::Increase },
            ),
            (ColorControl::Hue, _) => None,
        },
        None => None,
    }
}

/// Applies the key named `key`, pressed on `control`, to the colour: when the
/// key steps a channel, that channel becomes `step` applied to its current
/// value and the step direction, and the other channels stay; any other key
/// leaves the colour as it was. Returns the step that was applied.
pub fn adjust_with_keyboard<T: Copy, F: Fn(T, Step) -> T>(
    hsv: &mut Hsv<T>,
    control: ColorControl,
    key: &str,
    step: F,
) -> (r: Option<Adjustment>)
    requires
        forall|x: T, d: Step| #[trigger] step.requires((x, d)),
    ensures
        r == key_adjustment(control, key@),
        r is None ==> *final(hsv) == *old(hsv),
        r matches Some(a) ==> exists|y: T|
            #![trigger old(hsv).with_channel(a.channel, y)]
            step.ensures((old(hsv).channel_of(a.channel), a.step), y) && *final(hsv) == old(
                hsv,
            ).with_channel(a.channel, y),
{
    let adjustment = keyboard_adjustment(control, key);
    if let Some(a) = adjustment {
        let current = hsv.channel(a.channel);
        let next = step(current, a.step);
        hsv.set_channel(a.channel, next);
    }
    adjustment
}

/// How the panel handles the key named `key` on `control`: the step it
/// applies, and that every arrow key, and no other key, stops there.
pub fn keyboard_dispatch(control: ColorControl, key: &str) -> (r: KeyDispatch)
    ensures
        r.adjustment == key_adjustment(control, key@),
        r.stop_propagation == arrow_key_of(key@).is_some(),
{
    let adjustment = keyboard_adjustment(control, key);
    let stop_propagation = parse_arrow_key(key).is_some();
    KeyDispatch { adjustment, stop_propagation }
}

/// The four arrow key names and only they are arrow keys, each naming its
/// own arrow.
pub proof fn lemma_arrow_key_names(key: Seq<char>)
    ensures
        (arrow_key_of(key) == Some(ArrowKey::Left)) <==> key == seq!['l', 'e', 'f', 't'],
        (arrow_key_of(key) == Some(ArrowKey::Right)) <==> key == seq!['r', 'i', 'g', 'h', 't'],
        (arrow_key_of(key) == Some(ArrowKey::Up)) <==> key == seq!['u', 'p'],
        (arrow_key_of(key) == Some(ArrowKey::Down)) <==> key == seq!['d', 'o', 'w', 'n'],
        arrow_key_of(key) is None <==> (key != seq!['l', 'e', 'f', 't'] && key != seq![
            'r',
            'i',
            'g',
            'h',
            't',
        ] && key != seq!['u', 'p'] && key != seq!['d', 'o', 'w', 'n']),
{
    let left = seq!['l', 'e', 'f', 't'];
    let right = seq!['r', 'i', 'g', 'h', 't'];
    let up = seq!['u', 'p'];
    let down = seq!['d', 'o', 'w', 'n'];
    assert(left[0] == 'l' && down[0] == 'd' && left.len() == 4 && down.len() == 4);
    assert(right.len() == 5 && up.len() == 2);
}

/// The keyboard mapping, key by key: left and right step the saturation on
/// the spectrum and the hue on the hue strip, down and up step the value on
/// the spectrum and nothing on the hue strip, and every other key steps
/// nothing.
pub proof fn lemma_keyboard_mapping(control: ColorControl, key: Seq<char>)
    ensures
        key == seq!['l', 'e', 'f', 't'] ==> key_adjustment(control, key) == Some(
            Adjustment {
                channel: if control == ColorControl::Hue {
                    Channel::Hue
                } else {
                    Channel::Saturation
                },
                step: Step::Decrease,
            },
        ),
        key == seq!['r', 'i', 'g', 'h', 't'] ==> key_adjustment(control, key) == Some(
            Adjustment {
                channel: if control == ColorControl::Hue {
                    Channel::Hue
                } else {
                    Channel::Saturation
                },
                step: Step::Increase,
            },
        ),
        key == seq!['u', 'p'] ==> key_adjustment(control, key) == if control
            == ColorControl::Spectrum {
            Some(Adjustment { channel: Channel::Value, step: Step::Increase })
        } else {
            None
        },
        key == seq!['d', 'o', 'w', 'n'] ==> key_adjustment(control, key) == if control
            == ColorControl::Spectrum {
            Some(Adjustment { channel: Channel::Value, step: Step::Decrease })
        } else {
            None
        },
        (key != seq!['l', 'e', 'f', 't'] && key != seq!['r', 'i', 'g', 'h', 't'] && key != seq![
            'u',
            'p',
        ] && key != seq!['d', 'o', 'w', 'n']) ==> key_adjustment(control, key) is None,
{
    lemma_arrow_key_names(key);
}

/// A key that moves the colour is an arrow key, so the panel keeps it from
/// reaching the enclosing elements.
pub proof fn lemma_adjusting_key_stops_propagation(control: ColorControl, key: Seq<char>)
    requires
        key_adjustment(control, key).is_some(),
    ensures
        arrow_key_of(key).is_some(),
{
}

/// Each control moves only its own channels: the hue strip only the hue, the
/// spectrum only saturation and value.
pub proof fn lemma_adjustment_stays_on_control(control: ColorControl, key: Seq<char>)
    requires
        key_adjustment(control, key).is_some(),
    ensures
        (key_adjustment(control, key).unwrap().channel == Channel::Hue) <==> (control
            == ColorControl::Hue),
{
}

/// Opposite arrows move the same channel in opposite directions.
pub proof fn lemma_opposite_arrows(control: ColorControl)
    ensures
        ({
            let l = arrow_adjustment(control, ArrowKey::Left);
            let r = arrow_adjustment(control, ArrowKey::Right);
            &&& l.is_some() && r.is_some()
            &&& l.unwrap().channel == r.unwrap().channel
            &&& l.unwrap().step == Step::Decrease && r.unwrap().step == Step::Increase
        }),
        control == ColorControl::Spectrum ==> ({
            let d = arrow_adjustment(control, ArrowKey::Down);
            let u = arrow_adjustment(control, ArrowKey::Up);
            &&& d.is_some() && u.is_some()
            &&& d.unwrap().channel == u.unwrap().channel
            &&& d.unwrap().step == Step::Decrease && u.unwrap().step == Step::Increase
        }),
{
}

} // verus!

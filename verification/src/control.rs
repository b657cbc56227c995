use vstd::prelude::*;

verus! {

/// The two interactive areas of the panel: the saturation/value spectrum
/// square and the hue strip beneath it.
#[derive(Clone, Copy, Debug, PartialEq, Eq, Structural)]
pub enum ColorControl {
    Spectrum,
    Hue,
}

} // verus!

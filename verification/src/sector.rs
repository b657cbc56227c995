use vstd::prelude::*;

verus! {

/// Number of sectors the hue circle is divided into when converting a colour
/// from hue, saturation and value to red, green and blue.
pub const HUE_SECTORS: usize = 6;

/// The four intermediate values of the HSV to RGB conversion. With `v` the
/// value, `s` the saturation and `f` the position of the hue inside its
/// sector (in `[0, 1)`):
#[derive(Clone, Copy, Debug, PartialEq, Eq, Structural)]
pub enum SectorComponent {
    /// `v`, the brightest channel.
    Peak,
    /// `v * (1 - s)`, the darkest channel.
    Base,
    /// `v * (1 - f * s)`, falling from `v` to the base across the sector.
    Falling,
    /// `v * (1 - (1 - f) * s)`, rising from the base to `v` across the sector.
    Rising,
}

/// Which component feeds red, green and blue in each sector of the hue
/// circle; a sector number is taken modulo six.
pub open spec fn sector_pattern(sector: nat) -> (SectorComponent, SectorComponent, SectorComponent) {
    let k = sector % 6;
    if k == 0 {
        (SectorComponent::Peak, SectorComponent::Rising, SectorComponent::Base)
    } else if k == 1 {
        (SectorComponent::Falling, SectorComponent::Peak, SectorComponent::Base)
    } else if k == 2 {
        (SectorComponent::Base, SectorComponent::Peak, SectorComponent::Rising)
    } else if k == 3 {
        (SectorComponent::Base, SectorComponent::Falling, SectorComponent::Peak)
    } else if k == 4 {
        (SectorComponent::Rising, SectorComponent::Base, SectorComponent::Peak)
    } else {
        (SectorComponent::Peak, SectorComponent::Base, SectorComponent::Falling)
    }
}

/// The value that a component stands for.
pub open spec fn component_value<T>(c: SectorComponent, peak: T, base: T, falling: T, rising: T) -> T {
    match c {
        SectorComponent::Peak => peak,
        SectorComponent::Base => base,
        SectorComponent::Falling => falling,
        SectorComponent::Rising => rising,
    }
}

/// The red, green and blue channels of a colour in sector `sector`, given the
/// four component values.
pub open spec fn sector_rgb_spec<T>(sector: nat, peak: T, base: T, falling: T, rising: T) -> (T, T, T) {
    let p = sector_pattern(sector);
    (
        component_value(p.0, peak, base, falling, rising),
        component_value(p.1, peak, base, falling, rising),
        component_value(p.2, peak, base, falling, rising),
    )
}

/// How many of the three channels of a pattern are component `c`.
pub open spec fn count_component(
    p: (SectorComponent, SectorComponent, SectorComponent),
    c: SectorComponent,
) -> int {
    (if p.0 == c { 1int } else { 0int }) + (if p.1 == c { 1int } else { 0int }) + (if p.2 == c {
        1int
    } else {
        0int
    })
}

/// A pattern read at the end of its sector (`f = 1`): the falling component
/// has reached the base and the rising one the peak.
pub open spec fn at_sector_end(c: SectorComponent) -> SectorComponent {
    match c {
        SectorComponent::Falling => SectorComponent::Base,
        SectorComponent::Rising => SectorComponent::Peak,
        other => other,
    }
}

/// A pattern read at the start of its sector (`f = 0`): the falling component
/// is still at the peak and the rising one at the base.
pub open spec fn at_sector_start(c: SectorComponent) -> SectorComponent {
    match c {
        SectorComponent::Falling => SectorComponent::Peak,
        SectorComponent::Rising => SectorComponent::Base,
        other => other,
    }
}

/// Picks the red, green and blue channels for a colour in sector `sector`
/// (taken modulo six, so a hue that rounds up to a full turn lands in the
/// first sector) from the four component values.
pub fn sector_rgb<T: Copy>(sector: usize, peak: T, base: T, falling: T, rising: T) -> (r: (T, T, T))
    ensures
        r == sector_rgb_spec(sector as nat, peak, base, falling, rising),
{
    match sector % HUE_SECTORS {
        0 => (peak, rising, base),
        1 => (falling, peak, base),
        2 => (base, peak, rising),
        3 => (base, falling, peak),
        4 => (rising, base, peak),
        _ => (peak, base, falling),
    }
}

/// The conversion table, sector by sector (sector numbers taken modulo six):
/// red peaks in sectors 0 and 5, green in 1 and 2, blue in 3 and 4; the
/// channel that peaks next rises and the one that peaked before falls.
pub proof fn lemma_sector_table<T>(sector: nat, peak: T, base: T, falling: T, rising: T)
    ensures
        sector % 6 == 0 ==> sector_rgb_spec(sector, peak, base, falling, rising) == (
            peak,
            rising,
            base,
        ),
        sector % 6 == 1 ==> sector_rgb_spec(sector, peak, base, falling, rising) == (
            falling,
            peak,
            base,
        ),
        sector % 6 == 2 ==> sector_rgb_spec(sector, peak, base, falling, rising) == (
            base,
            peak,
            rising,
        ),
        sector % 6 == 3 ==> sector_rgb_spec(sector, peak, base, falling, rising) == (
            base,
            falling,
            peak,
        ),
        sector % 6 == 4 ==> sector_rgb_spec(sector, peak, base, falling, rising) == (
            rising,
            base,
            peak,
        ),
        sector % 6 == 5 ==> sector_rgb_spec(sector, peak, base, falling, rising) == (
            peak,
            base,
            falling,
        ),
{
}

/// Sectors repeat every full turn.
pub proof fn lemma_sector_periodic(sector: nat)
    ensures
        sector_pattern(sector + 6) == sector_pattern(sector),
{
    assert((sector + 6) % 6 == sector % 6);
}

/// In every sector exactly one channel is at the peak and exactly one at the
/// base; the third one falls in odd sectors and rises in even ones.
pub proof fn lemma_sector_shape(sector: nat)
    ensures
        count_component(sector_pattern(sector), SectorComponent::Peak) == 1,
        count_component(sector_pattern(sector), SectorComponent::Base) == 1,
        count_component(sector_pattern(sector), SectorComponent::Falling) == (if sector % 2
            == 1 {
            1int
        } else {
            0int
        }),
        count_component(sector_pattern(sector), SectorComponent::Rising) == (if sector % 2
            == 0 {
            1int
        } else {
            0int
        }),
{
    assert(sector % 2 == (sector % 6) % 2);
}

/// The conversion is continuous around the hue circle: the end of each sector
/// reads the same channels as the start of the next one.
pub proof fn lemma_sector_continuity(sector: nat)
    ensures
        ({
            let a = sector_pattern(sector);
            let b = sector_pattern(sector + 1);
            &&& at_sector_end(a.0) == at_sector_start(b.0)
            &&& at_sector_end(a.1) == at_sector_start(b.1)
            &&& at_sector_end(a.2) == at_sector_start(b.2)
        }),
{
    assert((sector + 1) % 6 == (sector % 6 + 1) % 6);
}

} // verus!

use vstd::prelude::*;

use crate::sector::HUE_SECTORS;

verus! {

/// How the corners of a segment of the hue strip are drawn: the strip has
/// rounded bottom corners, so its first segment rounds its bottom-left corner
/// and its last segment its bottom-right one.
#[derive(Clone, Copy, Debug, PartialEq, Eq, Structural)]
pub enum SegmentRounding {
    BottomLeft,
    BottomRight,
    Square,
}

/// One segment of the hue strip: a linear gradient between two hue stops,
/// each given in sixths of the full hue circle.
#[derive(Clone, Copy, Debug, PartialEq, Eq, Structural)]
pub struct HueSegment {
    pub index: usize,
    pub start_sixths: usize,
    pub end_sixths: usize,
    pub rounding: SegmentRounding,
}

/// The corner rounding of the segment at `index`.
pub open spec fn rounding_of(index: nat) -> SegmentRounding {
    if index == 0 {
        SegmentRounding::BottomLeft
    } else if index == 5 {
        SegmentRounding::BottomRight
    } else {
        SegmentRounding::Square
    }
}

/// The segment at `index`: from stop `index` to stop `index + 1`.
pub open spec fn segment_at(index: nat) -> HueSegment {
    HueSegment {
        index: index as usize,
        start_sixths: index as usize,
        end_sixths: (index + 1) as usize,
        rounding: rounding_of(index),
    }
}

/// The corner rounding of the segment at `index`.
pub fn segment_rounding(index: usize) -> (r: SegmentRounding)
    ensures
        r == rounding_of(index as nat),
{
    match index {
        0 => SegmentRounding::BottomLeft,
        5 => SegmentRounding::BottomRight,
        _ => SegmentRounding::Square,
    }
}

/// The six segments of the hue strip, from red through the hue circle back to
/// red, one per pair of consecutive stops `0, 1/6, ..., 6/6`.
pub fn hue_segments() -> (r: Vec<HueSegment>)
    ensures
        r@.len() == HUE_SECTORS,
        r@.len() == 6,
        forall|i: int| 0 <= i < r@.len() ==> #[trigger] r@[i] == segment_at(i as nat),
        forall|i: int|
            0 <= i < r@.len() ==> #[trigger] r@[i].index == i && r@[i].start_sixths == i
                && r@[i].end_sixths == i + 1,
{
    let mut segments: Vec<HueSegment> = Vec::new();
    let mut index: usize = 0;
    while index < HUE_SECTORS
        invariant
            index <= HUE_SECTORS,
            segments@.len() == index,
            forall|i: int| 0 <= i < index ==> #[trigger] segments@[i] == segment_at(i as nat),
        decreases HUE_SECTORS - index,
    {
        segments.push(
            HueSegment {
                index,
                start_sixths: index,
                end_sixths: index + 1,
                rounding: segment_rounding(index),
            },
        );
        index = index + 1;
    }
    segments
}

/// Segment `i` of the strip starts at `i` sixths of the hue circle and ends at
/// `i + 1` sixths: every segment spans exactly one sixth, in order.
pub proof fn lemma_each_segment_spans_one_sixth(i: nat)
    requires
        i < 6,
    ensures
        segment_at(i).index == i,
        segment_at(i).start_sixths == i,
        segment_at(i).end_sixths == i + 1,
        segment_at(i).end_sixths - segment_at(i).start_sixths == 1,
{
}

/// The segments tile the whole hue circle: the first starts at hue zero, the
/// last ends at the full turn, and each one starts where the one before it
/// ends.
pub proof fn lemma_segments_cover_hue_circle()
    ensures
        segment_at(0).start_sixths == 0,
        segment_at((HUE_SECTORS - 1) as nat).end_sixths == HUE_SECTORS,
        forall|i: nat|
            i + 1 < HUE_SECTORS ==> #[trigger] segment_at(i).end_sixths == segment_at(
                i + 1,
            ).start_sixths,
{
}

/// Only the two outer segments are rounded, each on its outer corner.
pub proof fn lemma_only_outer_segments_rounded(i: nat)
    requires
        i < HUE_SECTORS,
    ensures
        (segment_at(i).rounding == SegmentRounding::BottomLeft) <==> i == 0,
        (segment_at(i).rounding == SegmentRounding::BottomRight) <==> i + 1 == HUE_SECTORS,
{
}

} // verus!

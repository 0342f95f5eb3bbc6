//! RGBA color tags and the near-black classification used for color-keying.

use vstd::prelude::*;

verus! {

/// An RGBA color, as carried by a region tag and by image pixels.
#[derive(Clone, Copy, Debug, PartialEq, Eq, Structural)]
pub struct Color {
    pub r: u8,
    pub g: u8,
    pub b: u8,
    pub a: u8,
}

/// The neutral gray that a freshly started region is tagged with.
pub open spec fn spec_gray() -> Color {
    Color { r: 160, g: 160, b: 160, a: 255 }
}

/// Opaque black, the foreground reference color of the color-keying step.
pub open spec fn spec_black() -> Color {
    Color { r: 0, g: 0, b: 0, a: 255 }
}

/// Fully transparent, what background pixels are rewritten to.
pub open spec fn spec_transparent() -> Color {
    Color { r: 0, g: 0, b: 0, a: 0 }
}

/// One channel value `ic` lies within `margin` of the reference value `mc`,
/// inclusive on both ends.
pub open spec fn channel_within(mc: int, ic: int, margin: int) -> bool {
    mc - margin <= ic <= mc + margin
}

/// `in_color` matches `match_color` when *any one* of its R, G, B channels
/// lies within `margin` of the corresponding reference channel. The alpha
/// channel never takes part. Note the asymmetry against an all-channels
/// rule: a pure red pixel matches black because its G and B channels do.
pub open spec fn spec_is_color(match_color: Color, in_color: Color, margin: int) -> bool {
    ||| channel_within(match_color.r as int, in_color.r as int, margin)
    ||| channel_within(match_color.g as int, in_color.g as int, margin)
    ||| channel_within(match_color.b as int, in_color.b as int, margin)
}

impl Color {
    pub fn gray() -> (c: Color)
        ensures
            c == spec_gray(),
    {
        Color { r: 160, g: 160, b: 160, a: 255 }
    }

    pub fn black() -> (c: Color)
        ensures
            c == spec_black(),
    {
        Color { r: 0, g: 0, b: 0, a: 255 }
    }

    pub fn transparent() -> (c: Color)
        ensures
            c == spec_transparent(),
    {
        Color { r: 0, g: 0, b: 0, a: 0 }
    }
}

/// Whether `in_color` counts as `match_color` under the given per-channel
/// margin: true when at least one of the three color channels is within
/// `margin` of the reference, inclusive at the boundary.
pub fn is_color(match_color: Color, in_color: Color, margin: u8) -> (res: bool)
    ensures
        res == spec_is_color(match_color, in_color, margin as int),
{
    if in_color.r as u16 <= match_color.r as u16 + margin as u16
        && in_color.r as u16 + margin as u16 >= match_color.r as u16 {
        return true;
    }
    if in_color.g as u16 <= match_color.g as u16 + margin as u16
        && in_color.g as u16 + margin as u16 >= match_color.g as u16 {
        return true;
    }
    if in_color.b as u16 <= match_color.b as u16 + margin as u16
        && in_color.b as u16 + margin as u16 >= match_color.b as u16 {
        return true;
    }
    false
}

} // verus!

//! The decisions shared by the transforms out of RGB: which channel is
//! extremal, and which hue branch applies.
//!
//! The hue of an RGB color is derived from the channel holding the maximum,
//! and both the HSL and the HSV transform derive it the same way. The
//! selection here is a total, tagged one: a channel is chosen from the
//! comparison outcomes up front, so no later step can face an unmatched
//! case, whatever the comparisons said (NaN channels compare false against
//! everything).

use vstd::prelude::*;

use crate::FLOAT_ZERO;

verus! {

/// Which of the three channels of an RGB color is the selected extremum.
#[derive(Clone, Copy, Debug, PartialEq, Eq, Structural)]
pub enum ChannelMax {
    Red,
    Green,
    Blue,
}

/// Outcomes of the six IEEE comparisons among the channels of an RGB color:
/// `r_ge_g` is `r >= g` on the channel values, `g_le_b` is `g <= b`, and so
/// on. The embedding program evaluates the comparisons; every decision drawn
/// from them is made here.
#[derive(Clone, Copy, Debug, PartialEq, Eq, Structural)]
pub struct ChannelCompare {
    pub r_ge_g: bool,
    pub r_ge_b: bool,
    pub g_ge_b: bool,
    pub r_le_g: bool,
    pub r_le_b: bool,
    pub g_le_b: bool,
}

/// The channel selected as holding the maximum: red wins ties, then green.
pub open spec fn spec_max_channel(cmp: ChannelCompare) -> ChannelMax {
    if cmp.r_ge_g && cmp.r_ge_b {
        ChannelMax::Red
    } else if cmp.g_ge_b {
        ChannelMax::Green
    } else {
        ChannelMax::Blue
    }
}

/// The channel selected as holding the minimum: red wins ties, then green.
pub open spec fn spec_min_channel(cmp: ChannelCompare) -> ChannelMax {
    if cmp.r_le_g && cmp.r_le_b {
        ChannelMax::Red
    } else if cmp.g_le_b {
        ChannelMax::Green
    } else {
        ChannelMax::Blue
    }
}

/// The value of the given channel.
pub open spec fn spec_channel_value(which: ChannelMax, r: u64, g: u64, b: u64) -> u64 {
    match which {
        ChannelMax::Red => r,
        ChannelMax::Green => g,
        ChannelMax::Blue => b,
    }
}

/// The extremal channels of an RGB color: the tag of the maximum and the
/// values of both extrema.
#[derive(Clone, Copy, Debug, PartialEq, Eq, Structural)]
pub struct Extremes {
    pub max_channel: ChannelMax,
    pub xmax: u64,
    pub xmin: u64,
}

/// Selects the maximal and minimal channel of an RGB color from the given
/// comparison outcomes. The selection is total: some channel is chosen in
/// every case, and the chosen tag always carries its own channel's value.
pub fn channel_extremes(r: u64, g: u64, b: u64, cmp: ChannelCompare) -> (e: Extremes)
    ensures
        e.max_channel == spec_max_channel(cmp),
        e.xmax == spec_channel_value(spec_max_channel(cmp), r, g, b),
        e.xmin == spec_channel_value(spec_min_channel(cmp), r, g, b),
{
    let max_channel = if cmp.r_ge_g && cmp.r_ge_b {
        ChannelMax::Red
    } else if cmp.g_ge_b {
        ChannelMax::Green
    } else {
        ChannelMax::Blue
    };
    let xmax = match max_channel {
        ChannelMax::Red => r,
        ChannelMax::Green => g,
        ChannelMax::Blue => b,
    };
    let xmin = if cmp.r_le_g && cmp.r_le_b {
        r
    } else if cmp.g_le_b {
        g
    } else {
        b
    };
    Extremes { max_channel, xmax, xmin }
}

/// One branch of the hue derivation, evaluated by the embedding program:
/// `raw` is the branch's hue in degrees, `is_negative` the outcome of
/// `raw < 0.0`, and `wrapped` the bit pattern of `raw + 360.0`.
#[derive(Clone, Copy, Debug, PartialEq, Eq, Structural)]
pub struct HueCandidate {
    pub raw: u64,
    pub is_negative: bool,
    pub wrapped: u64,
}

/// A hue brought into [0, 360): wrapped once upward when negative.
pub open spec fn spec_normal_hue(cand: HueCandidate) -> u64 {
    if cand.is_negative {
        cand.wrapped
    } else {
        cand.raw
    }
}

/// The hue of an RGB color: `0.0` for an achromatic color (zero chroma),
/// otherwise the normalized candidate of the maximal channel's branch.
pub open spec fn spec_hue(
    chroma_is_zero: bool,
    which: ChannelMax,
    red: HueCandidate,
    green: HueCandidate,
    blue: HueCandidate,
) -> u64 {
    if chroma_is_zero {
        FLOAT_ZERO
    } else {
        match which {
            ChannelMax::Red => spec_normal_hue(red),
            ChannelMax::Green => spec_normal_hue(green),
            ChannelMax::Blue => spec_normal_hue(blue),
        }
    }
}

/// Selects and normalizes the hue of an RGB color: exactly one of the four
/// hue branches — achromatic, red-maximal, green-maximal, blue-maximal —
/// applies to every input.
pub fn select_hue(
    chroma_is_zero: bool,
    which: ChannelMax,
    red: HueCandidate,
    green: HueCandidate,
    blue: HueCandidate,
) -> (h: u64)
    ensures
        h == spec_hue(chroma_is_zero, which, red, green, blue),
{
    if chroma_is_zero {
        FLOAT_ZERO
    } else {
        let cand = match which {
            ChannelMax::Red => red,
            ChannelMax::Green => green,
            ChannelMax::Blue => blue,
        };
        if cand.is_negative {
            cand.wrapped
        } else {
            cand.raw
        }
    }
}

} // verus!

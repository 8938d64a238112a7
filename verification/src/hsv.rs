//! Hue/saturation/value color, and the transforms into it.

use vstd::prelude::*;

use crate::hashing::mix64;
use crate::hashing::spec_mix64;
use crate::hashing::HASH_SEED;
use crate::hsl::Hsl;
use crate::hsla::Hsla;
use crate::hsva::Hsva;
use crate::rgb::Rgb;
use crate::rgba::Rgba;
use crate::transform::channel_extremes;
use crate::transform::select_hue;
use crate::transform::spec_channel_value;
use crate::transform::spec_hue;
use crate::transform::spec_max_channel;
use crate::transform::ChannelCompare;
use crate::transform::HueCandidate;
use crate::FLOAT_ZERO;

verus! {

/// An HSV color; each field is the bit pattern of a 64-bit IEEE value.
#[derive(Clone, Copy, Debug, PartialEq, Eq, Structural, Hash)]
pub struct Hsv {
    pub h: u64,
    pub s: u64,
    pub v: u64,
}

/// The arithmetic of the RGB→HSV transform, evaluated by the embedding
/// program with IEEE operations. With `xmax`/`xmin` the extrema selected by
/// `channel_extremes` and `c = xmax - xmin` the chroma:
/// `chroma_is_zero` is the outcome of `c == 0.0`; the three candidates are
/// the branch hues `60 * ((g - b) / c)`, `60 * ((b - r) / c + 2)` and
/// `60 * ((r - g) / c + 4)`; `max_is_zero` is the outcome of `xmax == 0.0`
/// and `sat_ratio` the bit pattern of `c / xmax`.
#[derive(Clone, Copy, Debug, PartialEq, Eq, Structural)]
pub struct RgbToHsvParts {
    pub compare: ChannelCompare,
    pub chroma_is_zero: bool,
    pub hue_red: HueCandidate,
    pub hue_green: HueCandidate,
    pub hue_blue: HueCandidate,
    pub max_is_zero: bool,
    pub sat_ratio: u64,
}

/// The HSV color an RGB color denotes: the shared hue derivation, a
/// saturation of `0.0` when the maximum degenerates to zero and `c / xmax`
/// otherwise, and the maximal channel itself as the value.
pub open spec fn spec_hsv_from_rgb(c: Rgb, m: RgbToHsvParts) -> Hsv {
    Hsv {
        h: spec_hue(m.chroma_is_zero, spec_max_channel(m.compare), m.hue_red, m.hue_green, m.hue_blue),
        s: if m.max_is_zero {
            FLOAT_ZERO
        } else {
            m.sat_ratio
        },
        v: spec_channel_value(spec_max_channel(m.compare), c.r, c.g, c.b),
    }
}

/// The arithmetic of the HSL→HSV transform, evaluated by the embedding
/// program with IEEE operations: `value` is the bit pattern of
/// `l + s * min(l, 1 - l)`, `value_is_zero` the outcome of `value == 0.0`,
/// and `sat` the bit pattern of `2 * (1 - l / value)`.
#[derive(Clone, Copy, Debug, PartialEq, Eq, Structural)]
pub struct HslToHsvParts {
    pub value: u64,
    pub value_is_zero: bool,
    pub sat: u64,
}

/// The HSV color an HSL color denotes: the hue passes through unchanged,
/// and the saturation is `0.0` when the value degenerates to zero.
pub open spec fn spec_hsv_from_hsl(c: Hsl, m: HslToHsvParts) -> Hsv {
    Hsv {
        h: c.h,
        s: if m.value_is_zero {
            FLOAT_ZERO
        } else {
            m.sat
        },
        v: m.value,
    }
}

impl Hsv {
    /// The color a canonical `[h, s, v]` array denotes.
    pub open spec fn spec_from_array(a: Seq<u64>) -> Hsv {
        Hsv { h: a[0], s: a[1], v: a[2] }
    }

    /// The canonical `[h, s, v]` array of this color.
    pub open spec fn spec_to_array(self) -> Seq<u64> {
        seq![self.h, self.s, self.v]
    }

    /// Builds the color from its canonical array, a pure field mapping.
    pub fn from_array(a: [u64; 3]) -> (c: Hsv)
        ensures
            c == Hsv::spec_from_array(a@),
    {
        Hsv { h: a[0], s: a[1], v: a[2] }
    }

    /// Extracts the canonical array, a pure field mapping.
    pub fn to_array(self) -> (a: [u64; 3])
        ensures
            a@ == self.spec_to_array(),
    {
        [self.h, self.s, self.v]
    }

    /// The hash of this color: a function of the field bit patterns alone.
    pub open spec fn spec_hash(self) -> u64 {
        spec_mix64(spec_mix64(spec_mix64(HASH_SEED, self.h), self.s), self.v)
    }

    /// Hashes the exact bit patterns of the fields, consistent with `==`.
    pub fn hash_value(&self) -> (h: u64)
        ensures
            h == self.spec_hash(),
    {
        mix64(mix64(mix64(HASH_SEED, self.h), self.s), self.v)
    }

    /// Drops the alpha channel; hue, saturation and value pass through
    /// untouched.
    pub fn from_hsva(c: Hsva) -> (out: Hsv)
        ensures
            out.h == c.h,
            out.s == c.s,
            out.v == c.v,
    {
        Hsv { h: c.h, s: c.s, v: c.v }
    }

    /// Assembles the HSV color of an RGB color from the evaluated
    /// arithmetic: the channel selection, the four-way hue branch and the
    /// degenerate saturation case are all decided here, and exactly one
    /// branch applies to every input.
    pub fn from_rgb_parts(c: Rgb, m: RgbToHsvParts) -> (out: Hsv)
        ensures
            out == spec_hsv_from_rgb(c, m),
    {
        let e = channel_extremes(c.r, c.g, c.b, m.compare);
        let h = select_hue(m.chroma_is_zero, e.max_channel, m.hue_red, m.hue_green, m.hue_blue);
        let s = if m.max_is_zero {
            FLOAT_ZERO
        } else {
            m.sat_ratio
        };
        Hsv { h, s, v: e.xmax }
    }

    /// As `from_rgb_parts`, with the source's alpha channel dropped first:
    /// the result equals the transform of the bare RGB projection.
    pub fn from_rgba_parts(c: Rgba, m: RgbToHsvParts) -> (out: Hsv)
        ensures
            out == spec_hsv_from_rgb(c.spec_rgb(), m),
    {
        Hsv::from_rgb_parts(Rgb::from_rgba(c), m)
    }

    /// Assembles the HSV color of an HSL color from the evaluated
    /// arithmetic; the degenerate value case is decided here.
    pub fn from_hsl_parts(c: Hsl, m: HslToHsvParts) -> (out: Hsv)
        ensures
            out == spec_hsv_from_hsl(c, m),
    {
        let s = if m.value_is_zero {
            FLOAT_ZERO
        } else {
            m.sat
        };
        Hsv { h: c.h, s, v: m.value }
    }

    /// As `from_hsl_parts`, with the source's alpha channel dropped first:
    /// the result equals the transform of the bare HSL projection.
    pub fn from_hsla_parts(c: Hsla, m: HslToHsvParts) -> (out: Hsv)
        ensures
            out == spec_hsv_from_hsl(c.spec_hsl(), m),
    {
        Hsv::from_hsl_parts(Hsl::from_hsla(c), m)
    }
}

/// The array round trip is the identity: rebuilding a color from its own
/// canonical array yields the color, bit for bit.
pub proof fn lemma_hsv_array_round_trip(c: Hsv)
    ensures
        Hsv::spec_from_array(c.spec_to_array()) == c,
{
}

/// Conversely, the canonical array of the color an array denotes is that
/// array again, element for element.
pub proof fn lemma_hsv_array_round_trip_rev(a: Seq<u64>)
    requires
        a.len() == 3,
    ensures
        Hsv::spec_from_array(a).spec_to_array() == a,
{
    assert(Hsv::spec_from_array(a).spec_to_array() =~= a);
}

/// Equal colors hash equal: the hash is derived from the bit patterns of
/// the fields, the same fields equality compares.
pub proof fn lemma_hsv_hash_consistent(a: Hsv, b: Hsv)
    requires
        a == b,
    ensures
        a.spec_hash() == b.spec_hash(),
{
}

} // verus!

//! Hue/saturation/lightness color, and the transforms into it.

use vstd::prelude::*;

use crate::hashing::mix64;
use crate::hashing::spec_mix64;
use crate::hashing::HASH_SEED;
use crate::hsla::Hsla;
use crate::hsv::spec_hsv_from_rgb;
use crate::hsv::Hsv;
use crate::hsv::RgbToHsvParts;
use crate::hsva::Hsva;
use crate::rgb::Rgb;
use crate::rgba::Rgba;
use crate::transform::channel_extremes;
use crate::transform::select_hue;
use crate::transform::spec_hue;
use crate::transform::spec_max_channel;
use crate::transform::ChannelCompare;
use crate::transform::HueCandidate;
use crate::FLOAT_ZERO;

verus! {

/// An HSL color; each field is the bit pattern of a 64-bit IEEE value.
#[derive(Clone, Copy, Debug, PartialEq, Eq, Structural, Hash)]
pub struct Hsl {
    pub h: u64,
    pub s: u64,
    pub l: u64,
}

/// The arithmetic of the RGB→HSL transform, evaluated by the embedding
/// program with IEEE operations. The comparison outcomes, chroma test and
/// hue candidates are those of the RGB→HSV transform — the hue derivation
/// is shared. `lightness` is the bit pattern of `(xmax + xmin) / 2`,
/// `lightness_is_zero` and `lightness_is_one` the outcomes of `l == 0.0`
/// and `l == 1.0`, and `sat_ratio` the bit pattern of
/// `c / (1 - |2 * l - 1|)`.
#[derive(Clone, Copy, Debug, PartialEq, Eq, Structural)]
pub struct RgbToHslParts {
    pub compare: ChannelCompare,
    pub chroma_is_zero: bool,
    pub hue_red: HueCandidate,
    pub hue_green: HueCandidate,
    pub hue_blue: HueCandidate,
    pub lightness: u64,
    pub lightness_is_zero: bool,
    pub lightness_is_one: bool,
    pub sat_ratio: u64,
}

/// The HSL color an RGB color denotes: the shared hue derivation, a
/// saturation of `0.0` when the lightness degenerates to either end of its
/// range, and the mean of the extrema as the lightness.
pub open spec fn spec_hsl_from_rgb(c: Rgb, m: RgbToHslParts) -> Hsl {
    Hsl {
        h: spec_hue(m.chroma_is_zero, spec_max_channel(m.compare), m.hue_red, m.hue_green, m.hue_blue),
        s: if m.lightness_is_zero || m.lightness_is_one {
            FLOAT_ZERO
        } else {
            m.sat_ratio
        },
        l: m.lightness,
    }
}

/// The arithmetic of the HSV→HSL transform, evaluated by the embedding
/// program with IEEE operations: `lightness` is the bit pattern of
/// `v * (1 - s / 2)`, `lightness_is_zero` and `lightness_is_one` the
/// outcomes of `l == 0.0` and `l == 1.0`, and `sat_ratio` the bit pattern
/// of `(v - l) / min(l, 1 - l)`.
#[derive(Clone, Copy, Debug, PartialEq, Eq, Structural)]
pub struct HsvToHslParts {
    pub lightness: u64,
    pub lightness_is_zero: bool,
    pub lightness_is_one: bool,
    pub sat_ratio: u64,
}

/// The HSL color an HSV color denotes: the hue passes through unchanged,
/// and the saturation is `0.0` when the lightness degenerates.
pub open spec fn spec_hsl_from_hsv(c: Hsv, m: HsvToHslParts) -> Hsl {
    Hsl {
        h: c.h,
        s: if m.lightness_is_zero || m.lightness_is_one {
            FLOAT_ZERO
        } else {
            m.sat_ratio
        },
        l: m.lightness,
    }
}

impl Hsl {
    /// The color a canonical `[h, s, l]` array denotes.
    pub open spec fn spec_from_array(a: Seq<u64>) -> Hsl {
        Hsl { h: a[0], s: a[1], l: a[2] }
    }

    /// The canonical `[h, s, l]` array of this color.
    pub open spec fn spec_to_array(self) -> Seq<u64> {
        seq![self.h, self.s, self.l]
    }

    /// Builds the color from its canonical array, a pure field mapping.
    pub fn from_array(a: [u64; 3]) -> (c: Hsl)
        ensures
            c == Hsl::spec_from_array(a@),
    {
        Hsl { h: a[0], s: a[1], l: a[2] }
    }

    /// Extracts the canonical array, a pure field mapping.
    pub fn to_array(self) -> (a: [u64; 3])
        ensures
            a@ == self.spec_to_array(),
    {
        [self.h, self.s, self.l]
    }

    /// The hash of this color: a function of the field bit patterns alone.
    pub open spec fn spec_hash(self) -> u64 {
        spec_mix64(spec_mix64(spec_mix64(HASH_SEED, self.h), self.s), self.l)
    }

    /// Hashes the exact bit patterns of the fields, consistent with `==`.
    pub fn hash_value(&self) -> (h: u64)
        ensures
            h == self.spec_hash(),
    {
        mix64(mix64(mix64(HASH_SEED, self.h), self.s), self.l)
    }

    /// Drops the alpha channel; hue, saturation and lightness pass through
    /// untouched.
    pub fn from_hsla(c: Hsla) -> (out: Hsl)
        ensures
            out.h == c.h,
            out.s == c.s,
            out.l == c.l,
    {
        Hsl { h: c.h, s: c.s, l: c.l }
    }

    /// Assembles the HSL color of an RGB color from the evaluated
    /// arithmetic: the channel selection, the four-way hue branch and the
    /// degenerate lightness cases are all decided here, and exactly one
    /// branch applies to every input.
    pub fn from_rgb_parts(c: Rgb, m: RgbToHslParts) -> (out: Hsl)
        ensures
            out == spec_hsl_from_rgb(c, m),
    {
        let e = channel_extremes(c.r, c.g, c.b, m.compare);
        let h = select_hue(m.chroma_is_zero, e.max_channel, m.hue_red, m.hue_green, m.hue_blue);
        let s = if m.lightness_is_zero || m.lightness_is_one {
            FLOAT_ZERO
        } else {
            m.sat_ratio
        };
        Hsl { h, s, l: m.lightness }
    }

    /// As `from_rgb_parts`, with the source's alpha channel dropped first:
    /// the result equals the transform of the bare RGB projection.
    pub fn from_rgba_parts(c: Rgba, m: RgbToHslParts) -> (out: Hsl)
        ensures
            out == spec_hsl_from_rgb(c.spec_rgb(), m),
    {
        Hsl::from_rgb_parts(Rgb::from_rgba(c), m)
    }

    /// Assembles the HSL color of an HSV color from the evaluated
    /// arithmetic; the degenerate lightness cases are decided here.
    pub fn from_hsv_parts(c: Hsv, m: HsvToHslParts) -> (out: Hsl)
        ensures
            out == spec_hsl_from_hsv(c, m),
    {
        let s = if m.lightness_is_zero || m.lightness_is_one {
            FLOAT_ZERO
        } else {
            m.sat_ratio
        };
        Hsl { h: c.h, s, l: m.lightness }
    }

    /// As `from_hsv_parts`, with the source's alpha channel dropped first:
    /// the result equals the transform of the bare HSV projection.
    pub fn from_hsva_parts(c: Hsva, m: HsvToHslParts) -> (out: Hsl)
        ensures
            out == spec_hsl_from_hsv(c.spec_hsv(), m),
    {
        Hsl::from_hsv_parts(Hsv::from_hsva(c), m)
    }
}

/// The array round trip is the identity: rebuilding a color from its own
/// canonical array yields the color, bit for bit.
pub proof fn lemma_hsl_array_round_trip(c: Hsl)
    ensures
        Hsl::spec_from_array(c.spec_to_array()) == c,
{
}

/// Conversely, the canonical array of the color an array denotes is that
/// array again, element for element.
pub proof fn lemma_hsl_array_round_trip_rev(a: Seq<u64>)
    requires
        a.len() == 3,
    ensures
        Hsl::spec_from_array(a).spec_to_array() == a,
{
    assert(Hsl::spec_from_array(a).spec_to_array() =~= a);
}

/// Equal colors hash equal: the hash is derived from the bit patterns of
/// the fields, the same fields equality compares.
pub proof fn lemma_hsl_hash_consistent(a: Hsl, b: Hsl)
    requires
        a == b,
    ensures
        a.spec_hash() == b.spec_hash(),
{
}

/// The HSL and the HSV transform of one RGB color derive their hue
/// identically: on the same comparison outcomes, chroma test and hue
/// candidates, both yield the same hue, bit for bit.
pub proof fn lemma_hue_shared(c: Rgb, mv: RgbToHsvParts, ml: RgbToHslParts)
    requires
        ml.compare == mv.compare,
        ml.chroma_is_zero == mv.chroma_is_zero,
        ml.hue_red == mv.hue_red,
        ml.hue_green == mv.hue_green,
        ml.hue_blue == mv.hue_blue,
    ensures
        spec_hsl_from_rgb(c, ml).h == spec_hsv_from_rgb(c, mv).h,
{
}

} // verus!

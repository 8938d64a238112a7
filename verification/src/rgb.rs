//! Additive red/green/blue color, each channel nominally in [0, 1].

use vstd::prelude::*;

use crate::hashing::mix64;
use crate::hashing::spec_mix64;
use crate::hashing::HASH_SEED;
use crate::rgba::Rgba;

verus! {

/// An RGB color; each field is the bit pattern of a 64-bit IEEE value.
#[derive(Clone, Copy, Debug, PartialEq, Eq, Structural, Hash)]
pub struct Rgb {
    pub r: u64,
    pub g: u64,
    pub b: u64,
}

/// The arithmetic of the HSV→RGB transform, evaluated by the embedding
/// program with IEEE operations. With `c = v * s` the chroma,
/// `m = v - c` the common offset, `hp = h / 60` the sextant coordinate and
/// `x = c * (1 - |hp mod 2 - 1|)` the middle channel:
/// `full` is `c + m`, `mid` is `x + m`, `base` is `m`, and the five flags
/// are the outcomes of `hp < 1.0` through `hp < 5.0`.
#[derive(Clone, Copy, Debug, PartialEq, Eq, Structural)]
pub struct HsvToRgbParts {
    pub below_one: bool,
    pub below_two: bool,
    pub below_three: bool,
    pub below_four: bool,
    pub below_five: bool,
    pub full: u64,
    pub mid: u64,
    pub base: u64,
}

/// The RGB color an HSV color denotes: the classic sextant table, assigning
/// `full`, `mid` and `base` to the channels by the hue's sixth of the wheel.
pub open spec fn spec_rgb_from_hsv(m: HsvToRgbParts) -> Rgb {
    if m.below_one {
        Rgb { r: m.full, g: m.mid, b: m.base }
    } else if m.below_two {
        Rgb { r: m.mid, g: m.full, b: m.base }
    } else if m.below_three {
        Rgb { r: m.base, g: m.full, b: m.mid }
    } else if m.below_four {
        Rgb { r: m.base, g: m.mid, b: m.full }
    } else if m.below_five {
        Rgb { r: m.mid, g: m.base, b: m.full }
    } else {
        Rgb { r: m.full, g: m.base, b: m.mid }
    }
}

impl Rgb {
    /// The color a canonical `[r, g, b]` array denotes.
    pub open spec fn spec_from_array(a: Seq<u64>) -> Rgb {
        Rgb { r: a[0], g: a[1], b: a[2] }
    }

    /// The canonical `[r, g, b]` array of this color.
    pub open spec fn spec_to_array(self) -> Seq<u64> {
        seq![self.r, self.g, self.b]
    }

    /// Builds the color from its canonical array, a pure field mapping.
    pub fn from_array(a: [u64; 3]) -> (c: Rgb)
        ensures
            c == Rgb::spec_from_array(a@),
    {
        Rgb { r: a[0], g: a[1], b: a[2] }
    }

    /// Extracts the canonical array, a pure field mapping.
    pub fn to_array(self) -> (a: [u64; 3])
        ensures
            a@ == self.spec_to_array(),
    {
        [self.r, self.g, self.b]
    }

    /// The hash of this color: a function of the field bit patterns alone.
    pub open spec fn spec_hash(self) -> u64 {
        spec_mix64(spec_mix64(spec_mix64(HASH_SEED, self.r), self.g), self.b)
    }

    /// Hashes the exact bit patterns of the fields, consistent with `==`.
    pub fn hash_value(&self) -> (h: u64)
        ensures
            h == self.spec_hash(),
    {
        mix64(mix64(mix64(HASH_SEED, self.r), self.g), self.b)
    }

    /// Drops the alpha channel; the color channels pass through untouched.
    pub fn from_rgba(c: Rgba) -> (out: Rgb)
        ensures
            out.r == c.r,
            out.g == c.g,
            out.b == c.b,
    {
        Rgb { r: c.r, g: c.g, b: c.b }
    }

    /// Assembles the RGB color of an HSV color from the evaluated sextant
    /// arithmetic: exactly one of the six sextants applies to every input.
    pub fn from_hsv_parts(m: HsvToRgbParts) -> (out: Rgb)
        ensures
            out == spec_rgb_from_hsv(m),
    {
        if m.below_one {
            Rgb { r: m.full, g: m.mid, b: m.base }
        } else if m.below_two {
            Rgb { r: m.mid, g: m.full, b: m.base }
        } else if m.below_three {
            Rgb { r: m.base, g: m.full, b: m.mid }
        } else if m.below_four {
            Rgb { r: m.base, g: m.mid, b: m.full }
        } else if m.below_five {
            Rgb { r: m.mid, g: m.base, b: m.full }
        } else {
            Rgb { r: m.full, g: m.base, b: m.mid }
        }
    }
}

/// The array round trip is the identity: rebuilding a color from its own
/// canonical array yields the color, bit for bit.
pub proof fn lemma_rgb_array_round_trip(c: Rgb)
    ensures
        Rgb::spec_from_array(c.spec_to_array()) == c,
{
}

/// Conversely, the canonical array of the color an array denotes is that
/// array again, element for element.
pub proof fn lemma_rgb_array_round_trip_rev(a: Seq<u64>)
    requires
        a.len() == 3,
    ensures
        Rgb::spec_from_array(a).spec_to_array() == a,
{
    assert(Rgb::spec_from_array(a).spec_to_array() =~= a);
}

/// Equal colors hash equal: the hash is derived from the bit patterns of
/// the fields, the same fields equality compares.
pub proof fn lemma_rgb_hash_consistent(a: Rgb, b: Rgb)
    requires
        a == b,
    ensures
        a.spec_hash() == b.spec_hash(),
{
}

} // verus!

//! Additive red/green/blue color with an alpha (opacity) channel.

use vstd::prelude::*;

use crate::hashing::mix64;
use crate::hashing::spec_mix64;
use crate::hashing::HASH_SEED;
use crate::rgb::spec_rgb_from_hsv;
use crate::rgb::HsvToRgbParts;
use crate::rgb::Rgb;
use crate::FLOAT_ONE;

verus! {

/// An RGB color with alpha; each field is the bit pattern of a 64-bit IEEE
/// value.
#[derive(Clone, Copy, Debug, PartialEq, Eq, Structural, Hash)]
pub struct Rgba {
    pub r: u64,
    pub g: u64,
    pub b: u64,
    pub alpha: u64,
}

impl Rgba {
    /// The bare RGB projection of this color: the alpha channel dropped.
    pub open spec fn spec_rgb(self) -> Rgb {
        Rgb { r: self.r, g: self.g, b: self.b }
    }

    /// The color a canonical `[r, g, b, alpha]` array denotes.
    pub open spec fn spec_from_array(a: Seq<u64>) -> Rgba {
        Rgba { r: a[0], g: a[1], b: a[2], alpha: a[3] }
    }

    /// The canonical `[r, g, b, alpha]` array of this color.
    pub open spec fn spec_to_array(self) -> Seq<u64> {
        seq![self.r, self.g, self.b, self.alpha]
    }

    /// Builds the color from its canonical array, a pure field mapping.
    pub fn from_array(a: [u64; 4]) -> (c: Rgba)
        ensures
            c == Rgba::spec_from_array(a@),
    {
        Rgba { r: a[0], g: a[1], b: a[2], alpha: a[3] }
    }

    /// Extracts the canonical array, a pure field mapping.
    pub fn to_array(self) -> (a: [u64; 4])
        ensures
            a@ == self.spec_to_array(),
    {
        [self.r, self.g, self.b, self.alpha]
    }

    /// The hash of this color: a function of the field bit patterns alone.
    pub open spec fn spec_hash(self) -> u64 {
        spec_mix64(
            spec_mix64(spec_mix64(spec_mix64(HASH_SEED, self.r), self.g), self.b),
            self.alpha,
        )
    }

    /// Hashes the exact bit patterns of the fields, consistent with `==`.
    pub fn hash_value(&self) -> (h: u64)
        ensures
            h == self.spec_hash(),
    {
        mix64(mix64(mix64(mix64(HASH_SEED, self.r), self.g), self.b), self.alpha)
    }

    /// Attaches a fully opaque alpha channel: the color channels pass
    /// through untouched and the alpha is exactly `1.0`.
    pub fn from_rgb(c: Rgb) -> (out: Rgba)
        ensures
            out.r == c.r,
            out.g == c.g,
            out.b == c.b,
            out.alpha == FLOAT_ONE,
    {
        Rgba { r: c.r, g: c.g, b: c.b, alpha: FLOAT_ONE }
    }

    /// Attaches the given alpha channel to a color, untouched.
    pub fn from_parts(c: Rgb, alpha: u64) -> (out: Rgba)
        ensures
            out.r == c.r,
            out.g == c.g,
            out.b == c.b,
            out.alpha == alpha,
    {
        Rgba { r: c.r, g: c.g, b: c.b, alpha }
    }

    /// Assembles the RGB color of an HSV color from the evaluated sextant
    /// arithmetic and attaches a fully opaque alpha channel.
    pub fn from_hsv_parts(m: HsvToRgbParts) -> (out: Rgba)
        ensures
            out.spec_rgb() == spec_rgb_from_hsv(m),
            out.alpha == FLOAT_ONE,
    {
        Rgba::from_rgb(Rgb::from_hsv_parts(m))
    }
}

/// The array round trip is the identity: rebuilding a color from its own
/// canonical array yields the color, bit for bit.
pub proof fn lemma_rgba_array_round_trip(c: Rgba)
    ensures
        Rgba::spec_from_array(c.spec_to_array()) == c,
{
}

/// Conversely, the canonical array of the color an array denotes is that
/// array again, element for element.
pub proof fn lemma_rgba_array_round_trip_rev(a: Seq<u64>)
    requires
        a.len() == 4,
    ensures
        Rgba::spec_from_array(a).spec_to_array() == a,
{
    assert(Rgba::spec_from_array(a).spec_to_array() =~= a);
}

/// Equal colors hash equal: the hash is derived from the bit patterns of
/// the fields, the same fields equality compares.
pub proof fn lemma_rgba_hash_consistent(a: Rgba, b: Rgba)
    requires
        a == b,
    ensures
        a.spec_hash() == b.spec_hash(),
{
}

} // verus!

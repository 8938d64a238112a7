//! Hue/saturation/lightness color with an alpha (opacity) channel.

use vstd::prelude::*;

use crate::hashing::mix64;
use crate::hashing::spec_mix64;
use crate::hashing::HASH_SEED;
use crate::hsl::spec_hsl_from_hsv;
use crate::hsl::spec_hsl_from_rgb;
use crate::hsl::Hsl;
use crate::hsl::HsvToHslParts;
use crate::hsl::RgbToHslParts;
use crate::hsv::Hsv;
use crate::hsva::Hsva;
use crate::rgb::Rgb;
use crate::rgba::Rgba;
use crate::FLOAT_ONE;

verus! {

/// An HSL color with alpha; each field is the bit pattern of a 64-bit IEEE
/// value.
#[derive(Clone, Copy, Debug, PartialEq, Eq, Structural, Hash)]
pub struct Hsla {
    pub h: u64,
    pub s: u64,
    pub l: u64,
    pub alpha: u64,
}

impl Hsla {
    /// The bare HSL projection of this color: the alpha channel dropped.
    pub open spec fn spec_hsl(self) -> Hsl {
        Hsl { h: self.h, s: self.s, l: self.l }
    }

    /// The color a canonical `[h, s, l, alpha]` array denotes. The array
    /// order follows the field declaration order, the same order
    /// `to_array` writes, so the round trip is the identity.
    pub open spec fn spec_from_array(a: Seq<u64>) -> Hsla {
        Hsla { h: a[0], s: a[1], l: a[2], alpha: a[3] }
    }

    /// The canonical `[h, s, l, alpha]` array of this color.
    pub open spec fn spec_to_array(self) -> Seq<u64> {
        seq![self.h, self.s, self.l, self.alpha]
    }

    /// Builds the color from its canonical array, a pure field mapping.
    pub fn from_array(a: [u64; 4]) -> (c: Hsla)
        ensures
            c == Hsla::spec_from_array(a@),
    {
        Hsla { h: a[0], s: a[1], l: a[2], alpha: a[3] }
    }

    /// Extracts the canonical array, a pure field mapping.
    pub fn to_array(self) -> (a: [u64; 4])
        ensures
            a@ == self.spec_to_array(),
    {
        [self.h, self.s, self.l, self.alpha]
    }

    /// The hash of this color: a function of the field bit patterns alone.
    pub open spec fn spec_hash(self) -> u64 {
        spec_mix64(
            spec_mix64(spec_mix64(spec_mix64(HASH_SEED, self.h), self.s), self.l),
            self.alpha,
        )
    }

    /// Hashes the exact bit patterns of the fields, consistent with `==`.
    pub fn hash_value(&self) -> (h: u64)
        ensures
            h == self.spec_hash(),
    {
        mix64(mix64(mix64(mix64(HASH_SEED, self.h), self.s), self.l), self.alpha)
    }

    /// Attaches a fully opaque alpha channel: hue, saturation and lightness
    /// pass through untouched and the alpha is exactly `1.0`.
    pub fn from_hsl(c: Hsl) -> (out: Hsla)
        ensures
            out.h == c.h,
            out.s == c.s,
            out.l == c.l,
            out.alpha == FLOAT_ONE,
    {
        Hsla { h: c.h, s: c.s, l: c.l, alpha: FLOAT_ONE }
    }

    /// Attaches the given alpha channel to a color, untouched.
    pub fn from_parts(c: Hsl, alpha: u64) -> (out: Hsla)
        ensures
            out.h == c.h,
            out.s == c.s,
            out.l == c.l,
            out.alpha == alpha,
    {
        Hsla { h: c.h, s: c.s, l: c.l, alpha }
    }

    /// Assembles the HSL color of an RGB color from the evaluated
    /// arithmetic and attaches a fully opaque alpha channel.
    pub fn from_rgb_parts(c: Rgb, m: RgbToHslParts) -> (out: Hsla)
        ensures
            out.spec_hsl() == spec_hsl_from_rgb(c, m),
            out.alpha == FLOAT_ONE,
    {
        Hsla::from_hsl(Hsl::from_rgb_parts(c, m))
    }

    /// Assembles the HSL color of an RGBA color's bare RGB projection and
    /// carries the source's alpha channel over untouched.
    pub fn from_rgba_parts(c: Rgba, m: RgbToHslParts) -> (out: Hsla)
        ensures
            out.spec_hsl() == spec_hsl_from_rgb(c.spec_rgb(), m),
            out.alpha == c.alpha,
    {
        Hsla::from_parts(Hsl::from_rgba_parts(c, m), c.alpha)
    }

    /// Assembles the HSL color of an HSV color from the evaluated
    /// arithmetic and attaches a fully opaque alpha channel.
    pub fn from_hsv_parts(c: Hsv, m: HsvToHslParts) -> (out: Hsla)
        ensures
            out.spec_hsl() == spec_hsl_from_hsv(c, m),
            out.alpha == FLOAT_ONE,
    {
        Hsla::from_hsl(Hsl::from_hsv_parts(c, m))
    }

    /// Assembles the HSL color of an HSVA color's bare HSV projection and
    /// carries the source's alpha channel over untouched.
    pub fn from_hsva_parts(c: Hsva, m: HsvToHslParts) -> (out: Hsla)
        ensures
            out.spec_hsl() == spec_hsl_from_hsv(c.spec_hsv(), m),
            out.alpha == c.alpha,
    {
        Hsla::from_parts(Hsl::from_hsva_parts(c, m), c.alpha)
    }
}

/// The array round trip is the identity: rebuilding a color from its own
/// canonical array yields the color, bit for bit.
pub proof fn lemma_hsla_array_round_trip(c: Hsla)
    ensures
        Hsla::spec_from_array(c.spec_to_array()) == c,
{
}

/// Conversely, the canonical array of the color an array denotes is that
/// array again, element for element.
pub proof fn lemma_hsla_array_round_trip_rev(a: Seq<u64>)
    requires
        a.len() == 4,
    ensures
        Hsla::spec_from_array(a).spec_to_array() == a,
{
    assert(Hsla::spec_from_array(a).spec_to_array() =~= a);
}

/// Equal colors hash equal: the hash is derived from the bit patterns of
/// the fields, the same fields equality compares.
pub proof fn lemma_hsla_hash_consistent(a: Hsla, b: Hsla)
    requires
        a == b,
    ensures
        a.spec_hash() == b.spec_hash(),
{
}

} // verus!

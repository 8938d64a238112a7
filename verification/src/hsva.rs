//! Hue/saturation/value color with an alpha (opacity) channel.

use vstd::prelude::*;

use crate::hashing::mix64;
use crate::hashing::spec_mix64;
use crate::hashing::HASH_SEED;
use crate::hsl::Hsl;
use crate::hsla::Hsla;
use crate::hsv::spec_hsv_from_hsl;
use crate::hsv::spec_hsv_from_rgb;
use crate::hsv::HslToHsvParts;
use crate::hsv::Hsv;
use crate::hsv::RgbToHsvParts;
use crate::rgb::Rgb;
use crate::rgba::Rgba;
use crate::FLOAT_ONE;

verus! {

/// An HSV color with alpha; each field is the bit pattern of a 64-bit IEEE
/// value.
#[derive(Clone, Copy, Debug, PartialEq, Eq, Structural, Hash)]
pub struct Hsva {
    pub h: u64,
    pub s: u64,
    pub v: u64,
    pub alpha: u64,
}

impl Hsva {
    /// The bare HSV projection of this color: the alpha channel dropped.
    pub open spec fn spec_hsv(self) -> Hsv {
        Hsv { h: self.h, s: self.s, v: self.v }
    }

    /// The color a canonical `[h, s, v, alpha]` array denotes.
    pub open spec fn spec_from_array(a: Seq<u64>) -> Hsva {
        Hsva { h: a[0], s: a[1], v: a[2], alpha: a[3] }
    }

    /// The canonical `[h, s, v, alpha]` array of this color.
    pub open spec fn spec_to_array(self) -> Seq<u64> {
        seq![self.h, self.s, self.v, self.alpha]
    }

    /// Builds the color from its canonical array, a pure field mapping.
    pub fn from_array(a: [u64; 4]) -> (c: Hsva)
        ensures
            c == Hsva::spec_from_array(a@),
    {
        Hsva { h: a[0], s: a[1], v: a[2], alpha: a[3] }
    }

    /// Extracts the canonical array, a pure field mapping.
    pub fn to_array(self) -> (a: [u64; 4])
        ensures
            a@ == self.spec_to_array(),
    {
        [self.h, self.s, self.v, self.alpha]
    }

    /// The hash of this color: a function of the field bit patterns alone.
    pub open spec fn spec_hash(self) -> u64 {
        spec_mix64(
            spec_mix64(spec_mix64(spec_mix64(HASH_SEED, self.h), self.s), self.v),
            self.alpha,
        )
    }

    /// Hashes the exact bit patterns of the fields, consistent with `==`.
    pub fn hash_value(&self) -> (h: u64)
        ensures
            h == self.spec_hash(),
    {
        mix64(mix64(mix64(mix64(HASH_SEED, self.h), self.s), self.v), self.alpha)
    }

    /// Attaches a fully opaque alpha channel: hue, saturation and value
    /// pass through untouched and the alpha is exactly `1.0`.
    pub fn from_hsv(c: Hsv) -> (out: Hsva)
        ensures
            out.h == c.h,
            out.s == c.s,
            out.v == c.v,
            out.alpha == FLOAT_ONE,
    {
        Hsva { h: c.h, s: c.s, v: c.v, alpha: FLOAT_ONE }
    }

    /// Attaches the given alpha channel to a color, untouched.
    pub fn from_parts(c: Hsv, alpha: u64) -> (out: Hsva)
        ensures
            out.h == c.h,
            out.s == c.s,
            out.v == c.v,
            out.alpha == alpha,
    {
        Hsva { h: c.h, s: c.s, v: c.v, alpha }
    }

    /// Assembles the HSV color of an RGB color from the evaluated
    /// arithmetic and attaches a fully opaque alpha channel.
    pub fn from_rgb_parts(c: Rgb, m: RgbToHsvParts) -> (out: Hsva)
        ensures
            out.spec_hsv() == spec_hsv_from_rgb(c, m),
            out.alpha == FLOAT_ONE,
    {
        Hsva::from_hsv(Hsv::from_rgb_parts(c, m))
    }

    /// Assembles the HSV color of an RGBA color's bare RGB projection and
    /// carries the source's alpha channel over untouched.
    pub fn from_rgba_parts(c: Rgba, m: RgbToHsvParts) -> (out: Hsva)
        ensures
            out.spec_hsv() == spec_hsv_from_rgb(c.spec_rgb(), m),
            out.alpha == c.alpha,
    {
        Hsva::from_parts(Hsv::from_rgba_parts(c, m), c.alpha)
    }

    /// Assembles the HSV color of an HSL color from the evaluated
    /// arithmetic and attaches a fully opaque alpha channel.
    pub fn from_hsl_parts(c: Hsl, m: HslToHsvParts) -> (out: Hsva)
        ensures
            out.spec_hsv() == spec_hsv_from_hsl(c, m),
            out.alpha == FLOAT_ONE,
    {
        Hsva::from_hsv(Hsv::from_hsl_parts(c, m))
    }

    /// Assembles the HSV color of an HSLA color's bare HSL projection and
    /// carries the source's alpha channel over untouched.
    pub fn from_hsla_parts(c: Hsla, m: HslToHsvParts) -> (out: Hsva)
        ensures
            out.spec_hsv() == spec_hsv_from_hsl(c.spec_hsl(), m),
            out.alpha == c.alpha,
    {
        Hsva::from_parts(Hsv::from_hsla_parts(c, m), c.alpha)
    }
}

/// The array round trip is the identity: rebuilding a color from its own
/// canonical array yields the color, bit for bit.
pub proof fn lemma_hsva_array_round_trip(c: Hsva)
    ensures
        Hsva::spec_from_array(c.spec_to_array()) == c,
{
}

/// Conversely, the canonical array of the color an array denotes is that
/// array again, element for element.
pub proof fn lemma_hsva_array_round_trip_rev(a: Seq<u64>)
    requires
        a.len() == 4,
    ensures
        Hsva::spec_from_array(a).spec_to_array() == a,
{
    assert(Hsva::spec_from_array(a).spec_to_array() =~= a);
}

/// Equal colors hash equal: the hash is derived from the bit patterns of
/// the fields, the same fields equality compares.
pub proof fn lemma_hsva_hash_consistent(a: Hsva, b: Hsva)
    requires
        a == b,
    ensures
        a.spec_hash() == b.spec_hash(),
{
}

} // verus!

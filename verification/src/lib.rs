//! Color models — RGB, HSL, HSV, each with and without an alpha channel —
//! connected by the standard conversion formulas.
//!
//! Every component of a color is a 64-bit IEEE 754 value carried as its raw
//! bit pattern (`u64`). Equality and hashing are therefore exact, bit for
//! bit, which makes the colors usable as keys of associative containers.
//!
//! IEEE arithmetic itself is outside this crate's reasoning. The embedding
//! program evaluates the straight-line arithmetic of each transform and
//! hands the resulting bit patterns in as a record of measurements; every
//! comparison-driven decision of the transforms — which channel is maximal,
//! whether the chroma or a denominator degenerates, which hue branch and
//! which sextant applies — is made here, verified, and total.

use vstd::prelude::*;

pub mod hashing;
pub mod hsl;
pub mod hsla;
pub mod hsv;
pub mod hsva;
pub mod rgb;
pub mod rgba;
pub mod transform;

pub use hsl::Hsl;
pub use hsla::Hsla;
pub use hsv::Hsv;
pub use hsva::Hsva;
pub use rgb::Rgb;
pub use rgba::Rgba;

verus! {

/// Bit pattern of the IEEE 754 double `0.0`, the hue and saturation of the
/// degenerate branches of the transforms.
pub const FLOAT_ZERO: u64 = 0;

/// Bit pattern of the IEEE 754 double `1.0`, the default opacity given to a
/// color gaining an alpha channel.
pub const FLOAT_ONE: u64 = 0x3FF0_0000_0000_0000;

} // verus!

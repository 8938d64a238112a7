//! Drives the verified transform kernels with real IEEE arithmetic, the way
//! an embedding program does: each helper evaluates the straight-line
//! arithmetic of one transform and hands the bit patterns to the library,
//! which makes every decision.

use sorbet_color::hsl::HsvToHslParts;
use sorbet_color::hsl::RgbToHslParts;
use sorbet_color::hsv::HslToHsvParts;
use sorbet_color::hsv::RgbToHsvParts;
use sorbet_color::rgb::HsvToRgbParts;
use sorbet_color::transform::channel_extremes;
use sorbet_color::transform::ChannelCompare;
use sorbet_color::transform::HueCandidate;
use sorbet_color::Hsl;
use sorbet_color::Hsla;
use sorbet_color::Hsv;
use sorbet_color::Hsva;
use sorbet_color::Rgb;
use sorbet_color::Rgba;
use sorbet_color::FLOAT_ONE;

fn rgb(r: f64, g: f64, b: f64) -> Rgb {
    Rgb { r: r.to_bits(), g: g.to_bits(), b: b.to_bits() }
}

fn hsl(h: f64, s: f64, l: f64) -> Hsl {
    Hsl { h: h.to_bits(), s: s.to_bits(), l: l.to_bits() }
}

fn hsv(h: f64, s: f64, v: f64) -> Hsv {
    Hsv { h: h.to_bits(), s: s.to_bits(), v: v.to_bits() }
}

fn compare(r: f64, g: f64, b: f64) -> ChannelCompare {
    ChannelCompare {
        r_ge_g: r >= g,
        r_ge_b: r >= b,
        g_ge_b: g >= b,
        r_le_g: r <= g,
        r_le_b: r <= b,
        g_le_b: g <= b,
    }
}

fn candidate(raw: f64) -> HueCandidate {
    HueCandidate { raw: raw.to_bits(), is_negative: raw < 0.0, wrapped: (raw + 360.0).to_bits() }
}

fn rgb_to_hsv_parts(r: f64, g: f64, b: f64) -> RgbToHsvParts {
    let cmp = compare(r, g, b);
    let e = channel_extremes(r.to_bits(), g.to_bits(), b.to_bits(), cmp);
    let xmax = f64::from_bits(e.xmax);
    let xmin = f64::from_bits(e.xmin);
    let c = xmax - xmin;
    RgbToHsvParts {
        compare: cmp,
        chroma_is_zero: c == 0.0,
        hue_red: candidate(60.0 * ((g - b) / c)),
        hue_green: candidate(60.0 * ((b - r) / c + 2.0)),
        hue_blue: candidate(60.0 * ((r - g) / c + 4.0)),
        max_is_zero: xmax == 0.0,
        sat_ratio: (c / xmax).to_bits(),
    }
}

fn rgb_to_hsl_parts(r: f64, g: f64, b: f64) -> RgbToHslParts {
    let cmp = compare(r, g, b);
    let e = channel_extremes(r.to_bits(), g.to_bits(), b.to_bits(), cmp);
    let xmax = f64::from_bits(e.xmax);
    let xmin = f64::from_bits(e.xmin);
    let c = xmax - xmin;
    let l = (xmax + xmin) / 2.0;
    RgbToHslParts {
        compare: cmp,
        chroma_is_zero: c == 0.0,
        hue_red: candidate(60.0 * ((g - b) / c)),
        hue_green: candidate(60.0 * ((b - r) / c + 2.0)),
        hue_blue: candidate(60.0 * ((r - g) / c + 4.0)),
        lightness: l.to_bits(),
        lightness_is_zero: l == 0.0,
        lightness_is_one: l == 1.0,
        sat_ratio: (c / (1.0 - (2.0 * l - 1.0).abs())).to_bits(),
    }
}

fn hsl_to_hsv_parts(s: f64, l: f64) -> HslToHsvParts {
    let v = l + s * l.min(1.0 - l);
    HslToHsvParts {
        value: v.to_bits(),
        value_is_zero: v == 0.0,
        sat: (2.0 * (1.0 - l / v)).to_bits(),
    }
}

fn hsv_to_hsl_parts(s: f64, v: f64) -> HsvToHslParts {
    let l = v * (1.0 - s / 2.0);
    HsvToHslParts {
        lightness: l.to_bits(),
        lightness_is_zero: l == 0.0,
        lightness_is_one: l == 1.0,
        sat_ratio: ((v - l) / l.min(1.0 - l)).to_bits(),
    }
}

fn hsv_to_rgb_parts(h: f64, s: f64, v: f64) -> HsvToRgbParts {
    let c = v * s;
    let hp = h / 60.0;
    let x = c * (1.0 - ((hp % 2.0) - 1.0).abs());
    let m = v - c;
    HsvToRgbParts {
        below_one: hp < 1.0,
        below_two: hp < 2.0,
        below_three: hp < 3.0,
        below_four: hp < 4.0,
        below_five: hp < 5.0,
        full: (c + m).to_bits(),
        mid: (x + m).to_bits(),
        base: m.to_bits(),
    }
}

fn hsv_from_rgb(r: f64, g: f64, b: f64) -> Hsv {
    Hsv::from_rgb_parts(rgb(r, g, b), rgb_to_hsv_parts(r, g, b))
}

fn hsl_from_rgb(r: f64, g: f64, b: f64) -> Hsl {
    Hsl::from_rgb_parts(rgb(r, g, b), rgb_to_hsl_parts(r, g, b))
}

fn hsv_from_hsl(c: Hsl) -> Hsv {
    Hsv::from_hsl_parts(c, hsl_to_hsv_parts(f64::from_bits(c.s), f64::from_bits(c.l)))
}

fn hsl_from_hsv(c: Hsv) -> Hsl {
    Hsl::from_hsv_parts(c, hsv_to_hsl_parts(f64::from_bits(c.s), f64::from_bits(c.v)))
}

fn rgb_from_hsv(c: Hsv) -> Rgb {
    Rgb::from_hsv_parts(hsv_to_rgb_parts(
        f64::from_bits(c.h),
        f64::from_bits(c.s),
        f64::from_bits(c.v),
    ))
}

#[test]
fn hue_of_pure_red_is_zero() {
    assert_eq!(hsv_from_rgb(1.0, 0.0, 0.0), hsv(0.0, 1.0, 1.0));
}

#[test]
fn hue_of_pure_green_is_120() {
    assert_eq!(hsv_from_rgb(0.0, 1.0, 0.0), hsv(120.0, 1.0, 1.0));
}

#[test]
fn hue_of_pure_blue_is_240() {
    assert_eq!(hsv_from_rgb(0.0, 0.0, 1.0), hsv(240.0, 1.0, 1.0));
}

#[test]
fn negative_hue_wraps_into_range() {
    // r maximal with b > g gives a negative raw hue, wrapped once upward.
    let out = hsv_from_rgb(1.0, 0.0, 0.5);
    assert_eq!(f64::from_bits(out.h), 330.0);
}

#[test]
fn black_degenerates_to_zero_saturation_and_value() {
    assert_eq!(hsv_from_rgb(0.0, 0.0, 0.0), hsv(0.0, 0.0, 0.0));
}

#[test]
fn white_has_zero_chroma_and_full_value() {
    assert_eq!(hsv_from_rgb(1.0, 1.0, 1.0), hsv(0.0, 0.0, 1.0));
}

#[test]
fn white_hsl_gives_full_value_hsv() {
    assert_eq!(hsv_from_hsl(hsl(0.0, 0.0, 1.0)), hsv(0.0, 0.0, 1.0));
}

#[test]
fn hsl_of_pure_green_is_half_light() {
    assert_eq!(hsl_from_rgb(0.0, 1.0, 0.0), hsl(120.0, 1.0, 0.5));
}

#[test]
fn hsl_and_hsv_derive_the_same_hue() {
    for &(r, g, b) in
        &[(0.2, 0.4, 0.8), (0.9, 0.1, 0.3), (1.0, 0.0, 0.5), (0.5, 0.5, 0.25), (0.0, 0.7, 0.7)]
    {
        assert_eq!(hsv_from_rgb(r, g, b).h, hsl_from_rgb(r, g, b).h);
    }
}

#[test]
fn hsv_to_rgb_covers_every_sextant() {
    assert_eq!(rgb_from_hsv(hsv(30.0, 1.0, 1.0)), rgb(1.0, 0.5, 0.0));
    assert_eq!(rgb_from_hsv(hsv(90.0, 1.0, 1.0)), rgb(0.5, 1.0, 0.0));
    assert_eq!(rgb_from_hsv(hsv(150.0, 1.0, 1.0)), rgb(0.0, 1.0, 0.5));
    assert_eq!(rgb_from_hsv(hsv(210.0, 1.0, 1.0)), rgb(0.0, 0.5, 1.0));
    assert_eq!(rgb_from_hsv(hsv(270.0, 1.0, 1.0)), rgb(0.5, 0.0, 1.0));
    assert_eq!(rgb_from_hsv(hsv(330.0, 1.0, 1.0)), rgb(1.0, 0.0, 0.5));
}

#[test]
fn hsv_and_hsl_invert_each_other_on_pure_green() {
    let v = hsv(120.0, 1.0, 1.0);
    let l = hsl_from_hsv(v);
    assert_eq!(l, hsl(120.0, 1.0, 0.5));
    assert_eq!(hsv_from_hsl(l), v);
}

#[test]
fn hsv_to_hsl_degenerates_at_full_lightness() {
    assert_eq!(hsl_from_hsv(hsv(0.0, 0.0, 1.0)), hsl(0.0, 0.0, 1.0));
}

#[test]
fn rgb_hsv_round_trip_within_tolerance() {
    for &(r, g, b) in &[
        (0.2, 0.4, 0.8),
        (0.9, 0.1, 0.3),
        (0.5, 0.5, 0.25),
        (0.0, 0.7, 0.7),
        (1.0, 0.0, 0.0),
        (0.31, 0.77, 0.13),
    ] {
        let first = hsv_from_rgb(r, g, b);
        let back = rgb_from_hsv(first);
        let second =
            hsv_from_rgb(f64::from_bits(back.r), f64::from_bits(back.g), f64::from_bits(back.b));
        assert!((f64::from_bits(first.h) - f64::from_bits(second.h)).abs() < 1e-9);
        assert!((f64::from_bits(first.s) - f64::from_bits(second.s)).abs() < 1e-9);
        assert!((f64::from_bits(first.v) - f64::from_bits(second.v)).abs() < 1e-9);
    }
}

#[test]
fn rgb_hsl_round_trip_within_tolerance() {
    for &(r, g, b) in &[(0.2, 0.4, 0.8), (0.9, 0.1, 0.3), (0.5, 0.5, 0.25), (0.31, 0.77, 0.13)] {
        let first = hsl_from_rgb(r, g, b);
        let back = rgb_from_hsv(hsv_from_hsl(first));
        let second =
            hsl_from_rgb(f64::from_bits(back.r), f64::from_bits(back.g), f64::from_bits(back.b));
        assert!((f64::from_bits(first.h) - f64::from_bits(second.h)).abs() < 1e-9);
        assert!((f64::from_bits(first.s) - f64::from_bits(second.s)).abs() < 1e-9);
        assert!((f64::from_bits(first.l) - f64::from_bits(second.l)).abs() < 1e-9);
    }
}

#[test]
fn gaining_an_alpha_channel_defaults_it_to_one() {
    let c = rgb(0.2, 0.4, 0.8);
    assert_eq!(Rgba::from_rgb(c).alpha, FLOAT_ONE);
    let l = hsl(210.0, 0.5, 0.25);
    assert_eq!(Hsla::from_hsl(l).alpha, FLOAT_ONE);
    let v = hsv(210.0, 0.5, 0.25);
    assert_eq!(Hsva::from_hsv(v).alpha, FLOAT_ONE);
    assert_eq!(Hsva::from_rgb_parts(c, rgb_to_hsv_parts(0.2, 0.4, 0.8)).alpha, FLOAT_ONE);
    assert_eq!(Hsla::from_rgb_parts(c, rgb_to_hsl_parts(0.2, 0.4, 0.8)).alpha, FLOAT_ONE);
}

#[test]
fn dropping_the_alpha_channel_keeps_every_other_field() {
    let c = Rgba {
        r: 0.2f64.to_bits(),
        g: 0.4f64.to_bits(),
        b: 0.8f64.to_bits(),
        alpha: 0.5f64.to_bits(),
    };
    assert_eq!(Rgb::from_rgba(c), rgb(0.2, 0.4, 0.8));
    let la = Hsla {
        h: 210.0f64.to_bits(),
        s: 0.5f64.to_bits(),
        l: 0.25f64.to_bits(),
        alpha: 0.5f64.to_bits(),
    };
    assert_eq!(Hsl::from_hsla(la), hsl(210.0, 0.5, 0.25));
    let va = Hsva {
        h: 210.0f64.to_bits(),
        s: 0.5f64.to_bits(),
        v: 0.25f64.to_bits(),
        alpha: 0.5f64.to_bits(),
    };
    assert_eq!(Hsv::from_hsva(va), hsv(210.0, 0.5, 0.25));
}

#[test]
fn alpha_sources_transform_like_their_bare_projection() {
    let with_alpha = Rgba {
        r: 0.9f64.to_bits(),
        g: 0.1f64.to_bits(),
        b: 0.3f64.to_bits(),
        alpha: 0.5f64.to_bits(),
    };
    let direct = hsv_from_rgb(0.9, 0.1, 0.3);
    assert_eq!(Hsv::from_rgba_parts(with_alpha, rgb_to_hsv_parts(0.9, 0.1, 0.3)), direct);
    let carried = Hsva::from_rgba_parts(with_alpha, rgb_to_hsv_parts(0.9, 0.1, 0.3));
    assert_eq!(carried.alpha, 0.5f64.to_bits());
    assert_eq!(Hsv::from_hsva(carried), direct);
}

#[test]
fn rgba_from_hsv_is_opaque_and_matches_rgb() {
    let v = hsv(210.0, 1.0, 1.0);
    let out = Rgba::from_hsv_parts(hsv_to_rgb_parts(210.0, 1.0, 1.0));
    assert_eq!(out.alpha, FLOAT_ONE);
    assert_eq!(Rgb { r: out.r, g: out.g, b: out.b }, rgb_from_hsv(v));
    let carried = Rgba::from_parts(rgb_from_hsv(v), 0.5f64.to_bits());
    assert_eq!(carried.alpha, 0.5f64.to_bits());
}

#[test]
fn hsl_and_hsla_from_alpha_bearing_sources() {
    let source = Rgba {
        r: 0.2f64.to_bits(),
        g: 0.4f64.to_bits(),
        b: 0.8f64.to_bits(),
        alpha: 0.75f64.to_bits(),
    };
    let direct = hsl_from_rgb(0.2, 0.4, 0.8);
    assert_eq!(Hsl::from_rgba_parts(source, rgb_to_hsl_parts(0.2, 0.4, 0.8)), direct);
    let la = Hsla::from_rgba_parts(source, rgb_to_hsl_parts(0.2, 0.4, 0.8));
    assert_eq!(la.alpha, 0.75f64.to_bits());
    assert_eq!(Hsl::from_hsla(la), direct);

    let va = Hsva {
        h: 120.0f64.to_bits(),
        s: 1.0f64.to_bits(),
        v: 1.0f64.to_bits(),
        alpha: 0.25f64.to_bits(),
    };
    let bare = hsv(120.0, 1.0, 1.0);
    let from_va = Hsla::from_hsva_parts(va, hsv_to_hsl_parts(1.0, 1.0));
    assert_eq!(from_va.alpha, 0.25f64.to_bits());
    assert_eq!(Hsl::from_hsla(from_va), hsl_from_hsv(bare));
    let opaque = Hsla::from_hsv_parts(bare, hsv_to_hsl_parts(1.0, 1.0));
    assert_eq!(opaque.alpha, FLOAT_ONE);
}

#[test]
fn hsva_from_hsl_is_opaque_and_matches_hsv() {
    let l = hsl(120.0, 1.0, 0.5);
    let out = Hsva::from_hsl_parts(l, hsl_to_hsv_parts(1.0, 0.5));
    assert_eq!(out.alpha, FLOAT_ONE);
    assert_eq!(Hsv::from_hsva(out), hsv_from_hsl(l));
}

#[test]
fn hsla_transforms_carry_alpha_through_hsl() {
    let source = Hsla {
        h: 120.0f64.to_bits(),
        s: 1.0f64.to_bits(),
        l: 0.5f64.to_bits(),
        alpha: 0.25f64.to_bits(),
    };
    let bare = Hsl::from_hsla(source);
    let parts = hsl_to_hsv_parts(1.0, 0.5);
    let out = Hsva::from_hsla_parts(source, parts);
    assert_eq!(out.alpha, 0.25f64.to_bits());
    assert_eq!(Hsv::from_hsva(out), hsv_from_hsl(bare));
}

//! The HSV color model of the picker. Hue, saturation and value arise from
//! integer pixel coordinates, so they are carried as exact fractions and the
//! conversion to RGB is computed in exact integer arithmetic: channel bytes
//! come out truncated, the way a float conversion truncates them.

use vstd::prelude::*;

use crate::geometry::Color;

verus! {

/// A hue on the color wheel, as the exact fraction `num / den` degrees,
/// kept in `[0, 360)`.
#[derive(Clone, Copy, Debug, PartialEq, Eq, Structural)]
pub struct Hue {
    pub num: u32,
    pub den: u32,
}

impl Hue {
    /// A hue denominator is a canvas extent: positive and at most 0xFFFF.
    pub open spec fn wf(self) -> bool {
        1 <= self.den <= 0xFFFF && self.num < 360 * self.den
    }

    /// A whole number of degrees.
    pub fn from_degrees(degrees: u32) -> (h: Hue)
        requires
            degrees < 360,
        ensures
            h.wf(),
            h.num == degrees,
            h.den == 1,
    {
        Hue { num: degrees, den: 1 }
    }

    /// The hue selected by a click at `x` on a hue bar of the given width:
    /// `x` maps linearly onto `[0, 360)` degrees, and a click at or past the
    /// right edge clamps just below 360.
    pub fn from_bar_position(x: u32, width: u32) -> (h: Hue)
        requires
            1 <= width <= 0xFFFF,
        ensures
            h.wf(),
            h == spec_bar_hue(x as int, width as int),
    {
        if x < width {
            Hue { num: 360 * x, den: width }
        } else {
            Hue { num: 360 * width - 1, den: width }
        }
    }
}

/// The hue a click at `x` on a bar of the given width selects.
pub open spec fn spec_bar_hue(x: int, width: int) -> Hue {
    if x < width {
        Hue { num: (360 * x) as u32, den: width as u32 }
    } else {
        Hue { num: (360 * width - 1) as u32, den: width as u32 }
    }
}

/// A saturation or value in `[0, 1]`, as the exact fraction `num / den`.
#[derive(Clone, Copy, Debug, PartialEq, Eq, Structural)]
pub struct Frac {
    pub num: u32,
    pub den: u32,
}

impl Frac {
    /// A fraction denominator is a canvas extent: positive and at most
    /// 0xFFFF.
    pub open spec fn wf(self) -> bool {
        1 <= self.den <= 0xFFFF && self.num <= self.den
    }

    pub fn new(num: u32, den: u32) -> (f: Frac)
        requires
            1 <= den <= 0xFFFF,
            num <= den,
        ensures
            f.wf(),
            f.num == num,
            f.den == den,
    {
        Frac { num, den }
    }

    /// The whole fraction, `1 / 1`.
    pub fn one() -> (f: Frac)
        ensures
            f.wf(),
            f.num == 1,
            f.den == 1,
    {
        Frac { num: 1, den: 1 }
    }
}

/// One RGB channel byte from a channel value scaled by the common
/// denominator `d`: the byte is `chan / d` of full intensity 255, truncated
/// toward zero.
pub open spec fn spec_channel_byte(chan: int, d: int) -> u8 {
    (((chan * 255) / d)) as u8
}

/// The standard HSV-to-RGB conversion, in exact rational arithmetic. With
/// the hue split into a sextant of the color wheel and a remainder, the
/// chroma, the secondary channel and the match term are formed over the
/// common denominator `60 * h.den * s.den * v.den`, and each channel byte
/// is truncated from its exact fraction of 255.
pub open spec fn spec_hsv_to_rgb(h: Hue, s: Frac, v: Frac) -> Color {
    let hn = h.num as int;
    let hd = h.den as int;
    let sn = s.num as int;
    let sd = s.den as int;
    let vn = v.num as int;
    let vd = v.den as int;
    let sixty_hd = 60 * hd;
    let sextant = hn / sixty_hd;
    let rem = hn % sixty_hd;
    let d = sixty_hd * sd * vd;
    let c = sixty_hd * vn * sn;
    let x = if sextant % 2 == 0 {
        vn * sn * rem
    } else {
        vn * sn * (sixty_hd - rem)
    };
    let m = sixty_hd * vn * (sd - sn);
    let rgb1 = if sextant == 0 {
        (c, x, 0int)
    } else if sextant == 1 {
        (x, c, 0int)
    } else if sextant == 2 {
        (0int, c, x)
    } else if sextant == 3 {
        (0int, x, c)
    } else if sextant == 4 {
        (x, 0int, c)
    } else {
        (c, 0int, x)
    };
    Color(
        spec_channel_byte(rgb1.0 + m, d),
        spec_channel_byte(rgb1.1 + m, d),
        spec_channel_byte(rgb1.2 + m, d),
    )
}

/// Converts a hue, saturation and value to the RGB color a canvas pixel
/// takes, in exact integer arithmetic.
pub fn hsv_to_rgb(hue: Hue, saturation: Frac, value: Frac) -> (rgb: Color)
    requires
        hue.wf(),
        saturation.wf(),
        value.wf(),
    ensures
        rgb == spec_hsv_to_rgb(hue, saturation, value),
{
    let hn = hue.num as u64;
    let hd = hue.den as u64;
    let sn = saturation.num as u64;
    let sd = saturation.den as u64;
    let vn = value.num as u64;
    let vd = value.den as u64;
    let sixty_hd = 60 * hd;
    let sextant = hn / sixty_hd;
    let rem = hn % sixty_hd;
    let rem_to_edge = sixty_hd - rem;
    let s_gap = sd - sn;
    proof {
        lemma_mul_wide_narrow_narrow(sixty_hd, sd, vd);
        lemma_mul_wide_narrow_narrow(sixty_hd, vn, sn);
        lemma_mul_narrow_narrow_wide(vn, sn, rem);
        lemma_mul_narrow_narrow_wide(vn, sn, rem_to_edge);
        lemma_mul_wide_narrow_narrow(sixty_hd, vn, s_gap);
        assert(sixty_hd * sd * vd >= 1) by (nonlinear_arith)
            requires
                sixty_hd >= 60,
                sd >= 1,
                vd >= 1,
        ;
    }
    let d = sixty_hd * sd * vd;
    let c = sixty_hd * vn * sn;
    let x = if sextant % 2 == 0 {
        vn * sn * rem
    } else {
        vn * sn * rem_to_edge
    };
    let m = sixty_hd * vn * s_gap;
    let rgb1: (u64, u64, u64) = if sextant == 0 {
        (c, x, 0)
    } else if sextant == 1 {
        (x, c, 0)
    } else if sextant == 2 {
        (0, c, x)
    } else if sextant == 3 {
        (0, x, c)
    } else if sextant == 4 {
        (x, 0, c)
    } else {
        (c, 0, x)
    };
    let r = ((rgb1.0 + m) * 255) / d;
    let g = ((rgb1.1 + m) * 255) / d;
    let b = ((rgb1.2 + m) * 255) / d;
    Color(r as u8, g as u8, b as u8)
}

/// A factor bounded by sixty canvas extents times two factors bounded by
/// one canvas extent stay well within a 64-bit word, with room to scale the
/// result by 255 and add another such term.
proof fn lemma_mul_wide_narrow_narrow(a: u64, b: u64, c: u64)
    requires
        a <= 0x3C_0000,  // 60 * 0x1_0000
        b <= 0x1_0000,
        c <= 0x1_0000,
    ensures
        a * b <= 0x3C_0000_0000,
        a * b * c <= 0x3C_0000_0000_0000,
{
    assert(a * b <= 0x3C_0000_0000 && a * b * c <= 0x3C_0000_0000_0000) by (nonlinear_arith)
        requires
            a <= 0x3C_0000,
            b <= 0x1_0000,
            c <= 0x1_0000,
    ;
}

/// As above, with the wide factor last.
proof fn lemma_mul_narrow_narrow_wide(a: u64, b: u64, c: u64)
    requires
        a <= 0x1_0000,
        b <= 0x1_0000,
        c <= 0x3C_0000,
    ensures
        a * b <= 0x1_0000_0000,
        a * b * c <= 0x3C_0000_0000_0000,
{
    assert(a * b <= 0x1_0000_0000 && a * b * c <= 0x3C_0000_0000_0000) by (nonlinear_arith)
        requires
            a <= 0x1_0000,
            b <= 0x1_0000,
            c <= 0x3C_0000,
    ;
}

} // verus!

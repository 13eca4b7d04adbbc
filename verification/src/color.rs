//! RGB colours with fixed-point interpolation and saturating arithmetic.

use vstd::prelude::*;

verus! {

/// The fixed-point representation of 1.0: values are counted in millionths.
pub const UNIT: i32 = 1_000_000;

/// An opaque colour with eight bits per channel.
#[derive(Clone, Copy, Debug, PartialEq, Eq, Structural)]
pub struct Color {
    pub r: u8,
    pub g: u8,
    pub b: u8,
}

/// `t` limited to the closed interval from 0 to `UNIT`.
pub open spec fn clamp_unit(t: int) -> int {
    if t < 0 {
        0
    } else if t > UNIT {
        UNIT as int
    } else {
        t
    }
}

/// The channel value that lies the fraction `t / UNIT` of the way from `a`
/// to `b`, rounded to the nearest integer with halves rounded up.
pub open spec fn mix(a: int, b: int, t: int) -> int {
    (a * (UNIT - t) + b * t + UNIT / 2) / (UNIT as int)
}

/// The channel value `c` multiplied by `f / UNIT`, rounded to the nearest
/// integer and limited to the displayable range. A negative factor gives 0.
pub open spec fn scaled(c: int, f: int) -> int {
    if f <= 0 {
        0
    } else if (c * f + UNIT / 2) / (UNIT as int) > 255 {
        255
    } else {
        (c * f + UNIT / 2) / (UNIT as int)
    }
}

/// The sum of two channel values, limited to the displayable range.
pub open spec fn saturated(a: int, b: int) -> int {
    if a + b > 255 {
        255
    } else {
        a + b
    }
}

/// A weighted sum of two channel values stays between them.
pub proof fn lemma_mix_bounds(a: int, b: int, t: int)
    requires
        0 <= a <= 255,
        0 <= b <= 255,
        0 <= t <= UNIT,
    ensures
        a <= b ==> a <= mix(a, b, t) <= b,
        b <= a ==> b <= mix(a, b, t) <= a,
        0 <= a * (UNIT - t) + b * t <= 255 * UNIT,
        0 <= a * (UNIT - t) <= 255 * UNIT,
        0 <= b * t <= 255 * UNIT,
{
    let u = UNIT as int;
    let s = a * (u - t) + b * t;
    assert(0 <= a * (u - t) <= 255 * u) by (nonlinear_arith)
        requires
            0 <= a <= 255,
            0 <= t <= u,
            u > 0,
    ;
    assert(0 <= b * t <= 255 * u) by (nonlinear_arith)
        requires
            0 <= b <= 255,
            0 <= t <= u,
            u > 0,
    ;
    assert(a <= b ==> a * u <= s <= b * u) by (nonlinear_arith)
        requires
            0 <= a <= 255,
            0 <= b <= 255,
            0 <= t <= u,
            s == a * (u - t) + b * t,
    ;
    assert(b <= a ==> b * u <= s <= a * u) by (nonlinear_arith)
        requires
            0 <= a <= 255,
            0 <= b <= 255,
            0 <= t <= u,
            s == a * (u - t) + b * t,
    ;
}

fn mix_channel(a: u8, b: u8, t: i32) -> (m: u8)
    requires
        0 <= t <= UNIT,
    ensures
        m == mix(a as int, b as int, t as int),
{
    proof {
        lemma_mix_bounds(a as int, b as int, t as int);
    }
    let unit: i64 = UNIT as i64;
    let from: i64 = (a as i64) * (unit - t as i64);
    let to: i64 = (b as i64) * (t as i64);
    let total: i64 = from + to + unit / 2;
    (total / unit) as u8
}

fn scale_channel(c: u8, f: i32) -> (m: u8)
    ensures
        m == scaled(c as int, f as int),
{
    if f <= 0 {
        return 0;
    }
    assert(0 <= (c as int) * (f as int) <= 255 * 0x7fff_ffff) by (nonlinear_arith)
        requires
            0 <= c <= 255,
            0 < f <= 0x7fff_ffff,
    ;
    let unit: i64 = UNIT as i64;
    let product: i64 = (c as i64) * (f as i64);
    let rounded: i64 = (product + unit / 2) / unit;
    if rounded > 255 {
        255
    } else {
        rounded as u8
    }
}

fn saturate_channel(a: u8, b: u8) -> (m: u8)
    ensures
        m == saturated(a as int, b as int),
{
    let sum: u16 = a as u16 + b as u16;
    if sum > 255 {
        255
    } else {
        sum as u8
    }
}

impl Color {
    /// What `lerp` returns: each channel mixed with the weight limited to
    /// the range from 0 to `UNIT`.
    pub open spec fn spec_lerp(self, other: Color, t: int) -> Color {
        Color {
            r: mix(self.r as int, other.r as int, clamp_unit(t)) as u8,
            g: mix(self.g as int, other.g as int, clamp_unit(t)) as u8,
            b: mix(self.b as int, other.b as int, clamp_unit(t)) as u8,
        }
    }

    /// What `scale` returns.
    pub open spec fn spec_scale(self, f: int) -> Color {
        Color {
            r: scaled(self.r as int, f) as u8,
            g: scaled(self.g as int, f) as u8,
            b: scaled(self.b as int, f) as u8,
        }
    }

    /// What `saturating_add` returns.
    pub open spec fn spec_saturating_add(self, other: Color) -> Color {
        Color {
            r: saturated(self.r as int, other.r as int) as u8,
            g: saturated(self.g as int, other.g as int) as u8,
            b: saturated(self.b as int, other.b as int) as u8,
        }
    }

    /// The packed form `0xRRGGBB` as a number.
    pub open spec fn spec_hex(self) -> int {
        self.r * 65536 + self.g * 256 + self.b
    }

    /// The colour with the given channels.
    pub fn new(r: u8, g: u8, b: u8) -> (c: Color)
        ensures
            c == (Color { r, g, b }),
    {
        Color { r, g, b }
    }

    /// Black, the colour of an empty frame.
    pub fn black() -> (c: Color)
        ensures
            c == (Color { r: 0, g: 0, b: 0 }),
    {
        Color { r: 0, g: 0, b: 0 }
    }

    /// Unpacks `0xRRGGBB`; bits above the 24th are ignored.
    pub fn from_hex(hex: u32) -> (c: Color)
        ensures
            c.r == (hex / 65536) % 256,
            c.g == (hex / 256) % 256,
            c.b == hex % 256,
    {
        Color {
            r: ((hex / 65536) % 256) as u8,
            g: ((hex / 256) % 256) as u8,
            b: (hex % 256) as u8,
        }
    }

    /// Packs the colour as `0xRRGGBB`.
    pub fn to_hex(&self) -> (hex: u32)
        ensures
            hex == self.spec_hex(),
            hex <= 0xff_ffff,
    {
        (self.r as u32) * 65536 + (self.g as u32) * 256 + self.b as u32
    }

    /// Linear interpolation towards `other`. The weight `t` is in
    /// millionths and is limited to the range from 0 to `UNIT` first, so a
    /// weight outside that range gives one of the two endpoints.
    pub fn lerp(&self, other: &Color, t: i32) -> (c: Color)
        ensures
            c == self.spec_lerp(*other, t as int),
            t <= 0 ==> c == *self,
            t >= UNIT ==> c == *other,
    {
        let w: i32 = if t < 0 {
            0
        } else if t > UNIT {
            UNIT
        } else {
            t
        };
        proof {
            lemma_mix_bounds(self.r as int, other.r as int, w as int);
            lemma_mix_bounds(self.g as int, other.g as int, w as int);
            lemma_mix_bounds(self.b as int, other.b as int, w as int);
            lemma_lerp_endpoints(*self, *other);
        }
        Color {
            r: mix_channel(self.r, other.r, w),
            g: mix_channel(self.g, other.g, w),
            b: mix_channel(self.b, other.b, w),
        }
    }

    /// Multiplies every channel by `factor / UNIT`, rounding to nearest and
    /// stopping at 255. A factor of zero or less gives black.
    pub fn scale(&self, factor: i32) -> (c: Color)
        ensures
            c == self.spec_scale(factor as int),
    {
        proof {
            lemma_scaled_range(self.r as int, factor as int);
            lemma_scaled_range(self.g as int, factor as int);
            lemma_scaled_range(self.b as int, factor as int);
        }
        Color {
            r: scale_channel(self.r, factor),
            g: scale_channel(self.g, factor),
            b: scale_channel(self.b, factor),
        }
    }

    /// Adds channel by channel, stopping at 255.
    pub fn saturating_add(&self, other: &Color) -> (c: Color)
        ensures
            c == self.spec_saturating_add(*other),
    {
        Color {
            r: saturate_channel(self.r, other.r),
            g: saturate_channel(self.g, other.g),
            b: saturate_channel(self.b, other.b),
        }
    }
}

/// A scaled channel is a channel value again; a factor of one leaves it as
/// it is and a smaller one does not brighten it.
pub proof fn lemma_scaled_range(c: int, f: int)
    requires
        0 <= c <= 255,
    ensures
        0 <= scaled(c, f) <= 255,
        f == UNIT ==> scaled(c, f) == c,
        f <= UNIT ==> scaled(c, f) <= c,
{
    if f > 0 {
        assert(c * f >= 0) by (nonlinear_arith)
            requires
                c >= 0,
                f > 0,
        ;
    }
    if f == UNIT {
        assert(c * f == c * 1_000_000);
    }
    if 0 < f <= UNIT {
        assert(c * f <= c * 1_000_000) by (nonlinear_arith)
            requires
                c >= 0,
                f <= 1_000_000,
        ;
    }
}

/// Interpolation returns its first colour at weight 0 and its second at
/// weight `UNIT`, for all colours.
pub proof fn lemma_lerp_endpoints(a: Color, b: Color)
    ensures
        a.spec_lerp(b, 0) == a,
        a.spec_lerp(b, UNIT as int) == b,
        forall|t: int| t <= 0 ==> #[trigger] a.spec_lerp(b, t) == a,
        forall|t: int| t >= UNIT ==> #[trigger] a.spec_lerp(b, t) == b,
{
    lemma_mix_ends(a.r as int, b.r as int);
    lemma_mix_ends(a.g as int, b.g as int);
    lemma_mix_ends(a.b as int, b.b as int);
}

/// `mix` at the two ends of the weight range.
pub proof fn lemma_mix_ends(a: int, b: int)
    requires
        0 <= a <= 255,
        0 <= b <= 255,
    ensures
        mix(a, b, 0) == a,
        mix(a, b, UNIT as int) == b,
{
    let u = UNIT as int;
    assert(a * (u - 0) == a * u);
    assert(b * 0 == 0);
    assert(a * (u - u) == 0);
}

/// Every interpolated channel lies between the channels it was mixed from.
pub proof fn lemma_lerp_between(a: Color, b: Color, t: int)
    ensures
        a.r <= b.r ==> a.r <= a.spec_lerp(b, t).r <= b.r,
        b.r <= a.r ==> b.r <= a.spec_lerp(b, t).r <= a.r,
        a.g <= b.g ==> a.g <= a.spec_lerp(b, t).g <= b.g,
        b.g <= a.g ==> b.g <= a.spec_lerp(b, t).g <= a.g,
        a.b <= b.b ==> a.b <= a.spec_lerp(b, t).b <= b.b,
        b.b <= a.b ==> b.b <= a.spec_lerp(b, t).b <= a.b,
{
    lemma_mix_bounds(a.r as int, b.r as int, clamp_unit(t));
    lemma_mix_bounds(a.g as int, b.g as int, clamp_unit(t));
    lemma_mix_bounds(a.b as int, b.b as int, clamp_unit(t));
}

/// Packing a colour and unpacking the number gives the colour back.
pub proof fn lemma_hex_round_trip(c: Color)
    ensures
        0 <= c.spec_hex() <= 0xff_ffff,
        (c.spec_hex() / 65536) % 256 == c.r,
        (c.spec_hex() / 256) % 256 == c.g,
        c.spec_hex() % 256 == c.b,
{
}

} // verus!

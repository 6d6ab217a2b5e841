use vstd::prelude::*;

use crate::fraction::Fraction;
use crate::scale::{clamp, ValueScale};

verus! {

/// A colour given by its red, green and blue channels.
#[derive(Clone, Copy, Debug, PartialEq, Eq, Structural)]
pub struct Rgb {
    pub r: u8,
    pub g: u8,
    pub b: u8,
}

/// The colour space in which two colours are blended.
#[derive(Clone, Copy, Debug, PartialEq, Eq, Structural)]
pub enum ColorSpace {
    Oklab,
    HslShorterHue,
}

/// A blend of `high` and `low` in `space`. `fraction` (between 0 and 1)
/// is how far the value sits from the top of its scale, so `high` takes
/// `(1 - fraction) * 100` percent of the mix.
#[derive(Clone, Copy, Debug, PartialEq, Eq, Structural)]
pub struct ColorMix {
    pub space: ColorSpace,
    pub high: Rgb,
    pub low: Rgb,
    pub fraction: Fraction,
}

impl ColorMix {
    pub open spec fn wf(self) -> bool {
        &&& self.fraction.wf()
        &&& 0 <= self.fraction.num <= self.fraction.den <= 1_000_000_000_000_000
    }

    /// The share of `high` in percent, `(1 - fraction) * 100`.
    pub fn high_percent(&self) -> (r: Fraction)
        requires
            self.wf(),
        ensures
            r.wf(),
            r.num == 100 * (self.fraction.den - self.fraction.num),
            r.den == self.fraction.den,
    {
        Fraction { num: 100 * (self.fraction.den - self.fraction.num), den: self.fraction.den }
    }
}

/// Maps values to a blend of two colours, through the position that a scale
/// gives them.
#[derive(Clone, Copy, Debug, PartialEq, Eq, Structural)]
pub struct ColorInterpolator {
    pub scale: ValueScale,
    pub high: Rgb,
    pub low: Rgb,
    pub space: ColorSpace,
}

impl ColorInterpolator {
    pub open spec fn wf(self) -> bool {
        self.scale.wf()
    }

    /// The denominator of the blend fraction: the coordinate's denominator
    /// times the distance between the coordinates of the domain's ends.
    pub open spec fn fraction_den(self) -> int {
        self.scale.domain_span() * self.scale.range_span()
    }

    /// The numerator of the blend fraction of `v`: its coordinate divided by
    /// the distance between the coordinates of the domain's ends, limited to
    /// `[0, 1]`.
    pub open spec fn fraction_num(self, v: int) -> int {
        clamp(self.scale.coordinate_num(v), 0, self.fraction_den())
    }

    /// The blend that stands for the value `v` (hundredths).
    pub fn to_color(&self, v: i64) -> (r: ColorMix)
        requires
            self.wf(),
        ensures
            r.wf(),
            r.space == self.space,
            r.high == self.high,
            r.low == self.low,
            r.fraction.num == self.fraction_num(v as int),
            r.fraction.den == self.fraction_den(),
    {
        let y = self.scale.to_coordinate(v);
        let top = self.scale.to_coordinate(self.scale.domain_high);
        let bottom = self.scale.to_coordinate(self.scale.domain_low);
        // Both ends share the denominator of `y`, so the distance between them
        // over `y.den` is `range_span / 100`.
        let ghost d = self.scale.domain_span();
        let ghost rs = self.scale.range_span();
        assert(top.num == rs * 0 + self.scale.range_min * d);
        assert(bottom.num == rs * d + self.scale.range_min * d);
        assert(rs * 0 == 0) by (nonlinear_arith);
        assert(0 < rs * d <= 400_000_000_000_000) by (nonlinear_arith)
            requires
                0 < rs <= 20_000_000,
                0 < d <= 20_000_000,
        ;
        let span = bottom.num - top.num;
        assert(span == rs * d);
        let den = if span < 0 { -span } else { span };
        let num = if y.num < 0 { 0 } else if y.num > den { den } else { y.num };
        ColorMix {
            space: self.space,
            high: self.high,
            low: self.low,
            fraction: Fraction { num, den },
        }
    }
}

/// How an element is coloured.
#[derive(Clone, Copy, Debug, PartialEq, Eq, Structural)]
pub enum Paint {
    Solid(Rgb),
    Mix(ColorMix),
}

/// How a chart colours its elements from their values: with one colour, or
/// by blending two along a scale.
#[derive(Clone, Copy, Debug, PartialEq, Eq, Structural)]
pub enum Shading {
    Fixed(Rgb),
    Blend(ColorInterpolator),
}

impl Shading {
    pub open spec fn wf(self) -> bool {
        match self {
            Shading::Fixed(_) => true,
            Shading::Blend(ci) => ci.wf(),
        }
    }

    /// `p` is the paint of the value `v`.
    pub open spec fn paints(self, v: int, p: Paint) -> bool {
        match self {
            Shading::Fixed(c) => p == Paint::Solid(c),
            Shading::Blend(ci) => p matches Paint::Mix(m) && m.wf() && m.space == ci.space
                && m.high == ci.high && m.low == ci.low && m.fraction.num == ci.fraction_num(v)
                && m.fraction.den == ci.fraction_den(),
        }
    }

    /// The paint of the value `v` (hundredths).
    pub fn paint(&self, v: i64) -> (p: Paint)
        requires
            self.wf(),
        ensures
            self.paints(v as int, p),
    {
        match self {
            Shading::Fixed(c) => Paint::Solid(*c),
            Shading::Blend(ci) => Paint::Mix(ci.to_color(v)),
        }
    }
}

/// The blend fraction always lies in `[0, 1]`.
pub proof fn lemma_fraction_in_unit(ci: ColorInterpolator, v: int)
    requires
        ci.wf(),
    ensures
        0 < ci.fraction_den(),
        0 <= ci.fraction_num(v) <= ci.fraction_den(),
{
    assert(0 < ci.scale.domain_span() * ci.scale.range_span()) by (nonlinear_arith)
        requires
            0 < ci.scale.domain_span(),
            0 < ci.scale.range_span(),
    ;
}

/// Values above the top of the domain blend exactly as the top does:
/// `to_color(domain_high + e) == to_color(domain_high)` for every `e > 0`.
pub proof fn lemma_color_saturates_above(ci: ColorInterpolator, e: int)
    requires
        ci.wf(),
        e > 0,
    ensures
        ci.fraction_num(ci.scale.domain_high + e) == ci.fraction_num(ci.scale.domain_high as int),
        forall|p: Paint, q: Paint|
            #[trigger] Shading::Blend(ci).paints(ci.scale.domain_high as int, p)
                && #[trigger] Shading::Blend(ci).paints(ci.scale.domain_high + e, q) ==> p == q,
{
}

} // verus!

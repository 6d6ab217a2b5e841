use vstd::prelude::*;

use crate::fraction::Fraction;

verus! {

/// Largest magnitude, in hundredths, that a scale bound may have.
pub const SCALE_LIMIT: i64 = 10_000_000;

/// `v` limited to the closed interval `[lo, hi]`.
pub open spec fn clamp(v: int, lo: int, hi: int) -> int {
    if v < lo {
        lo
    } else if v > hi {
        hi
    } else {
        v
    }
}

/// A clamped linear map from measured values to vertical chart coordinates.
///
/// All four bounds are fixed-point numbers in hundredths of their unit. A
/// larger value maps to a smaller coordinate: `domain_high` lands on
/// `range_min` (the top of the chart) and `domain_low` on `range_max`.
#[derive(Clone, Copy, Debug, PartialEq, Eq, Structural)]
pub struct ValueScale {
    pub domain_low: i64,
    pub domain_high: i64,
    pub range_min: i64,
    pub range_max: i64,
}

impl ValueScale {
    /// Both spans are positive and every bound is within `SCALE_LIMIT`.
    pub open spec fn wf(self) -> bool {
        &&& -SCALE_LIMIT <= self.domain_low < self.domain_high <= SCALE_LIMIT
        &&& -SCALE_LIMIT <= self.range_min < self.range_max <= SCALE_LIMIT
    }

    pub open spec fn domain_span(self) -> int {
        self.domain_high - self.domain_low
    }

    pub open spec fn range_span(self) -> int {
        self.range_max - self.range_min
    }

    /// The denominator of every coordinate: coordinates are in whole units,
    /// the bounds in hundredths.
    pub open spec fn coordinate_den(self) -> int {
        100 * self.domain_span()
    }

    /// The numerator of the coordinate of `v` over `coordinate_den`, i.e.
    /// `range_min + range_span * (domain_high - clamp(v)) / domain_span`.
    pub open spec fn coordinate_num(self, v: int) -> int {
        self.range_span() * (self.domain_high - clamp(v, self.domain_low as int, self.domain_high as int))
            + self.range_min * self.domain_span()
    }

    /// Builds a scale, or `None` where a span is not positive or a bound is
    /// beyond `SCALE_LIMIT`.
    pub fn new(domain_low: i64, domain_high: i64, range_min: i64, range_max: i64) -> (r: Option<
        ValueScale,
    >)
        ensures
            r matches Some(s) ==> s.wf() && s == (ValueScale {
                domain_low,
                domain_high,
                range_min,
                range_max,
            }),
            r is None <==> !(ValueScale { domain_low, domain_high, range_min, range_max }).wf(),
    {
        let s = ValueScale { domain_low, domain_high, range_min, range_max };
        if -SCALE_LIMIT <= domain_low && domain_low < domain_high && domain_high <= SCALE_LIMIT
            && -SCALE_LIMIT <= range_min && range_min < range_max && range_max <= SCALE_LIMIT {
            Some(s)
        } else {
            None
        }
    }

    /// `v` limited to `[domain_low, domain_high]`.
    pub fn clamp_value(&self, v: i64) -> (r: i64)
        requires
            self.wf(),
        ensures
            r == clamp(v as int, self.domain_low as int, self.domain_high as int),
    {
        if v < self.domain_low {
            self.domain_low
        } else if v > self.domain_high {
            self.domain_high
        } else {
            v
        }
    }

    /// The vertical coordinate, in chart units, of the value `v` (hundredths).
    pub fn to_coordinate(&self, v: i64) -> (r: Fraction)
        requires
            self.wf(),
        ensures
            r.wf(),
            r.num == self.coordinate_num(v as int),
            r.den == self.coordinate_den(),
    {
        let c = self.clamp_value(v);
        let range_span = self.range_max - self.range_min;
        let domain_span = self.domain_high - self.domain_low;
        let offset = self.domain_high - c;
        assert(0 <= offset <= domain_span);
        assert(0 <= range_span * offset <= range_span * domain_span) by (nonlinear_arith)
            requires
                0 <= offset <= domain_span,
                0 < range_span,
        ;
        assert(range_span * domain_span <= 20_000_000 * 20_000_000) by (nonlinear_arith)
            requires
                0 < range_span <= 20_000_000,
                0 < domain_span <= 20_000_000,
        ;
        assert(-200_000_000_000_000 <= self.range_min * domain_span <= 200_000_000_000_000)
            by (nonlinear_arith)
            requires
                -10_000_000 <= self.range_min <= 10_000_000,
                0 < domain_span <= 20_000_000,
        ;
        Fraction { num: range_span * offset + self.range_min * domain_span, den: 100 * domain_span }
    }
}

/// Every coordinate lies between the range bounds:
/// `range_min <= to_coordinate(v) <= range_max` for every value `v`.
pub proof fn lemma_coordinate_in_range(s: ValueScale, v: int)
    requires
        s.wf(),
    ensures
        s.range_min * s.domain_span() <= s.coordinate_num(v) <= s.range_max * s.domain_span(),
{
    let c = clamp(v, s.domain_low as int, s.domain_high as int);
    let off = s.domain_high - c;
    assert(0 <= s.range_span() * off <= s.range_span() * s.domain_span()) by (nonlinear_arith)
        requires
            0 <= off <= s.domain_span(),
            0 < s.range_span(),
    ;
    assert(s.range_max * s.domain_span() == s.range_span() * s.domain_span() + s.range_min
        * s.domain_span()) by (nonlinear_arith);
}

/// The map never rises with the value: `v1 <= v2` implies
/// `to_coordinate(v2) <= to_coordinate(v1)`.
pub proof fn lemma_coordinate_monotone(s: ValueScale, v1: int, v2: int)
    requires
        s.wf(),
        v1 <= v2,
    ensures
        s.coordinate_num(v2) <= s.coordinate_num(v1),
{
    let c1 = clamp(v1, s.domain_low as int, s.domain_high as int);
    let c2 = clamp(v2, s.domain_low as int, s.domain_high as int);
    assert(c1 <= c2);
    assert(s.range_span() * (s.domain_high - c2) <= s.range_span() * (s.domain_high - c1))
        by (nonlinear_arith)
        requires
            c1 <= c2,
            0 < s.range_span(),
    ;
}

} // verus!

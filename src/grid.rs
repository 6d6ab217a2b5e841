use vstd::prelude::*;

use crate::color::{Paint, Shading};
use crate::fraction::Fraction;
use crate::scale::ValueScale;

verus! {

/// A named reference value that a chart draws as a horizontal line.
#[derive(Debug)]
pub struct Threshold {
    /// The value, in hundredths.
    pub value: i64,
    pub label: String,
    /// Opacity, in hundredths (100 is opaque).
    pub opacity: u32,
    /// Line width, in hundredths of a chart unit.
    pub stroke_width: u32,
}

/// A horizontal line across the chart at a threshold, with its label.
#[derive(Debug)]
pub struct GridLine {
    /// Vertical coordinate of the line.
    pub y: Fraction,
    /// The line runs from `x = 0` to `x = width`.
    pub width: usize,
    pub label: String,
    /// Vertical coordinate of the label.
    pub label_y: Fraction,
    pub paint: Paint,
    pub opacity: u32,
    pub stroke_width: u32,
}

/// Distance, in chart units, by which a label at the top edge is moved down
/// to stay inside the chart.
pub const TOP_LABEL_OFFSET: i64 = 2;

/// `g` is the line that `t` gives on a chart of width `width`.
pub open spec fn is_grid_line(
    g: GridLine,
    t: Threshold,
    width: usize,
    scale: ValueScale,
    shading: Shading,
) -> bool {
    &&& g.y.num == scale.coordinate_num(t.value as int)
    &&& g.y.den == scale.coordinate_den()
    &&& g.width == width
    &&& g.label@ == t.label@
    &&& g.label_y.den == g.y.den
    &&& g.label_y.num == g.y.num + if t.value >= scale.domain_high {
        TOP_LABEL_OFFSET * g.y.den
    } else {
        0
    }
    &&& shading.paints(t.value as int, g.paint)
    &&& g.opacity == t.opacity
    &&& g.stroke_width == t.stroke_width
}

/// One line per threshold, in the thresholds' order, at the coordinate that
/// `scale` gives its value; labels of values at the top of the scale are
/// moved down by `TOP_LABEL_OFFSET`.
pub fn grid_lines(thresholds: &[Threshold], width: usize, scale: &ValueScale, shading: &Shading) -> (r:
    Vec<GridLine>)
    requires
        scale.wf(),
        shading.wf(),
    ensures
        r@.len() == thresholds@.len(),
        forall|i: int|
            0 <= i < r@.len() ==> is_grid_line(
                #[trigger] r@[i],
                thresholds@[i],
                width,
                *scale,
                *shading,
            ),
{
    let mut lines: Vec<GridLine> = Vec::new();
    let mut i: usize = 0;
    while i < thresholds.len()
        invariant
            scale.wf(),
            shading.wf(),
            i <= thresholds@.len(),
            lines@.len() == i,
            forall|k: int|
                0 <= k < i ==> is_grid_line(#[trigger] lines@[k], thresholds@[k], width, *scale, *shading),
        decreases thresholds@.len() - i,
    {
        let t = &thresholds[i];
        let y = scale.to_coordinate(t.value);
        proof {
            crate::scale::lemma_coordinate_in_range(*scale, t.value as int);
            assert(-200_000_000_000_000 <= scale.range_min * scale.domain_span()) by (nonlinear_arith)
                requires
                    -10_000_000 <= scale.range_min <= 10_000_000,
                    0 < scale.domain_span() <= 20_000_000,
            ;
            assert(scale.range_max * scale.domain_span() <= 200_000_000_000_000) by (nonlinear_arith)
                requires
                    -10_000_000 <= scale.range_max <= 10_000_000,
                    0 < scale.domain_span() <= 20_000_000,
            ;
        }
        let shift: i64 = if t.value >= scale.domain_high { TOP_LABEL_OFFSET * y.den } else { 0 };
        let line = GridLine {
            y,
            width,
            label: t.label.clone(),
            label_y: Fraction { num: y.num + shift, den: y.den },
            paint: shading.paint(t.value),
            opacity: t.opacity,
            stroke_width: t.stroke_width,
        };
        lines.push(line);
        i = i + 1;
    }
    lines
}

} // verus!

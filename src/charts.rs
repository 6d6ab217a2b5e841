use vstd::prelude::*;

use crate::color::{ColorInterpolator, ColorSpace, Paint, Rgb, Shading};
use crate::fraction::Fraction;
use crate::grid::{grid_lines, is_grid_line, GridLine, Threshold};
use crate::scale::ValueScale;
use crate::text::{decimal_text, format_hundredths};
use crate::ticks::{day_ticks, is_tick, tick_count, Tick};

verus! {

/// Hourly slots over which the UV chart spreads each daily value.
pub const HOURS_PER_DAY: usize = 24;

/// Radius, in hundredths of a chart unit, of a marker with a value.
pub const MARKER_RADIUS: u32 = 50;

/// Radius, in hundredths of a chart unit, of a precipitation marker with no
/// rain.
pub const DRY_MARKER_RADIUS: u32 = 30;

/// Opacity, in hundredths, of a fully opaque element.
pub const OPAQUE: u32 = 100;

/// Width, in hundredths of a chart unit, of the vertical day marks.
pub const TICK_STROKE_WIDTH: u32 = 10;

/// The fixed parts of a chart: how values map to coordinates and colours,
/// the chart's height in whole units, and its reference lines.
#[derive(Debug)]
pub struct ChartConfig {
    pub scale: ValueScale,
    pub shading: Shading,
    pub height: u32,
    pub thresholds: Vec<Threshold>,
}

impl ChartConfig {
    pub open spec fn wf(self) -> bool {
        self.scale.wf() && self.shading.wf()
    }
}

/// `t` is the threshold `value` named `label`, drawn with `opacity` and
/// `stroke_width` (all in hundredths).
pub open spec fn is_threshold(t: Threshold, value: int, label: Seq<char>, opacity: int, stroke_width: int) -> bool {
    t.value == value && t.label@ == label && t.opacity == opacity && t.stroke_width == stroke_width
}

fn threshold(value: i64, label: &str, opacity: u32, stroke_width: u32) -> (t: Threshold)
    ensures
        is_threshold(t, value as int, label@, opacity as int, stroke_width as int),
{
    Threshold { value, label: String::from_str(label), opacity, stroke_width }
}

/// `c` is the rain chart's configuration: amounts from 0 to 30 mm over the
/// top 30 units of a 40-unit chart, in one slate colour, with lines for no,
/// light, moderate and heavy rain.
pub open spec fn is_precipitation_config(c: ChartConfig) -> bool {
    &&& c.scale == (ValueScale { domain_low: 0, domain_high: 3000, range_min: 0, range_max: 3000 })
    &&& c.shading == Shading::Fixed(Rgb { r: 78, g: 104, b: 129 })
    &&& c.height == 40
    &&& c.thresholds@.len() == 4
    &&& is_threshold(c.thresholds@[0], 0, "Nothing"@, 20, 10)
    &&& is_threshold(c.thresholds@[1], 250, "Light"@, 40, 10)
    &&& is_threshold(c.thresholds@[2], 760, "Moderate"@, 60, 10)
    &&& is_threshold(c.thresholds@[3], 5000, "Heavy"@, 100, 10)
}

/// `c` is the temperature chart's configuration: -10 to 30 degrees Celsius
/// over a 40-unit chart, blended from blue (cold) to red (hot) in OKLab.
pub open spec fn is_temperature_config(c: ChartConfig) -> bool {
    &&& c.scale == (ValueScale { domain_low: -1000i64, domain_high: 3000, range_min: 0, range_max: 4000 })
    &&& c.shading == Shading::Blend(
        ColorInterpolator {
            scale: c.scale,
            high: Rgb { r: 255, g: 0, b: 0 },
            low: Rgb { r: 0, g: 0, b: 255 },
            space: ColorSpace::Oklab,
        },
    )
    &&& c.height == 40
    &&& c.thresholds@.len() == 5
    &&& is_threshold(c.thresholds@[0], 3000, "30\u{b0}C"@, 100, 20)
    &&& is_threshold(c.thresholds@[1], 1000, "10\u{b0}C"@, 80, 10)
    &&& is_threshold(c.thresholds@[2], 500, "5\u{b0}C"@, 80, 10)
    &&& is_threshold(c.thresholds@[3], 0, "0\u{b0}C"@, 50, 10)
    &&& is_threshold(c.thresholds@[4], -1000, "-10\u{b0}C"@, 10, 20)
}

/// `c` is the UV chart's configuration: index 0 to 11 over the top 30 units
/// of a 40-unit chart, blended from green (low) to magenta (high) in HSL
/// along the shorter hue path, with lines at 0, 2.5 (safe outside), 7.5
/// (seek shade) and 11.
pub open spec fn is_uv_config(c: ChartConfig) -> bool {
    &&& c.scale == (ValueScale { domain_low: 0, domain_high: 1100, range_min: 0, range_max: 3000 })
    &&& c.shading == Shading::Blend(
        ColorInterpolator {
            scale: c.scale,
            high: Rgb { r: 255, g: 0, b: 255 },
            low: Rgb { r: 0, g: 255, b: 0 },
            space: ColorSpace::HslShorterHue,
        },
    )
    &&& c.height == 40
    &&& c.thresholds@.len() == 4
    &&& is_threshold(c.thresholds@[0], 0, "0"@, 100, 20)
    &&& is_threshold(c.thresholds@[1], 250, "2.5"@, 100, 20)
    &&& is_threshold(c.thresholds@[2], 750, "7.5"@, 100, 20)
    &&& is_threshold(c.thresholds@[3], 1100, "11"@, 100, 20)
}

/// On the rain chart an amount of `mm` hundredths of a millimetre (never
/// negative) stands at `30 - min(mm / 100, 30)` units: the numerator over
/// the coordinate denominator `100 * 3000` is `3000 * (3000 - min(mm, 3000))`.
pub proof fn lemma_precipitation_height(c: ChartConfig, mm: int)
    requires
        is_precipitation_config(c),
        mm >= 0,
    ensures
        c.scale.coordinate_den() == 100 * 3000,
        c.scale.coordinate_num(mm) == 3000 * (3000 - if mm < 3000 {
            mm
        } else {
            3000
        }),
{
}

impl ChartConfig {
    /// The rain chart's configuration.
    pub fn precipitation() -> (r: ChartConfig)
        ensures
            r.wf(),
            is_precipitation_config(r),
    {
        let mut thresholds = Vec::new();
        thresholds.push(threshold(0, "Nothing", 20, 10));
        thresholds.push(threshold(250, "Light", 40, 10));
        thresholds.push(threshold(760, "Moderate", 60, 10));
        thresholds.push(threshold(5000, "Heavy", OPAQUE, 10));
        ChartConfig {
            scale: ValueScale { domain_low: 0, domain_high: 3000, range_min: 0, range_max: 3000 },
            shading: Shading::Fixed(Rgb { r: 78, g: 104, b: 129 }),
            height: 40,
            thresholds,
        }
    }

    /// The temperature chart's configuration.
    pub fn temperature() -> (r: ChartConfig)
        ensures
            r.wf(),
            is_temperature_config(r),
    {
        let scale = ValueScale { domain_low: -1000, domain_high: 3000, range_min: 0, range_max: 4000 };
        let mut thresholds = Vec::new();
        thresholds.push(threshold(3000, "30\u{b0}C", OPAQUE, 20));
        thresholds.push(threshold(1000, "10\u{b0}C", 80, 10));
        thresholds.push(threshold(500, "5\u{b0}C", 80, 10));
        thresholds.push(threshold(0, "0\u{b0}C", 50, 10));
        thresholds.push(threshold(-1000, "-10\u{b0}C", 10, 20));
        ChartConfig {
            scale,
            shading: Shading::Blend(
                ColorInterpolator {
                    scale,
                    high: Rgb { r: 255, g: 0, b: 0 },
                    low: Rgb { r: 0, g: 0, b: 255 },
                    space: ColorSpace::Oklab,
                },
            ),
            height: 40,
            thresholds,
        }
    }

    /// The UV chart's configuration.
    pub fn uv() -> (r: ChartConfig)
        ensures
            r.wf(),
            is_uv_config(r),
    {
        let scale = ValueScale { domain_low: 0, domain_high: 1100, range_min: 0, range_max: 3000 };
        let mut thresholds = Vec::new();
        thresholds.push(threshold(0, "0", OPAQUE, 20));
        thresholds.push(threshold(250, "2.5", OPAQUE, 20));
        thresholds.push(threshold(750, "7.5", OPAQUE, 20));
        thresholds.push(threshold(1100, "11", OPAQUE, 20));
        ChartConfig {
            scale,
            shading: Shading::Blend(
                ColorInterpolator {
                    scale,
                    high: Rgb { r: 255, g: 0, b: 255 },
                    low: Rgb { r: 0, g: 255, b: 0 },
                    space: ColorSpace::HslShorterHue,
                },
            ),
            height: 40,
            thresholds,
        }
    }
}

/// One sample drawn as a circle.
#[derive(Debug)]
pub struct Marker {
    /// Horizontal position: the sample's hourly slot.
    pub x: usize,
    /// Vertical coordinate, in chart units.
    pub y: Fraction,
    pub paint: Paint,
    /// Opacity, in hundredths.
    pub opacity: u32,
    /// Radius, in hundredths of a chart unit.
    pub radius: u32,
    pub tooltip: String,
}

/// Everything a chart draws: its view box (`width` by `height` chart units),
/// reference lines, day marks with their colour, and one marker per sample
/// slot in the order of the samples.
#[derive(Debug)]
pub struct ChartGeometry {
    pub width: usize,
    pub height: u32,
    pub grid: Vec<GridLine>,
    pub ticks: Vec<Tick>,
    pub tick_paint: Paint,
    pub markers: Vec<Marker>,
}

/// `m` is the marker at slot `x` of the value `v`, drawn opaque with the
/// standard radius.
pub open spec fn is_value_marker(m: Marker, cfg: ChartConfig, v: int, x: int) -> bool {
    &&& m.x == x
    &&& m.y.num == cfg.scale.coordinate_num(v)
    &&& m.y.den == cfg.scale.coordinate_den()
    &&& cfg.shading.paints(v, m.paint)
    &&& m.opacity == OPAQUE
    &&& m.radius == MARKER_RADIUS
}

/// The parts that every chart shares: height, reference lines across
/// `width`, and the colour of the day marks.
pub open spec fn is_frame(g: ChartGeometry, cfg: ChartConfig, width: int) -> bool {
    &&& g.width == width
    &&& g.height == cfg.height
    &&& g.grid@.len() == cfg.thresholds@.len()
    &&& forall|i: int|
        0 <= i < g.grid@.len() ==> is_grid_line(
            #[trigger] g.grid@[i],
            cfg.thresholds@[i],
            g.width,
            cfg.scale,
            cfg.shading,
        )
    &&& cfg.shading.paints(cfg.scale.domain_high as int, g.tick_paint)
}

/// `g` holds the day marks of `n` hourly samples at the timestamps `ts`.
pub open spec fn has_day_ticks(g: ChartGeometry, n: nat, ts: Seq<String>) -> bool {
    &&& g.ticks@.len() == tick_count(n)
    &&& forall|j: int| 0 <= j < g.ticks@.len() ==> is_tick(#[trigger] g.ticks@[j], ts, j)
}

fn frame(cfg: &ChartConfig, width: usize, ticks: Vec<Tick>, markers: Vec<Marker>) -> (g:
    ChartGeometry)
    requires
        cfg.wf(),
    ensures
        is_frame(g, *cfg, width as int),
        g.ticks == ticks,
        g.markers == markers,
{
    let grid = grid_lines(cfg.thresholds.as_slice(), width, &cfg.scale, &cfg.shading);
    let tick_paint = cfg.shading.paint(cfg.scale.domain_high);
    ChartGeometry { width, height: cfg.height, grid, ticks, tick_paint, markers }
}

/// `m` is the temperature marker of the `i`-th sample `v` (hundredths of a
/// degree Celsius): tooltip `v°C`.
pub open spec fn is_temperature_marker(m: Marker, cfg: ChartConfig, v: int, i: int) -> bool {
    &&& is_value_marker(m, cfg, v, i)
    &&& m.tooltip@ == decimal_text(v) + "\u{b0}C"@
}

/// `g` is the temperature chart of the hourly `temps` at timestamps `ts`.
pub open spec fn is_temperature_chart(
    g: ChartGeometry,
    cfg: ChartConfig,
    temps: Seq<i64>,
    ts: Seq<String>,
) -> bool {
    &&& is_frame(g, cfg, temps.len() as int)
    &&& has_day_ticks(g, temps.len(), ts)
    &&& g.markers@.len() == temps.len()
    &&& forall|i: int|
        0 <= i < temps.len() ==> is_temperature_marker(
            #[trigger] g.markers@[i],
            cfg,
            temps[i] as int,
            i,
        )
}

/// The temperature chart: one marker per hourly apparent temperature
/// (hundredths of a degree Celsius), placed and coloured by `cfg`, under the
/// reference lines and the day marks of `timestamps`.
pub fn temperature_chart(cfg: &ChartConfig, temps: &[i64], timestamps: &[String]) -> (g:
    ChartGeometry)
    requires
        cfg.wf(),
        temps@.len() <= usize::MAX / 2,
    ensures
        is_temperature_chart(g, *cfg, temps@, timestamps@),
{
    let mut markers: Vec<Marker> = Vec::new();
    let mut i: usize = 0;
    while i < temps.len()
        invariant
            cfg.wf(),
            i <= temps@.len(),
            markers@.len() == i,
            forall|k: int|
                0 <= k < i ==> is_temperature_marker(#[trigger] markers@[k], *cfg, temps@[k] as int, k),
        decreases temps@.len() - i,
    {
        let v = temps[i];
        let mut tooltip = format_hundredths(v);
        tooltip.append("\u{b0}C");
        let m = Marker {
            x: i,
            y: cfg.scale.to_coordinate(v),
            paint: cfg.shading.paint(v),
            opacity: OPAQUE,
            radius: MARKER_RADIUS,
            tooltip,
        };
        markers.push(m);
        i = i + 1;
    }
    let ticks = day_ticks(temps.len(), timestamps);
    frame(cfg, temps.len(), ticks, markers)
}

/// `m` is the precipitation marker of the `i`-th sample: `mm` hundredths of
/// a millimetre with a `probability` percent chance. The chance sets the
/// opacity; a dry hour gets the smaller radius.
pub open spec fn is_precipitation_marker(
    m: Marker,
    cfg: ChartConfig,
    mm: int,
    probability: int,
    i: int,
) -> bool {
    &&& m.x == i
    &&& m.y.num == cfg.scale.coordinate_num(mm)
    &&& m.y.den == cfg.scale.coordinate_den()
    &&& cfg.shading.paints(mm, m.paint)
    &&& m.opacity == probability
    &&& m.radius == if mm > 0 {
        MARKER_RADIUS
    } else {
        DRY_MARKER_RADIUS
    }
    &&& m.tooltip@ == decimal_text(mm) + " mm with "@ + decimal_text(100 * probability) + "%"@
}

/// `g` is the precipitation chart of the hourly amounts `mm` and chances
/// `probability` at timestamps `ts`.
pub open spec fn is_precipitation_chart(
    g: ChartGeometry,
    cfg: ChartConfig,
    mm: Seq<i64>,
    probability: Seq<u8>,
    ts: Seq<String>,
) -> bool {
    &&& is_frame(g, cfg, mm.len() as int)
    &&& has_day_ticks(g, mm.len(), ts)
    &&& g.markers@.len() == mm.len()
    &&& forall|i: int|
        0 <= i < mm.len() ==> is_precipitation_marker(
            #[trigger] g.markers@[i],
            cfg,
            mm[i] as int,
            probability[i] as int,
            i,
        )
}

/// The precipitation chart: one marker per hour, placed by the amount
/// (hundredths of a millimetre) and made as opaque as the chance of rain
/// (percent), under the reference lines and the day marks of `timestamps`.
pub fn precipitation_chart(
    cfg: &ChartConfig,
    mm: &[i64],
    probability: &[u8],
    timestamps: &[String],
) -> (g: ChartGeometry)
    requires
        cfg.wf(),
        mm@.len() == probability@.len(),
        mm@.len() <= usize::MAX / 2,
    ensures
        is_precipitation_chart(g, *cfg, mm@, probability@, timestamps@),
{
    let mut markers: Vec<Marker> = Vec::new();
    let mut i: usize = 0;
    while i < mm.len()
        invariant
            cfg.wf(),
            mm@.len() == probability@.len(),
            i <= mm@.len(),
            markers@.len() == i,
            forall|k: int|
                0 <= k < i ==> is_precipitation_marker(
                    #[trigger] markers@[k],
                    *cfg,
                    mm@[k] as int,
                    probability@[k] as int,
                    k,
                ),
        decreases mm@.len() - i,
    {
        let v = mm[i];
        let p = probability[i];
        let mut tooltip = format_hundredths(v);
        tooltip.append(" mm with ");
        let chance = format_hundredths(100 * (p as i64));
        tooltip.append(chance.as_str());
        tooltip.append("%");
        let radius = if v > 0 { MARKER_RADIUS } else { DRY_MARKER_RADIUS };
        let m = Marker {
            x: i,
            y: cfg.scale.to_coordinate(v),
            paint: cfg.shading.paint(v),
            opacity: p as u32,
            radius,
            tooltip,
        };
        markers.push(m);
        i = i + 1;
    }
    let ticks = day_ticks(mm.len(), timestamps);
    frame(cfg, mm.len(), ticks, markers)
}

/// `m` is the marker of hour `h` of day `d`, whose daily value is `v`.
pub open spec fn is_uv_marker(m: Marker, cfg: ChartConfig, v: int, d: int, h: int) -> bool {
    &&& is_value_marker(m, cfg, v, 24 * d + h)
    &&& m.tooltip@ == decimal_text(v)
}

/// `g` is the UV chart of the daily maxima `uv` of `days` dates: the chart
/// is 24 slots wide per date.
pub open spec fn is_uv_chart(g: ChartGeometry, cfg: ChartConfig, uv: Seq<i64>, days: nat) -> bool {
    &&& is_frame(g, cfg, 24 * days as int)
    &&& g.ticks@.len() == 0
    &&& g.markers@.len() == 24 * uv.len()
    &&& forall|k: int|
        0 <= k < g.markers@.len() ==> is_uv_marker(
            #[trigger] g.markers@[k],
            cfg,
            uv[k / 24] as int,
            k / 24,
            k % 24,
        )
}

/// The UV chart: each daily maximum UV index (hundredths) is spread over the
/// 24 hourly slots of its day, all with the same position and colour, under
/// the reference lines. The chart is 24 slots wide for each of the
/// `daily_time` dates.
pub fn uv_chart(cfg: &ChartConfig, uv: &[i64], daily_time: &[String]) -> (g: ChartGeometry)
    requires
        cfg.wf(),
        24 * uv@.len() <= usize::MAX,
        24 * daily_time@.len() <= usize::MAX,
    ensures
        is_uv_chart(g, *cfg, uv@, daily_time@.len()),
{
    let mut markers: Vec<Marker> = Vec::new();
    let mut d: usize = 0;
    while d < uv.len()
        invariant
            cfg.wf(),
            24 * uv@.len() <= usize::MAX,
            d <= uv@.len(),
            markers@.len() == 24 * d,
            forall|k: int|
                0 <= k < markers@.len() ==> is_uv_marker(
                    #[trigger] markers@[k],
                    *cfg,
                    uv@[k / 24] as int,
                    k / 24,
                    k % 24,
                ),
        decreases uv@.len() - d,
    {
        let v = uv[d];
        let y = cfg.scale.to_coordinate(v);
        let paint = cfg.shading.paint(v);
        let mut h: usize = 0;
        while h < HOURS_PER_DAY
            invariant
                cfg.wf(),
                24 * uv@.len() <= usize::MAX,
                d < uv@.len(),
                v == uv@[d as int],
                y.num == cfg.scale.coordinate_num(v as int),
                y.den == cfg.scale.coordinate_den(),
                cfg.shading.paints(v as int, paint),
                h <= 24,
                markers@.len() == 24 * d + h,
                forall|k: int|
                    0 <= k < markers@.len() ==> is_uv_marker(
                        #[trigger] markers@[k],
                        *cfg,
                        uv@[k / 24] as int,
                        k / 24,
                        k % 24,
                    ),
            decreases 24 - h,
        {
            let m = Marker {
                x: HOURS_PER_DAY * d + h,
                y,
                paint,
                opacity: OPAQUE,
                radius: MARKER_RADIUS,
                tooltip: format_hundredths(v),
            };
            let ghost k = 24 * d + h;
            assert(k / 24 == d && k % 24 == h);
            markers.push(m);
            h = h + 1;
        }
        d = d + 1;
    }
    frame(cfg, HOURS_PER_DAY * daily_time.len(), Vec::new(), markers)
}

/// Two lines draw the same thing.
pub open spec fn same_line(a: GridLine, b: GridLine) -> bool {
    &&& a.y == b.y
    &&& a.width == b.width
    &&& a.label@ == b.label@
    &&& a.label_y == b.label_y
    &&& a.paint == b.paint
    &&& a.opacity == b.opacity
    &&& a.stroke_width == b.stroke_width
}

/// Two day marks draw the same thing.
pub open spec fn same_tick(a: Tick, b: Tick) -> bool {
    a.x == b.x && a.hour == b.hour && a.label@ == b.label@
}

/// Two markers draw the same thing.
pub open spec fn same_marker(a: Marker, b: Marker) -> bool {
    &&& a.x == b.x
    &&& a.y == b.y
    &&& a.paint == b.paint
    &&& a.opacity == b.opacity
    &&& a.radius == b.radius
    &&& a.tooltip@ == b.tooltip@
}

/// Two charts are structurally identical: same view box, and the same
/// lines, marks and markers in the same order.
pub open spec fn same_geometry(a: ChartGeometry, b: ChartGeometry) -> bool {
    &&& a.width == b.width
    &&& a.height == b.height
    &&& a.tick_paint == b.tick_paint
    &&& a.grid@.len() == b.grid@.len()
    &&& forall|i: int| 0 <= i < a.grid@.len() ==> same_line(#[trigger] a.grid@[i], b.grid@[i])
    &&& a.ticks@.len() == b.ticks@.len()
    &&& forall|i: int| 0 <= i < a.ticks@.len() ==> same_tick(#[trigger] a.ticks@[i], b.ticks@[i])
    &&& a.markers@.len() == b.markers@.len()
    &&& forall|i: int|
        0 <= i < a.markers@.len() ==> same_marker(#[trigger] a.markers@[i], b.markers@[i])
}

/// A shading gives each value one paint.
pub proof fn lemma_paint_unique(sh: Shading, v: int, p: Paint, q: Paint)
    requires
        sh.paints(v, p),
        sh.paints(v, q),
    ensures
        p == q,
{
}

proof fn lemma_same_frame(a: ChartGeometry, b: ChartGeometry, cfg: ChartConfig, width: int)
    requires
        is_frame(a, cfg, width),
        is_frame(b, cfg, width),
    ensures
        a.width == b.width,
        a.height == b.height,
        a.tick_paint == b.tick_paint,
        a.grid@.len() == b.grid@.len(),
        forall|i: int| 0 <= i < a.grid@.len() ==> same_line(#[trigger] a.grid@[i], b.grid@[i]),
{
    lemma_paint_unique(cfg.shading, cfg.scale.domain_high as int, a.tick_paint, b.tick_paint);
    assert forall|i: int| 0 <= i < a.grid@.len() implies same_line(#[trigger] a.grid@[i], b.grid@[i]) by {
        let t = cfg.thresholds@[i];
        lemma_paint_unique(cfg.shading, t.value as int, a.grid@[i].paint, b.grid@[i].paint);
    }
}

/// Drawing the temperature chart twice from the same inputs gives the same
/// chart.
pub proof fn lemma_temperature_chart_pure(
    a: ChartGeometry,
    b: ChartGeometry,
    cfg: ChartConfig,
    temps: Seq<i64>,
    ts: Seq<String>,
)
    requires
        is_temperature_chart(a, cfg, temps, ts),
        is_temperature_chart(b, cfg, temps, ts),
    ensures
        same_geometry(a, b),
{
    lemma_same_frame(a, b, cfg, temps.len() as int);
    assert forall|i: int| 0 <= i < a.markers@.len() implies same_marker(#[trigger] a.markers@[i], b.markers@[i]) by {
        lemma_paint_unique(cfg.shading, temps[i] as int, a.markers@[i].paint, b.markers@[i].paint);
    }
    assert forall|i: int| 0 <= i < a.ticks@.len() implies same_tick(#[trigger] a.ticks@[i], b.ticks@[i]) by {
        assert(is_tick(a.ticks@[i], ts, i) && is_tick(b.ticks@[i], ts, i));
    }
}

/// Drawing the precipitation chart twice from the same inputs gives the
/// same chart.
pub proof fn lemma_precipitation_chart_pure(
    a: ChartGeometry,
    b: ChartGeometry,
    cfg: ChartConfig,
    mm: Seq<i64>,
    probability: Seq<u8>,
    ts: Seq<String>,
)
    requires
        is_precipitation_chart(a, cfg, mm, probability, ts),
        is_precipitation_chart(b, cfg, mm, probability, ts),
    ensures
        same_geometry(a, b),
{
    lemma_same_frame(a, b, cfg, mm.len() as int);
    assert forall|i: int| 0 <= i < a.markers@.len() implies same_marker(#[trigger] a.markers@[i], b.markers@[i]) by {
        lemma_paint_unique(cfg.shading, mm[i] as int, a.markers@[i].paint, b.markers@[i].paint);
    }
    assert forall|i: int| 0 <= i < a.ticks@.len() implies same_tick(#[trigger] a.ticks@[i], b.ticks@[i]) by {
        assert(is_tick(a.ticks@[i], ts, i) && is_tick(b.ticks@[i], ts, i));
    }
}

/// Drawing the UV chart twice from the same inputs gives the same chart.
pub proof fn lemma_uv_chart_pure(
    a: ChartGeometry,
    b: ChartGeometry,
    cfg: ChartConfig,
    uv: Seq<i64>,
    days: nat,
)
    requires
        is_uv_chart(a, cfg, uv, days),
        is_uv_chart(b, cfg, uv, days),
    ensures
        same_geometry(a, b),
{
    lemma_same_frame(a, b, cfg, 24 * days as int);
    assert forall|k: int| 0 <= k < a.markers@.len() implies same_marker(#[trigger] a.markers@[k], b.markers@[k]) by {
        lemma_paint_unique(cfg.shading, uv[k / 24] as int, a.markers@[k].paint, b.markers@[k].paint);
    }
}

} // verus!

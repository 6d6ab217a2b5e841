use forecast_charts::charts::{precipitation_chart, temperature_chart, uv_chart, ChartConfig};
use forecast_charts::color::{ColorInterpolator, ColorSpace, Paint, Rgb, Shading};
use forecast_charts::data::{ChartSet, Daily, Data, Hourly, LoadError};
use forecast_charts::fraction::Fraction;
use forecast_charts::grid::{grid_lines, Threshold};
use forecast_charts::scale::ValueScale;
use forecast_charts::text::{day_label, format_count, format_hundredths};
use forecast_charts::ticks::day_ticks;

/// `f` equals `num / den`.
fn is_value(f: Fraction, num: i64, den: i64) -> bool {
    (f.num as i128) * (den as i128) == (num as i128) * (f.den as i128)
}

fn two_days() -> Vec<String> {
    let mut ts = Vec::new();
    for day in ["10", "11"] {
        for hour in 0..24 {
            ts.push(format!("2023-11-{}T{:02}:00", day, hour));
        }
    }
    ts
}

fn temperature_scale() -> ValueScale {
    ChartConfig::temperature().scale
}

#[test]
fn coordinate_is_clamped_into_range() {
    let s = temperature_scale();
    for v in [-100_000, -1001, -1000, 0, 890, 3000, 3001, 1_000_000, i64::MIN, i64::MAX] {
        let y = s.to_coordinate(v);
        assert!(y.den > 0);
        assert!(y.num >= 0 && y.num <= 40 * y.den, "value {}", v);
    }
    assert!(is_value(s.to_coordinate(5000), 0, 1));
    assert!(is_value(s.to_coordinate(-5000), 40, 1));
}

#[test]
fn coordinate_never_rises_with_the_value() {
    let s = ChartConfig::uv().scale;
    let mut last = s.to_coordinate(-500);
    for v in (-500..1600).step_by(7) {
        let y = s.to_coordinate(v);
        assert!((y.num as i128) * (last.den as i128) <= (last.num as i128) * (y.den as i128));
        last = y;
    }
}

#[test]
fn scale_rejects_empty_spans() {
    assert!(ValueScale::new(0, 0, 0, 10).is_none());
    assert!(ValueScale::new(5, 1, 0, 10).is_none());
    assert!(ValueScale::new(0, 10, 3, 3).is_none());
    assert!(ValueScale::new(0, 20_000_000, 0, 10).is_none());
    let s = ValueScale::new(0, 10, 0, 20).unwrap();
    assert!(is_value(s.to_coordinate(5), 10, 100));
}

#[test]
fn scale_with_offset_range() {
    let s = ValueScale::new(0, 100, 500, 1500).unwrap();
    assert!(is_value(s.to_coordinate(100), 5, 1));
    assert!(is_value(s.to_coordinate(0), 15, 1));
    assert!(is_value(s.to_coordinate(50), 10, 1));
}

#[test]
fn color_fraction_stays_in_unit_and_saturates() {
    let ci = ColorInterpolator {
        scale: temperature_scale(),
        high: Rgb { r: 255, g: 0, b: 0 },
        low: Rgb { r: 0, g: 0, b: 255 },
        space: ColorSpace::Oklab,
    };
    for v in [-9000, -1000, 0, 890, 3000, 9000] {
        let m = ci.to_color(v);
        assert!(m.fraction.num >= 0 && m.fraction.num <= m.fraction.den);
    }
    assert_eq!(ci.to_color(3000), ci.to_color(3001));
    assert_eq!(ci.to_color(3000), ci.to_color(100_000));
    assert_eq!(ci.to_color(-1000), ci.to_color(-1001));
    assert!(is_value(ci.to_color(3000).high_percent(), 100, 1));
    assert!(is_value(ci.to_color(-1000).high_percent(), 0, 1));
    assert_ne!(ci.to_color(0), ci.to_color(10));
}

#[test]
fn day_label_of_timestamp() {
    assert_eq!(day_label("2023-11-10T08:00"), "10");
    assert_eq!(day_label("2023-11"), "??");
    assert_eq!(day_label(""), "??");
    assert_eq!(day_label("2023-11-02"), "02");
}

#[test]
fn two_days_give_four_ticks() {
    let ts = two_days();
    let ticks = day_ticks(ts.len(), &ts);
    assert_eq!(ticks.len(), 4);
    let xs: Vec<usize> = ticks.iter().map(|t| t.x).collect();
    assert_eq!(xs, vec![8, 20, 32, 44]);
    let hours: Vec<u8> = ticks.iter().map(|t| t.hour).collect();
    assert_eq!(hours, vec![8, 20, 8, 20]);
    let labels: Vec<&str> = ticks.iter().map(|t| t.label.as_str()).collect();
    assert_eq!(labels, vec!["10/8:00", "10/20:00", "11/8:00", "11/20:00"]);
}

#[test]
fn partial_days_give_partial_ticks() {
    let ts = two_days();
    assert_eq!(day_ticks(8, &ts).len(), 0);
    assert_eq!(day_ticks(9, &ts).len(), 1);
    assert_eq!(day_ticks(20, &ts).len(), 1);
    assert_eq!(day_ticks(21, &ts).len(), 2);
    assert_eq!(day_ticks(29, &ts).len(), 2);
    assert_eq!(day_ticks(33, &ts).len(), 3);
    assert!(day_ticks(0, &[]).is_empty());
    let short = vec!["x".to_string(); 10];
    assert_eq!(day_ticks(10, &short)[0].label, "??/8:00");
}

#[test]
fn thirty_samples_give_three_ticks() {
    let ts = two_days();
    let ticks = day_ticks(30, &ts[..30]);
    let xs: Vec<usize> = ticks.iter().map(|t| t.x).collect();
    assert_eq!(xs, vec![8, 20, 32]);
    assert_eq!(ticks[2].label, "11/8:00");
}

#[test]
fn three_days_give_seven_ticks() {
    let mut ts = two_days();
    for hour in 0..24 {
        ts.push(format!("2023-11-12T{:02}:00", hour));
    }
    let ticks = day_ticks(72, &ts);
    let xs: Vec<usize> = ticks.iter().map(|t| t.x).collect();
    assert_eq!(xs, vec![8, 20, 32, 44, 56, 68, 80]);
    let labels: Vec<&str> = ticks.iter().map(|t| t.label.as_str()).collect();
    assert_eq!(
        labels,
        vec!["10/8:00", "10/20:00", "11/8:00", "11/20:00", "12/8:00", "12/20:00", "??/8:00"]
    );
}

#[test]
fn ticks_follow_samples_not_timestamps() {
    let cfg = ChartConfig::temperature();
    let g = temperature_chart(&cfg, &[0; 9], &["2023-11-10T08:00".to_string()]);
    assert_eq!(g.ticks.len(), 1);
    assert_eq!(g.ticks[0].x, 8);
    assert_eq!(g.ticks[0].label, "10/8:00");
    let pc = ChartConfig::precipitation();
    let g = precipitation_chart(&pc, &[0; 9], &[0; 9], &["2023-11".to_string()]);
    assert_eq!(g.ticks.len(), 1);
    assert_eq!(g.ticks[0].label, "??/8:00");
}

#[test]
fn hundredths_are_written_shortest() {
    assert_eq!(format_hundredths(0), "0");
    assert_eq!(format_hundredths(60), "0.6");
    assert_eq!(format_hundredths(5), "0.05");
    assert_eq!(format_hundredths(-40), "-0.4");
    assert_eq!(format_hundredths(1100), "11");
    assert_eq!(format_hundredths(250), "2.5");
    assert_eq!(format_hundredths(-1000), "-10");
    assert_eq!(format_hundredths(12345), "123.45");
    assert_eq!(format_hundredths(i64::MIN), "-92233720368547758.08");
    assert_eq!(format_count(0), "0");
    assert_eq!(format_count(16), "16");
}

#[test]
fn precipitation_marker_of_light_rain() {
    let cfg = ChartConfig::precipitation();
    let g = precipitation_chart(&cfg, &[60, 0], &[5, 0], &two_days()[..2]);
    let m = &g.markers[0];
    assert_eq!(m.x, 0);
    assert!(is_value(m.y, 294, 10));
    assert_eq!(m.opacity, 5);
    assert_eq!(m.radius, 50);
    assert_eq!(m.tooltip, "0.6 mm with 5%");
    assert_eq!(m.paint, Paint::Solid(Rgb { r: 78, g: 104, b: 129 }));
    let dry = &g.markers[1];
    assert_eq!(dry.radius, 30);
    assert!(is_value(dry.y, 30, 1));
    assert_eq!(dry.tooltip, "0 mm with 0%");
    assert_eq!(g.width, 2);
    assert_eq!(g.height, 40);
}

#[test]
fn precipitation_grid_and_heavy_rain() {
    let cfg = ChartConfig::precipitation();
    let g = precipitation_chart(&cfg, &[4000], &[100], &two_days()[..1]);
    assert!(is_value(g.markers[0].y, 0, 1));
    let labels: Vec<&str> = g.grid.iter().map(|l| l.label.as_str()).collect();
    assert_eq!(labels, vec!["Nothing", "Light", "Moderate", "Heavy"]);
    assert!(is_value(g.grid[0].y, 30, 1));
    assert!(is_value(g.grid[1].y, 275, 10));
    assert!(is_value(g.grid[2].y, 224, 10));
    assert!(is_value(g.grid[3].y, 0, 1));
    assert!(is_value(g.grid[3].label_y, 2, 1));
    assert!(is_value(g.grid[0].label_y, 30, 1));
    let opacities: Vec<u32> = g.grid.iter().map(|l| l.opacity).collect();
    assert_eq!(opacities, vec![20, 40, 60, 100]);
}

#[test]
fn temperature_marker_scenario() {
    let cfg = ChartConfig::temperature();
    let g = temperature_chart(&cfg, &[890], &two_days()[..1]);
    let m = &g.markers[0];
    assert!(is_value(m.y, 211, 10));
    assert_eq!(m.tooltip, "8.9\u{b0}C");
    match m.paint {
        Paint::Mix(mix) => {
            assert_eq!(mix.space, ColorSpace::Oklab);
            assert_eq!(mix.high, Rgb { r: 255, g: 0, b: 0 });
            assert_eq!(mix.low, Rgb { r: 0, g: 0, b: 255 });
            assert!(is_value(mix.fraction, 211, 400));
            assert!(is_value(mix.high_percent(), 4725, 100));
        }
        Paint::Solid(_) => panic!("temperature markers blend"),
    }
    assert_eq!(m.radius, 50);
    assert_eq!(m.opacity, 100);
}

#[test]
fn temperature_grid_lines() {
    let cfg = ChartConfig::temperature();
    let g = temperature_chart(&cfg, &[0; 48], &two_days());
    assert_eq!(g.width, 48);
    assert_eq!(g.ticks.len(), 4);
    let labels: Vec<&str> = g.grid.iter().map(|l| l.label.as_str()).collect();
    assert_eq!(labels, vec!["30\u{b0}C", "10\u{b0}C", "5\u{b0}C", "0\u{b0}C", "-10\u{b0}C"]);
    let ys = [0, 20, 25, 30, 40];
    for (l, y) in g.grid.iter().zip(ys) {
        assert!(is_value(l.y, y, 1));
        assert_eq!(l.width, 48);
    }
    assert!(is_value(g.grid[0].label_y, 2, 1));
    assert!(is_value(g.grid[4].label_y, 40, 1));
    let widths: Vec<u32> = g.grid.iter().map(|l| l.stroke_width).collect();
    assert_eq!(widths, vec![20, 10, 10, 10, 20]);
    match g.tick_paint {
        Paint::Mix(mix) => assert!(is_value(mix.high_percent(), 100, 1)),
        Paint::Solid(_) => panic!("temperature ticks blend"),
    }
}

#[test]
fn uv_marker_scenario() {
    let cfg = ChartConfig::uv();
    let g = uv_chart(&cfg, &[1100], &["2023-11-10".to_string()]);
    assert_eq!(g.markers.len(), 24);
    assert_eq!(g.width, 24);
    assert!(g.ticks.is_empty());
    for (j, m) in g.markers.iter().enumerate() {
        assert_eq!(m.x, j);
        assert!(is_value(m.y, 0, 1));
        assert_eq!(m.tooltip, "11");
        assert_eq!(m.paint, g.markers[0].paint);
    }
    match g.markers[0].paint {
        Paint::Mix(mix) => {
            assert_eq!(mix.space, ColorSpace::HslShorterHue);
            assert!(is_value(mix.high_percent(), 100, 1));
        }
        Paint::Solid(_) => panic!("UV markers blend"),
    }
}

#[test]
fn uv_spreads_each_day() {
    let cfg = ChartConfig::uv();
    let g = uv_chart(&cfg, &[0, 550], &["2023-11-10".to_string(), "2023-11-11".to_string()]);
    assert_eq!(g.markers.len(), 48);
    assert_eq!(g.markers[30].x, 30);
    assert!(is_value(g.markers[0].y, 30, 1));
    assert!(is_value(g.markers[30].y, 15, 1));
    assert_eq!(g.markers[30].tooltip, "5.5");
    let labels: Vec<&str> = g.grid.iter().map(|l| l.label.as_str()).collect();
    assert_eq!(labels, vec!["0", "2.5", "7.5", "11"]);
    assert!(is_value(g.grid[3].label_y, 2, 1));
}

#[test]
fn uv_width_follows_dates() {
    let cfg = ChartConfig::uv();
    let g = uv_chart(&cfg, &[-100], &[]);
    assert_eq!(g.width, 0);
    assert_eq!(g.markers.len(), 24);
    assert!(is_value(g.markers[0].y, 30, 1));
    match g.markers[0].paint {
        Paint::Mix(mix) => assert!(is_value(mix.high_percent(), 0, 1)),
        Paint::Solid(_) => panic!("UV markers blend"),
    }
}

#[test]
fn charts_are_pure() {
    let cfg = ChartConfig::temperature();
    let temps = [130, -40, 890, 5000];
    let a = temperature_chart(&cfg, &temps, &two_days()[..4]);
    let b = temperature_chart(&cfg, &temps, &two_days()[..4]);
    assert_eq!(format!("{:?}", a), format!("{:?}", b));
    let pc = ChartConfig::precipitation();
    let a = precipitation_chart(&pc, &[0, 70], &[3, 66], &two_days()[..2]);
    let b = precipitation_chart(&pc, &[0, 70], &[3, 66], &two_days()[..2]);
    assert_eq!(format!("{:?}", a), format!("{:?}", b));
    let uc = ChartConfig::uv();
    let days = ["2023-11-10".to_string()];
    assert_eq!(
        format!("{:?}", uv_chart(&uc, &[320], &days)),
        format!("{:?}", uv_chart(&uc, &[320], &days))
    );
}

#[test]
fn fixed_shading_ignores_value() {
    let c = Rgb { r: 1, g: 2, b: 3 };
    let s = Shading::Fixed(c);
    assert_eq!(s.paint(-5), Paint::Solid(c));
    let scale = ValueScale::new(0, 100, 0, 100).unwrap();
    let t = vec![Threshold { value: 50, label: "mid".to_string(), opacity: 70, stroke_width: 5 }];
    let g = grid_lines(&t, 12, &scale, &s);
    assert_eq!(g.len(), 1);
    assert!(is_value(g[0].y, 1, 2));
    assert!(is_value(g[0].label_y, 1, 2));
    assert_eq!(g[0].opacity, 70);
    assert_eq!(g[0].stroke_width, 5);
    assert_eq!(g[0].width, 12);
}

#[test]
fn api_query_text() {
    assert_eq!(
        Data::api_query(100, 100, 1),
        "https://api.open-meteo.com/v1/forecast?latitude=1&longitude=1&hourly=apparent_temperature,precipitation_probability,precipitation,wind_speed_10m,wind_direction_10m&forecast_days=1&daily=uv_index_max"
    );
    assert_eq!(
        Data::api_query(4830, -1630, 16),
        "https://api.open-meteo.com/v1/forecast?latitude=48.3&longitude=-16.3&hourly=apparent_temperature,precipitation_probability,precipitation,wind_speed_10m,wind_direction_10m&forecast_days=16&daily=uv_index_max"
    );
}

#[test]
fn load_error_messages() {
    let e = LoadError::retrieval("offline");
    assert_eq!(e.reason, "failed to retrieve forecast data.\nCauses:\n\noffline");
    assert_eq!(e.message(), "Failed to load data.\nfailed to retrieve forecast data.\nCauses:\n\noffline");
    let e = LoadError::parse("bad json");
    assert_eq!(e.reason, "failed to parse forecast data.\nCauses:\n\nbad json");
}

#[test]
fn forecast_charts_pair_rain_series() {
    let data = Data {
        latitude: 4830,
        longitude: 1630,
        utc_offset_seconds: 0,
        timezone: "GMT".to_string(),
        timezone_abbreviation: "GMT".to_string(),
        elevation: 30500,
        hourly: Hourly {
            time: two_days(),
            apparent_temperature: vec![130; 48],
            precipitation_probability: vec![5; 47],
            precipitation: vec![60; 48],
            wind_speed_10m: vec![570; 48],
            wind_direction_10m: vec![25200; 48],
        },
        daily: Daily { time: vec!["2023-11-10".to_string(), "2023-11-11".to_string()], uv_index_max: vec![100, 200] },
    };
    let charts = data.charts(&ChartSet::standard());
    assert_eq!(charts.precipitation.markers.len(), 47);
    assert_eq!(charts.precipitation.width, 47);
    assert_eq!(charts.precipitation.ticks.len(), 4);
    assert_eq!(charts.temperature.markers.len(), 48);
    assert_eq!(charts.uv.markers.len(), 48);
    assert_eq!(charts.uv.width, 48);
}

//! Turns hourly and daily weather forecasts into chart geometry: clamped
//! value scales, two-colour blends, reference lines, day marks and one marker
//! per sample, for rain, temperature and UV charts. Measurements are
//! fixed-point numbers in hundredths of their unit; coordinates are exact
//! fractions.
pub mod fraction;
pub mod scale;
pub mod color;
pub mod text;
pub mod ticks;
pub mod grid;
pub mod charts;
pub mod data;

use vstd::prelude::*;

use crate::charts::{
    is_precipitation_chart, is_precipitation_config, is_temperature_chart, is_temperature_config,
    is_uv_chart, is_uv_config, precipitation_chart, temperature_chart, uv_chart, ChartConfig,
    ChartGeometry,
};
use crate::text::{decimal_text, digits, format_count, format_hundredths};

verus! {

/// Hourly samples of a forecast, one per hour from midnight, with every
/// measurement as a fixed-point number in hundredths of its unit.
#[derive(Debug)]
pub struct Hourly {
    /// ISO-8601 local time of each sample.
    pub time: Vec<String>,
    /// Apparent temperature, hundredths of a degree Celsius.
    pub apparent_temperature: Vec<i64>,
    /// Chance of precipitation, percent.
    pub precipitation_probability: Vec<u8>,
    /// Precipitation, hundredths of a millimetre.
    pub precipitation: Vec<i64>,
    /// Wind speed 10 m above ground, hundredths of a km/h.
    pub wind_speed_10m: Vec<i64>,
    /// Wind direction 10 m above ground, hundredths of a degree.
    pub wind_direction_10m: Vec<i64>,
}

/// Daily samples of a forecast.
#[derive(Debug)]
pub struct Daily {
    /// ISO-8601 date of each sample.
    pub time: Vec<String>,
    /// Highest UV index of each day, hundredths.
    pub uv_index_max: Vec<i64>,
}

/// A weather forecast for one place; coordinates in hundredths of a degree.
#[derive(Debug)]
pub struct Data {
    pub latitude: i64,
    pub longitude: i64,
    pub utc_offset_seconds: i64,
    pub timezone: String,
    pub timezone_abbreviation: String,
    /// Elevation, hundredths of a metre.
    pub elevation: i64,
    pub hourly: Hourly,
    pub daily: Daily,
}

/// Why a forecast could not be had.
#[derive(Debug)]
pub struct LoadError {
    pub reason: String,
}

/// The text of the open-meteo forecast query for a place and a number of days.
pub open spec fn query_text(latitude: int, longitude: int, forecast_days: nat) -> Seq<char> {
    "https://api.open-meteo.com/v1/forecast?latitude="@ + decimal_text(latitude) + "&longitude="@
        + decimal_text(longitude)
        + "&hourly=apparent_temperature,precipitation_probability,precipitation,wind_speed_10m,wind_direction_10m&forecast_days="@
        + digits(forecast_days) + "&daily=uv_index_max"@
}

impl LoadError {
    /// The forecast could not be retrieved; `cause` says why.
    pub fn retrieval(cause: &str) -> (e: LoadError)
        ensures
            e.reason@ == "failed to retrieve forecast data.\nCauses:\n\n"@ + cause@,
    {
        let mut reason = String::from_str("failed to retrieve forecast data.\nCauses:\n\n");
        reason.append(cause);
        LoadError { reason }
    }

    /// The forecast was retrieved but could not be read; `cause` says why.
    pub fn parse(cause: &str) -> (e: LoadError)
        ensures
            e.reason@ == "failed to parse forecast data.\nCauses:\n\n"@ + cause@,
    {
        let mut reason = String::from_str("failed to parse forecast data.\nCauses:\n\n");
        reason.append(cause);
        LoadError { reason }
    }

    /// The message shown to the user.
    pub fn message(&self) -> (r: String)
        ensures
            r@ == "Failed to load data.\n"@ + self.reason@,
    {
        let mut r = String::from_str("Failed to load data.\n");
        r.append(self.reason.as_str());
        r
    }
}

/// The configurations of the three charts of a forecast.
#[derive(Debug)]
pub struct ChartSet {
    pub precipitation: ChartConfig,
    pub temperature: ChartConfig,
    pub uv: ChartConfig,
}

impl ChartSet {
    pub open spec fn wf(self) -> bool {
        self.precipitation.wf() && self.temperature.wf() && self.uv.wf()
    }

    /// The usual rain, temperature and UV charts.
    pub fn standard() -> (r: ChartSet)
        ensures
            r.wf(),
            is_precipitation_config(r.precipitation),
            is_temperature_config(r.temperature),
            is_uv_config(r.uv),
    {
        ChartSet {
            precipitation: ChartConfig::precipitation(),
            temperature: ChartConfig::temperature(),
            uv: ChartConfig::uv(),
        }
    }
}

/// The three charts drawn from a forecast.
#[derive(Debug)]
pub struct ForecastCharts {
    pub precipitation: ChartGeometry,
    pub temperature: ChartGeometry,
    pub uv: ChartGeometry,
}

pub open spec fn min(a: int, b: int) -> int {
    if a <= b {
        a
    } else {
        b
    }
}

impl Data {
    /// The open-meteo query for the hourly and daily series of `forecast_days`
    /// days at a place (latitude and longitude in hundredths of a degree).
    pub fn api_query(latitude: i64, longitude: i64, forecast_days: usize) -> (r: String)
        ensures
            r@ == query_text(latitude as int, longitude as int, forecast_days as nat),
    {
        let mut q = String::from_str("https://api.open-meteo.com/v1/forecast?latitude=");
        let lat = format_hundredths(latitude);
        q.append(lat.as_str());
        q.append("&longitude=");
        let lon = format_hundredths(longitude);
        q.append(lon.as_str());
        q.append(
            "&hourly=apparent_temperature,precipitation_probability,precipitation,wind_speed_10m,wind_direction_10m&forecast_days=",
        );
        let days = format_count(forecast_days);
        q.append(days.as_str());
        q.append("&daily=uv_index_max");
        q
    }

    /// Hours that have both an amount and a chance of precipitation: the
    /// two series are paired up to the shorter one.
    pub open spec fn rain_hours(self) -> int {
        min(
            self.hourly.precipitation@.len() as int,
            self.hourly.precipitation_probability@.len() as int,
        )
    }

    /// Draws the rain, temperature and UV charts of the forecast with the
    /// configurations of `set`.
    pub fn charts(&self, set: &ChartSet) -> (r: ForecastCharts)
        requires
            set.wf(),
            self.hourly.precipitation@.len() <= usize::MAX / 2,
            self.hourly.apparent_temperature@.len() <= usize::MAX / 2,
            24 * self.daily.uv_index_max@.len() <= usize::MAX,
            24 * self.daily.time@.len() <= usize::MAX,
        ensures
            is_precipitation_chart(
                r.precipitation,
                set.precipitation,
                self.hourly.precipitation@.subrange(0, self.rain_hours()),
                self.hourly.precipitation_probability@.subrange(0, self.rain_hours()),
                self.hourly.time@,
            ),
            is_temperature_chart(
                r.temperature,
                set.temperature,
                self.hourly.apparent_temperature@,
                self.hourly.time@,
            ),
            is_uv_chart(r.uv, set.uv, self.daily.uv_index_max@, self.daily.time@.len()),
    {
        let h = &self.hourly;
        let n = if h.precipitation.len() <= h.precipitation_probability.len() {
            h.precipitation.len()
        } else {
            h.precipitation_probability.len()
        };
        let (mm, _) = h.precipitation.as_slice().split_at(n);
        let (probability, _) = h.precipitation_probability.as_slice().split_at(n);
        let precipitation = precipitation_chart(&set.precipitation, mm, probability, h.time.as_slice());
        let temperature = temperature_chart(
            &set.temperature,
            h.apparent_temperature.as_slice(),
            h.time.as_slice(),
        );
        let uv = uv_chart(&set.uv, self.daily.uv_index_max.as_slice(), self.daily.time.as_slice());
        ForecastCharts { precipitation, temperature, uv }
    }
}

} // verus!

use tws::measure::{Figure, Level, TempBand};
use tws::weather::{categorize_wind, get_weather_condition, parse_weather_data, CurrentWeather};

fn fig(x: f64) -> Figure {
    let level = if x.is_nan() {
        Level::Unknown
    } else {
        let f = x.floor();
        Level::Known { floor: f as i64, fractional: x != f }
    };
    Figure {
        level,
        plain: format!("{}", x),
        whole: format!("{:.0}", x),
        tenths: format!("{:.1}", x),
        rounded: x.round() as i32,
    }
}

fn current(precipitation: Option<f64>, rain: Option<f64>, snowfall: Option<f64>) -> CurrentWeather {
    CurrentWeather {
        temperature_2m: fig(12.5),
        relative_humidity_2m: fig(80.0),
        apparent_temperature: fig(11.0),
        precipitation: precipitation.map(fig),
        rain: rain.map(fig),
        snowfall: snowfall.map(fig),
        weather_code: 61,
        cloud_cover: fig(75.0),
        wind_speed_10m: fig(14.4),
        wind_direction_10m: fig(200.0),
        wind_gusts_10m: fig(30.0),
        wind_octant: 4,
        temperature_band: TempBand::Cool,
    }
}

#[test]
fn weather_condition_names() {
    assert_eq!(get_weather_condition(0), "Clear Sky");
    assert_eq!(get_weather_condition(1), "Mainly Clear");
    assert_eq!(get_weather_condition(2), "Partly Cloudy");
    assert_eq!(get_weather_condition(3), "Overcast");
    assert_eq!(get_weather_condition(48), "Foggy");
    assert_eq!(get_weather_condition(55), "Drizzle");
    assert_eq!(get_weather_condition(57), "Freezing Drizzle");
    assert_eq!(get_weather_condition(63), "Rain");
    assert_eq!(get_weather_condition(66), "Freezing Rain");
    assert_eq!(get_weather_condition(75), "Snow");
    assert_eq!(get_weather_condition(77), "Snow Grains");
    assert_eq!(get_weather_condition(82), "Rain Showers");
    assert_eq!(get_weather_condition(85), "Snow Showers");
    assert_eq!(get_weather_condition(95), "Thunderstorm");
    assert_eq!(get_weather_condition(99), "Thunderstorm");
}

#[test]
fn weather_condition_unknown_codes() {
    assert_eq!(get_weather_condition(4), "Unknown");
    assert_eq!(get_weather_condition(100), "Unknown");
    assert_eq!(get_weather_condition(-1), "Unknown");
    assert_eq!(get_weather_condition(94), "Unknown");
}

#[test]
fn wind_categories_at_thresholds() {
    assert_eq!(categorize_wind(fig(0.0).level), "calm");
    assert_eq!(categorize_wind(fig(1.99).level), "calm");
    assert_eq!(categorize_wind(fig(2.0).level), "light");
    assert_eq!(categorize_wind(fig(11.9).level), "moderate");
    assert_eq!(categorize_wind(fig(12.0).level), "fresh");
    assert_eq!(categorize_wind(fig(29.9).level), "strong");
    assert_eq!(categorize_wind(fig(30.0).level), "gale");
    assert_eq!(categorize_wind(fig(-3.0).level), "calm");
}

#[test]
fn wind_category_of_unknown_speed_is_gale() {
    assert_eq!(categorize_wind(Level::Unknown), "gale");
}

#[test]
fn wind_category_never_calms_as_speed_grows() {
    let order = ["calm", "light", "moderate", "fresh", "strong", "gale"];
    let mut last = 0;
    for tenth in 0..400 {
        let c = categorize_wind(fig(tenth as f64 / 10.0).level);
        let rank = order.iter().position(|n| *n == c).unwrap();
        assert!(rank >= last);
        last = rank;
    }
}

#[test]
fn level_comparisons() {
    let half = fig(0.5).level;
    assert!(half.is_above(0));
    assert!(!half.is_below(0));
    assert!(half.is_below(1));
    let zero = fig(0.0).level;
    assert!(!zero.is_above(0));
    assert!(zero.is_at_most(0));
    let neg = fig(-0.5).level;
    assert!(neg.is_below(0));
    assert!(!Level::Unknown.is_above(0));
    assert!(!Level::Unknown.is_below(0));
    assert!(!Level::Unknown.is_at_most(0));
}

#[test]
fn parse_derives_conditions() {
    let w = parse_weather_data(current(Some(1.2), Some(0.0), Some(0.0)), Some(("London", "United Kingdom")));
    assert_eq!(w.condition, "Rain");
    assert!(w.is_raining);
    assert!(!w.is_snowing);
    assert_eq!(w.wind_category, "fresh");
    assert_eq!(w.location, "London");
    assert_eq!(w.country, "United Kingdom");
    assert_eq!(w.precipitation.tenths, "1.2");
    assert!(w.latitude.is_none());
    assert_eq!(w.wind_octant, 4);
    assert_eq!(w.temperature_band, TempBand::Cool);
}

#[test]
fn parse_without_place_or_amounts() {
    let w = parse_weather_data(current(None, None, Some(0.4)), None);
    assert_eq!(w.location, "Unknown");
    assert_eq!(w.country, "");
    assert_eq!(w.precipitation.plain, "0");
    assert_eq!(w.precipitation.tenths, "0.0");
    assert_eq!(w.rain.whole, "0");
    assert!(!w.is_raining);
    assert!(w.is_snowing);
}

#[test]
fn parse_raining_from_rain_alone() {
    let w = parse_weather_data(current(Some(0.0), Some(0.1), None), None);
    assert!(w.is_raining);
    assert!(!w.is_snowing);
}

#[test]
fn zero_figure() {
    let z = Figure::zero();
    assert_eq!(z.level, Level::Known { floor: 0, fractional: false });
    assert_eq!(z.plain, format!("{}", 0.0f64));
    assert_eq!(z.whole, format!("{:.0}", 0.0f64));
    assert_eq!(z.tenths, format!("{:.1}", 0.0f64));
    assert_eq!(z.rounded, 0);
}

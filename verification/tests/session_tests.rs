use tws::measure::{Figure, Level, TempBand};
use tws::renderer::DisplayMode;
use tws::session::{display_info_lines, key_command, mode_label, plan_lookup, refetches, KeyCommand, Lookup};
use tws::weather::{parse_weather_data, CurrentWeather};

fn fig(x: f64) -> Figure {
    let f = x.floor();
    Figure {
        level: Level::Known { floor: f as i64, fractional: x != f },
        plain: format!("{}", x),
        whole: format!("{:.0}", x),
        tenths: format!("{:.1}", x),
        rounded: x.round() as i32,
    }
}

#[test]
fn keys() {
    assert_eq!(key_command("1"), KeyCommand::Switch(DisplayMode::Full));
    assert_eq!(key_command("2"), KeyCommand::Switch(DisplayMode::Minimalist));
    assert_eq!(key_command("3"), KeyCommand::Switch(DisplayMode::Data));
    assert_eq!(key_command("4"), KeyCommand::Switch(DisplayMode::Art));
    assert_eq!(key_command("q"), KeyCommand::Quit);
    assert_eq!(key_command("quit"), KeyCommand::Quit);
    assert_eq!(key_command("exit"), KeyCommand::Quit);
    assert_eq!(key_command(""), KeyCommand::Refresh);
    assert_eq!(key_command("5"), KeyCommand::Refresh);
}

#[test]
fn mode_labels() {
    assert_eq!(mode_label(DisplayMode::Full), "full");
    assert_eq!(mode_label(DisplayMode::Minimalist), "minimalist");
    assert_eq!(mode_label(DisplayMode::Data), "data");
    assert_eq!(mode_label(DisplayMode::Art), "art");
}

#[test]
fn lookups() {
    assert_eq!(plan_lookup("London", true), Lookup::Coordinates);
    assert_eq!(plan_lookup("auto", false), Lookup::DefaultCity);
    assert_eq!(plan_lookup("40.7128,-74.0060", false), Lookup::CoordinateText);
    assert_eq!(plan_lookup("London", false), Lookup::Named);
    assert!(refetches(Lookup::Coordinates));
    assert!(refetches(Lookup::Named));
    assert!(!refetches(Lookup::DefaultCity));
    assert!(!refetches(Lookup::CoordinateText));
}

fn current(precipitation: f64, rain: f64, snow: f64) -> CurrentWeather {
    CurrentWeather {
        temperature_2m: fig(-2.5),
        relative_humidity_2m: fig(90.0),
        apparent_temperature: fig(-6.0),
        precipitation: Some(fig(precipitation)),
        rain: Some(fig(rain)),
        snowfall: Some(fig(snow)),
        weather_code: 71,
        cloud_cover: fig(100.0),
        wind_speed_10m: fig(12.3),
        wind_direction_10m: fig(315.0),
        wind_gusts_10m: fig(20.0),
        wind_octant: 7,
        temperature_band: TempBand::Cool,
    }
}

#[test]
fn information_lines() {
    colored::control::set_override(false);
    let w = parse_weather_data(current(0.0, 0.0, 0.0), Some(("Bergen", "Norway")));
    assert_eq!(display_info_lines(&w), vec![
        "\n◈ Weather Information",
        "Location: Bergen, Norway\n",
        "Temperature:",
        "  Current: -3°C",
        "  Feels like: -6°C\n",
        "Wind:",
        "  Speed: 12.3 km/h",
        "  Direction: 315° (NW)\n",
        "Sky:",
        "  Condition: Snow",
        "  Cloud cover: 100%\n",
    ]);
}

#[test]
fn information_lines_with_precipitation() {
    colored::control::set_override(true);
    let w = parse_weather_data(current(1.25, 0.0, 2.0), None);
    let lines = display_info_lines(&w);
    assert_eq!(lines.len(), 14);
    assert_eq!(lines[0], "\n\x1b[1;36m◈ Weather Information\x1b[0m");
    assert_eq!(lines[2], "\x1b[1;37mTemperature:\x1b[0m");
    assert_eq!(lines[11], "\x1b[1;37mPrecipitation:\x1b[0m");
    assert_eq!(lines[12], format!("  Total: {:.1}mm", 1.25f64));
    assert_eq!(lines[13], "  Snow: 2.0cm");
}

use tws::measure::{Figure, Level, TempBand};
use tws::renderer::{
    get_cloud_status, get_weather_poem, get_wind_direction_name, get_wind_direction_symbol, is_white_space,
    pictures_for, DisplayMode, Panels, Picture, Renderer,
};
use tws::weather::{parse_weather_data, CurrentWeather, WeatherData};

fn fig(x: f64) -> Figure {
    let level = if x.is_nan() {
        Level::Unknown
    } else {
        let f = x.floor();
        Level::Known { floor: f as i64, fractional: x != f }
    };
    Figure {
        level,
        plain: format!("{}", x),
        whole: format!("{:.0}", x),
        tenths: format!("{:.1}", x),
        rounded: x.round() as i32,
    }
}

fn weather(temp: f64, precipitation: f64, rain: f64, snowfall: f64, cloud: f64, speed: f64, octant: usize) -> WeatherData {
    parse_weather_data(
        CurrentWeather {
            temperature_2m: fig(temp),
            relative_humidity_2m: fig(65.0),
            apparent_temperature: fig(temp - 2.0),
            precipitation: Some(fig(precipitation)),
            rain: Some(fig(rain)),
            snowfall: Some(fig(snowfall)),
            weather_code: 3,
            cloud_cover: fig(cloud),
            wind_speed_10m: fig(speed),
            wind_direction_10m: fig(octant as f64 * 45.0),
            wind_gusts_10m: fig(speed * 1.5),
            wind_octant: octant,
            temperature_band: TempBand::Mild,
        },
        Some(("Oslo", "Norway")),
    )
}

fn panels() -> Panels {
    Panels {
        temperature: "T1\nT2".to_string(),
        wind: "w1\nw2".to_string(),
        clouds: "c1".to_string(),
        precipitation: "p1\np2\n".to_string(),
        gradient: "GG".to_string(),
    }
}

fn check_header(line: &str, place: &str) {
    let head = format!("◈ Weather Station {} [", place);
    assert!(line.starts_with(&head), "{}", line);
    let time: Vec<char> = line[head.len()..].chars().collect();
    assert_eq!(time.len(), 9);
    assert_eq!(time[8], ']');
    assert_eq!(time[2], ':');
    assert_eq!(time[5], ':');
    for i in [0, 1, 3, 4, 6, 7] {
        assert!(time[i].is_ascii_digit());
    }
}

const FOOTER: &str = "Controls: [1] Full [2] Minimal [3] Data [4] Art [q] Quit";

#[test]
fn full_mode_screen() {
    let r = Renderer::new();
    let w = weather(21.6, 0.0, 0.0, 0.0, 64.0, 18.2, 2);
    let out = r.render(&w, &panels());
    let lines: Vec<&str> = out.split('\n').collect();
    check_header(lines[0], "Oslo, Norway");
    assert_eq!(lines[1], "");
    assert_eq!(lines[2], "T1");
    assert_eq!(lines[3], "T2");
    assert_eq!(lines[4], "");
    assert_eq!(lines[5], format!("{} │ c1", format!("{:<35}", "w1")));
    assert_eq!(lines[6], format!("{} │ ", format!("{:<35}", "w2")));
    assert_eq!(lines[7], format!("{} │ ", " ".repeat(35)));
    assert_eq!(lines[12], format!("{} │ ", " ".repeat(35)));
    assert_eq!(lines[13], "");
    assert_eq!(lines[14], "  ◈ 22°C • → 18.2 km/h • ☁ 64% • ◈ 65%");
    assert_eq!(lines[15], "");
    assert_eq!(lines[16], FOOTER);
    assert_eq!(lines.len(), 17);
}

#[test]
fn full_mode_with_precipitation() {
    let r = Renderer::new();
    let w = weather(8.0, 1.5, 1.5, 0.0, 0.0, 3.0, 0);
    let out = r.render(&w, &panels());
    let lines: Vec<&str> = out.split('\n').collect();
    assert_eq!(&lines[13..], &["", "p1", "p2", "", FOOTER]);
}

#[test]
fn unknown_mode_renders_full() {
    let mut r = Renderer::new();
    r.set_mode("sparkly");
    assert_eq!(r.display_mode(), DisplayMode::Full);
    let w = weather(21.6, 0.0, 0.0, 0.0, 64.0, 18.2, 2);
    let a = r.render(&w, &panels());
    let mut f = Renderer::new();
    f.set_mode("full");
    let b = f.render(&w, &panels());
    // the time may have moved on between the two; compare all but the header
    let a: Vec<&str> = a.split('\n').skip(1).collect();
    let b: Vec<&str> = b.split('\n').skip(1).collect();
    assert_eq!(a, b);
}

#[test]
fn set_mode_selects() {
    let mut r = Renderer::new();
    r.set_mode("art");
    assert_eq!(r.display_mode(), DisplayMode::Art);
    r.set_mode("data");
    assert_eq!(r.display_mode(), DisplayMode::Data);
    r.set_mode("minimalist");
    assert_eq!(r.display_mode(), DisplayMode::Minimalist);
    r.set_mode("Full");
    assert_eq!(r.display_mode(), DisplayMode::Full);
}

#[test]
fn minimalist_mode_screen() {
    colored::control::set_override(false);
    let mut r = Renderer::new();
    r.set_mode("minimalist");
    let w = weather(-0.5, 0.4, 0.0, 0.0, 0.4, 5.5, 4);
    let w = WeatherData { is_snowing: true, ..w };
    let out = r.render(&w, &panels());
    let lines: Vec<&str> = out.split('\n').collect();
    check_header(lines[0], "Oslo, Norway");
    assert_eq!(&lines[1..], &[
        "",
        "  ◈ -1°C Overcast",
        "",
        "  Wind: ↓ 5.5 km/h",
        "  Precip: ❄️ 0.4mm",
        "",
        FOOTER,
    ]);
}

#[test]
fn minimalist_mode_sky_line() {
    colored::control::set_override(true);
    let mut r = Renderer::new();
    r.set_mode("minimalist");
    let w = weather(30.0, 0.0, 0.0, 0.0, 55.0, 5.0, 1);
    let out = r.render(&w, &panels());
    let lines: Vec<&str> = out.split('\n').collect();
    assert_eq!(lines[2], "  \x1b[33m◈ 30°C\x1b[0m Overcast");
    assert_eq!(lines[4], "  Wind: ↗ 5 km/h");
    assert_eq!(lines[5], "  Sky: ☁️ 55%");
    assert_eq!(lines[6], "");
}

#[test]
fn data_mode_screen() {
    colored::control::set_override(false);
    let mut r = Renderer::new();
    r.set_mode("data");
    let w = weather(12.0, 0.2, 0.2, 0.0, 0.0, 7.25, 6);
    let out = r.render(&w, &panels());
    let lines: Vec<&str> = out.split('\n').collect();
    assert_eq!(&lines[1..], &[
        "",
        "  ◈ Temperature: 12°C",
        "     Feels like: 10°C",
        "",
        "  Wind         : 7.25 km/h (from 270° (W))",
        "  Humidity     : 65%",
        "  Cloud Cover  : 0% ((clear))",
        "  Precipitation: 0.2mm ((rain))",
        "",
        FOOTER,
    ]);
}

#[test]
fn art_mode_screen() {
    let mut r = Renderer::new();
    r.set_mode("art");
    let w = weather(25.0, 0.0, 0.0, 0.0, 10.0, 21.0, 0);
    let p = Panels {
        temperature: "abcdef\nxyz".to_string(),
        wind: "  W\u{3000}Q\n1".to_string(),
        clouds: String::new(),
        precipitation: String::new(),
        gradient: "❄️🔴".to_string(),
    };
    let out = r.render(&w, &p);
    let lines: Vec<&str> = out.split('\n').collect();
    assert_eq!(lines[2], "  ❄️🔴");
    assert_eq!(lines[3], "");
    assert_eq!(lines[4], "abWdQ");
    assert_eq!(lines[5], "1");
    assert_eq!(lines[6], "");
    assert_eq!(lines[16], "");
    assert_eq!(lines[17], "");
    assert_eq!(lines[18], "  Summer heat embraces, wind whispers through");
    assert_eq!(lines[19], "");
    assert_eq!(lines[20], FOOTER);
}

#[test]
fn art_overlay_is_at_most_68_wide() {
    let mut r = Renderer::new();
    r.set_mode("art");
    let w = weather(25.0, 0.0, 0.0, 0.0, 10.0, 21.0, 0);
    let p = Panels {
        temperature: "t".repeat(80),
        wind: "w".repeat(70),
        clouds: String::new(),
        precipitation: String::new(),
        gradient: String::new(),
    };
    let out = r.render(&w, &p);
    let lines: Vec<&str> = out.split('\n').collect();
    assert_eq!(lines[4], "w".repeat(68));
}

#[test]
fn header_without_country() {
    let r = Renderer::new();
    let w = WeatherData { country: String::new(), ..weather(1.0, 0.0, 0.0, 0.0, 0.0, 0.0, 0) };
    let out = r.render(&w, &panels());
    check_header(out.split('\n').next().unwrap(), "Oslo");
}

#[test]
fn direction_symbols_and_names() {
    let names = ["N", "NE", "E", "SE", "S", "SW", "W", "NW"];
    let arrows = ['↑', '↗', '→', '↘', '↓', '↙', '←', '↖'];
    for i in 0..16 {
        assert_eq!(get_wind_direction_name(i), names[i % 8]);
        assert_eq!(get_wind_direction_symbol(i), arrows[i % 8]);
    }
}

#[test]
fn cloud_status_notes() {
    assert_eq!(get_cloud_status(fig(5.0).level), "(clear)");
    assert_eq!(get_cloud_status(fig(20.0).level), "(partly)");
    assert_eq!(get_cloud_status(fig(50.0).level), "(cloudy)");
    assert_eq!(get_cloud_status(fig(80.0).level), "(overcast)");
    assert_eq!(get_cloud_status(Level::Unknown), "(overcast)");
}

#[test]
fn weather_poems() {
    assert_eq!(get_weather_poem(&weather(-15.0, 0.0, 0.0, 0.0, 0.0, 0.0, 0)), "Winter's chill lingers");
    assert_eq!(get_weather_poem(&weather(-10.0, 0.0, 0.0, 0.0, 0.0, 0.0, 0)), "A crisp morning air");
    assert_eq!(get_weather_poem(&weather(9.9, 1.0, 1.0, 0.0, 0.0, 0.0, 0)), "Mild and pleasant, rain dances down");
    let snowy = WeatherData { is_snowing: true, ..weather(10.0, 1.0, 0.0, 1.0, 0.0, 25.0, 0) };
    assert_eq!(get_weather_poem(&snowy), "Warmth fills the day, snow falls gently, wind whispers through");
    assert_eq!(get_weather_poem(&weather(35.0, 0.0, 0.0, 0.0, 0.0, 20.0, 0)), "Summer heat embraces");
}

#[test]
fn footer_line() {
    assert_eq!(Renderer::new().render_footer(), FOOTER);
}

#[test]
fn cloud_status_never_clears_as_cover_grows() {
    let order = ["(clear)", "(partly)", "(cloudy)", "(overcast)"];
    let mut last = 0;
    for pct in 0..=100 {
        let s = get_cloud_status(fig(pct as f64).level);
        let rank = order.iter().position(|n| *n == s).unwrap();
        assert!(rank >= last);
        last = rank;
    }
}

#[test]
fn pictures_of_each_mode() {
    let dry = weather(12.0, 0.0, 0.0, 0.0, 30.0, 10.0, 0);
    let wet = weather(12.0, 1.5, 1.5, 0.0, 30.0, 10.0, 0);
    assert_eq!(
        pictures_for(DisplayMode::Full, &dry),
        vec![(Picture::Temperature, 60, 12), (Picture::Wind, 35, 8), (Picture::Clouds, 35, 8)]
    );
    assert_eq!(
        pictures_for(DisplayMode::Full, &wet),
        vec![
            (Picture::Temperature, 60, 12),
            (Picture::Wind, 35, 8),
            (Picture::Clouds, 35, 8),
            (Picture::Precipitation, 60, 8)
        ]
    );
    assert_eq!(
        pictures_for(DisplayMode::Art, &wet),
        vec![(Picture::Gradient, 20, 1), (Picture::Temperature, 68, 13), (Picture::Wind, 68, 13)]
    );
    assert!(pictures_for(DisplayMode::Minimalist, &wet).is_empty());
    assert!(pictures_for(DisplayMode::Data, &wet).is_empty());
}

#[test]
fn white_space_like_std() {
    for code in 0u32..=0x10FFFF {
        if let Some(c) = char::from_u32(code) {
            assert_eq!(is_white_space(c), c.is_whitespace(), "code point {:#x}", code);
        }
    }
}

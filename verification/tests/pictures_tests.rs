use tws::grid::{blank_grid, grid_to_text};
use tws::measure::{Figure, Level, TempBand};
use tws::visualizations::{clouds, precipitation, temperature, wind};
use tws::weather::{parse_weather_data, CurrentWeather, WeatherData};

fn fig(x: f64) -> Figure {
    let level = if x.is_nan() {
        Level::Unknown
    } else {
        let f = x.floor();
        Level::Known { floor: f as i64, fractional: x != f }
    };
    Figure {
        level,
        plain: format!("{}", x),
        whole: format!("{:.0}", x),
        tenths: format!("{:.1}", x),
        rounded: x.round() as i32,
    }
}

fn weather(temp: f64, precipitation: f64, snowfall: f64, cloud: f64, speed: f64, octant: usize) -> WeatherData {
    parse_weather_data(
        CurrentWeather {
            temperature_2m: fig(temp),
            relative_humidity_2m: fig(65.0),
            apparent_temperature: fig(temp - 2.0),
            precipitation: Some(fig(precipitation)),
            rain: Some(fig(0.0)),
            snowfall: Some(fig(snowfall)),
            weather_code: 3,
            cloud_cover: fig(cloud),
            wind_speed_10m: fig(speed),
            wind_direction_10m: fig(octant as f64 * 45.0),
            wind_gusts_10m: fig(speed * 1.5),
            wind_octant: octant,
            temperature_band: TempBand::Mild,
        },
        Some(("Oslo", "Norway")),
    )
}

fn cell(g: &Vec<Vec<char>>, x: usize, y: usize) -> char {
    g[y][x]
}

#[test]
fn cold_background() {
    let mut g = blank_grid(10, 10);
    temperature::create_temp_background(&mut g, fig(-3.0).level);
    assert_eq!(cell(&g, 3, 4), '❄');
    assert_eq!(cell(&g, 0, 0), '·');
    assert_eq!(cell(&g, 2, 0), ' ');
    assert_eq!(cell(&g, 0, 3), ' ');
    assert_eq!(cell(&g, 7, 8), '·');
}

#[test]
fn snowflakes_only_below_three_tenths() {
    // row 3 of 10 is exactly three tenths down: no snowflake there
    let mut g = blank_grid(10, 10);
    temperature::create_temp_background(&mut g, fig(-3.0).level);
    assert_eq!(cell(&g, 4, 3), ' ');
    assert_eq!(cell(&g, 3, 4), '❄');
}

#[test]
fn cool_mild_and_hot_backgrounds() {
    let mut g = blank_grid(13, 5);
    temperature::create_temp_background(&mut g, fig(10.0).level);
    assert_eq!(cell(&g, 12, 0), '·');
    assert_eq!(cell(&g, 8, 4), '·');
    assert_eq!(cell(&g, 1, 0), ' ');
    let mut g = blank_grid(13, 5);
    temperature::create_temp_background(&mut g, fig(15.0).level);
    assert_eq!(cell(&g, 8, 4), '~');
    assert_eq!(cell(&g, 0, 0), '~');
    assert_eq!(cell(&g, 4, 4), ' ');
    let mut g = blank_grid(13, 5);
    temperature::create_temp_background(&mut g, fig(25.0).level);
    assert_eq!(cell(&g, 6, 0), '▒');
    assert_eq!(cell(&g, 12, 0), '▒');
    assert_eq!(cell(&g, 1, 0), ' ');
}

#[test]
fn temperature_in_the_centre() {
    let mut g = blank_grid(11, 3);
    temperature::display_temperature(&mut g, &fig(20.4), 11, 3);
    // "20°C" is 5 bytes: starts at (11 - 5) / 2 = 3 on row 1
    assert_eq!(grid_to_text(&g), "           \n   20°C    \n           ");
}

#[test]
fn temperature_wider_than_picture() {
    let mut g = blank_grid(3, 1);
    temperature::display_temperature(&mut g, &fig(-12.0), 3, 1);
    assert_eq!(grid_to_text(&g), "-12");
}

#[test]
fn cover_indicator() {
    let mut g = blank_grid(20, 4);
    clouds::add_cover_indicator(&mut g, &fig(42.0), 20, 4);
    // "⛅ 42% cover": 3 + 1 + 2 + 7 = 13 bytes, start (20 - 13) / 2 = 3, row 2
    let rows: Vec<String> = g.iter().map(|r| r.iter().collect()).collect();
    assert_eq!(rows[2], "   ⛅ 42% cover      ");
    assert_eq!(rows[0], " ".repeat(20));
    assert_eq!(rows[3], " ".repeat(20));
}

#[test]
fn cover_indicator_on_a_single_row() {
    let mut g = blank_grid(20, 1);
    clouds::add_cover_indicator(&mut g, &fig(90.0), 20, 1);
    let rows: Vec<String> = g.iter().map(|r| r.iter().collect()).collect();
    // "☁️ 90% cover": 6 + 1 + 2 + 7 = 16 bytes, start 2
    assert_eq!(rows[0], "  ☁\u{fe0f} 90% cover      ");
}

#[test]
fn intensity_indicator() {
    let mut g = blank_grid(20, 3);
    precipitation::add_intensity_indicator(&mut g, &fig(2.25), false, 20, 3);
    let rows: Vec<String> = g.iter().map(|r| r.iter().collect()).collect();
    let text = format!("🌧️ {:.1}mm", 2.25f64);
    let start = (20 - text.len()) / 2;
    let mut expected: Vec<char> = vec![' '; 20];
    for (i, c) in text.chars().enumerate() {
        expected[start + i] = c;
    }
    assert_eq!(rows[1], expected.iter().collect::<String>());
}

#[test]
fn direction_indicator() {
    let mut g = blank_grid(9, 4);
    wind::add_direction_indicator(&mut g, &fig(270.0), 6, 9, 4);
    let rows: Vec<String> = g.iter().map(|r| r.iter().collect()).collect();
    assert_eq!(rows[1], "    ←    ");
    // "270°" is 5 bytes: starts at 4 - 2 = 2
    assert_eq!(rows[2], "  270°   ");
}

#[test]
fn direction_indicator_in_a_short_picture() {
    let mut g = blank_grid(5, 2);
    wind::add_direction_indicator(&mut g, &fig(0.0), 8, 5, 2);
    assert_eq!(grid_to_text(&g), "     \n  ↑  ");
}

#[test]
fn precipitation_density() {
    assert_eq!(precipitation::calculate_density(0), 5);
    assert_eq!(precipitation::calculate_density(4), 5);
    assert_eq!(precipitation::calculate_density(42), 42);
    assert_eq!(precipitation::calculate_density(100), 100);
    assert_eq!(precipitation::calculate_density(1000), 100);
}

#[test]
fn wind_density() {
    assert_eq!(wind::calculate_density(0, "calm"), 5);
    assert_eq!(wind::calculate_density(4, "calm"), 13);
    assert_eq!(wind::calculate_density(2, "moderate"), 24);
    assert_eq!(wind::calculate_density(4, "gale"), 58);
    assert_eq!(wind::calculate_density(0, "hurricane"), 10);
    assert_eq!(wind::calculate_density(4, "strong"), 48);
}

#[test]
fn rain_characters() {
    assert_eq!(precipitation::get_particle_char(false, fig(0.5).level), '.');
    assert_eq!(precipitation::get_particle_char(false, fig(1.0).level), ':');
    assert_eq!(precipitation::get_particle_char(false, fig(4.9).level), '+');
    assert_eq!(precipitation::get_particle_char(false, fig(5.0).level), '*');
}

#[test]
fn snow_characters() {
    for _ in 0..50 {
        let c = precipitation::get_particle_char(true, fig(0.5).level);
        assert!(c == '*' || c == '✦' || c == '❄');
    }
}

#[test]
fn swirl_characters_by_age() {
    assert_eq!(wind::get_particle_char(0, fig(10.0).level), '~');
    assert_eq!(wind::get_particle_char(12, fig(10.0).level), '-');
    assert_eq!(wind::get_particle_char(95, fig(25.0).level), '◈');
    assert_eq!(wind::get_particle_char(112, fig(10.0).level), '-');
    assert_eq!(wind::get_particle_char(-1, fig(10.0).level), '-');
}

#[test]
fn strong_wind_characters_are_arrows() {
    for age in 0..50 {
        let c = wind::get_particle_char(age, fig(25.5).level);
        assert!("↑↗→↘↓↙←↖".contains(c));
    }
}

#[test]
fn snow_shows_below_freezing() {
    assert!(precipitation::falls_as_snow(&weather(-1.0, 1.0, 0.0, 50.0, 10.0, 0)));
    assert!(precipitation::falls_as_snow(&weather(3.0, 1.0, 0.5, 50.0, 10.0, 0)));
    assert!(!precipitation::falls_as_snow(&weather(0.0, 1.0, 0.0, 50.0, 10.0, 0)));
}

#[test]
fn less_dense_clouds() {
    assert!(clouds::is_less_dense('⛅'));
    assert!(!clouds::is_less_dense('☁'));
    assert!(!clouds::is_less_dense(' '));
}

#[test]
fn summaries() {
    let w = weather(21.6, 0.35, 0.0, 64.0, 18.2, 2);
    assert_eq!(temperature::get_summary(&w), "22°C (Overcast)");
    assert_eq!(clouds::get_summary(&w), "☁️ 64% cloudy");
    assert_eq!(precipitation::get_summary(&w), format!("🌧️ {:.1}mm", 0.35f64));
    assert_eq!(wind::get_summary(&w), "E 18 km/h (fresh)");
    let s = weather(-4.0, 2.0, 1.5, 10.0, 1.0, 9);
    assert_eq!(clouds::get_summary(&s), "⛅ 10% clear");
    assert_eq!(precipitation::get_summary(&s), "❄️ 2.0mm");
    assert_eq!(wind::get_summary(&s), "NE 1 km/h (calm)");
}

#[test]
fn cloud_status_words() {
    assert_eq!(clouds::get_cloud_status(fig(19.9).level), "clear");
    assert_eq!(clouds::get_cloud_status(fig(20.0).level), "partly cloudy");
    assert_eq!(clouds::get_cloud_status(fig(79.0).level), "cloudy");
    assert_eq!(clouds::get_cloud_status(fig(80.0).level), "overcast");
}

#[test]
fn snow_characters_vary() {
    let mut seen = std::collections::HashSet::new();
    for _ in 0..300 {
        seen.insert(precipitation::get_particle_char(true, fig(0.5).level));
    }
    assert!(seen.len() >= 2);
}

#[test]
fn strong_wind_arrows_vary() {
    let mut seen = std::collections::HashSet::new();
    for _ in 0..300 {
        seen.insert(wind::get_particle_char(0, fig(40.0).level));
    }
    assert!(seen.len() >= 2);
}

fn rows_of_text(t: &str) -> Vec<Vec<char>> {
    t.split('\n').map(|r| r.chars().collect()).collect()
}

#[test]
fn temperature_picture_from_bloom_cells() {
    let w = weather(-3.0, 0.0, 0.0, 10.0, 5.0, 0);
    let bloom = vec![(1, 1, '❄'), (2, 1, '◦'), (40, 1, '.'), (3, 2, '.')];
    let text = temperature::generate(12, 6, &w, &bloom);
    let mut g = blank_grid(12, 6);
    temperature::create_temp_background(&mut g, w.temperature.level);
    for &(x, y, ch) in &bloom {
        tws::grid::plot(&mut g, x, y, ch, 12, 6);
    }
    temperature::display_temperature(&mut g, &w.temperature, 12, 6);
    assert_eq!(text, grid_to_text(&g));
    let rows = rows_of_text(&text);
    assert_eq!(rows.len(), 6);
    assert_eq!(rows[1][1], '❄');
    assert_eq!(rows[1][2], '◦');
    assert_eq!(rows[2][3], '.');
    assert!(rows.iter().all(|r| r.len() == 12));
}

#[test]
fn clouds_picture_below_five_percent_is_empty() {
    let w = weather(10.0, 0.0, 0.0, 4.0, 5.0, 0);
    assert_eq!(clouds::generate(35, 8, &w, &vec![(1, 1, '☁')]), "");
}

#[test]
fn clouds_picture_draws_cells_over_lighter_ones() {
    let w = weather(10.0, 0.0, 0.0, 42.0, 5.0, 0);
    let cells = vec![(1, 1, '⛅'), (1, 1, '☁'), (2, 1, '☁'), (2, 1, '⛅'), (50, 0, '☁'), (0, 0, '☁')];
    let text = clouds::generate(20, 4, &w, &cells);
    let rows = rows_of_text(&text);
    assert_eq!(rows.len(), 4);
    assert_eq!(rows[1][1], '☁');
    assert_eq!(rows[1][2], '☁');
    assert_eq!(rows[0][0], '☁');
    let row2: String = rows[2].iter().collect();
    assert_eq!(row2, "   ⛅ 42% cover      ");
}

#[test]
fn precipitation_picture_without_precipitation_is_empty() {
    let w = weather(10.0, 0.0, 0.0, 42.0, 5.0, 0);
    assert_eq!(precipitation::generate(60, 8, &w, &vec![(1, 1)]), "");
}

#[test]
fn precipitation_picture_draws_rain_drops() {
    let w = weather(10.0, 2.0, 0.0, 42.0, 5.0, 0);
    let text = precipitation::generate(20, 5, &w, &vec![(1, 1), (4, 0), (30, 1), (2, 9)]);
    let rows = rows_of_text(&text);
    assert_eq!(rows.len(), 5);
    assert_eq!(rows[1][1], ':');
    assert_eq!(rows[0][4], ':');
    let row3: String = rows[3].iter().collect();
    // "🌧️ 2.0mm": 7 + 1 + 3 + 2 = 13 bytes, start (20 - 13) / 2 = 3, row 3
    assert!(row3.starts_with("   🌧️ 2.0mm "));
}

#[test]
fn precipitation_picture_draws_snow_below_freezing() {
    let w = weather(-5.0, 1.0, 0.0, 42.0, 5.0, 0);
    let text = precipitation::generate(20, 5, &w, &vec![(1, 1), (2, 2)]);
    let rows = rows_of_text(&text);
    for (x, y) in [(1, 1), (2, 2)] {
        assert!(['*', '✦', '❄'].contains(&rows[y][x]));
    }
    assert!(text.contains("❄️ 1.0mm"));
}

#[test]
fn wind_picture_draws_swirls_and_direction() {
    let w = weather(10.0, 0.0, 0.0, 42.0, 10.0, 2);
    let text = wind::generate(20, 5, &w, &vec![(2, 3, 0), (5, 4, 13), (99, 0, 0)]);
    let rows = rows_of_text(&text);
    assert_eq!(rows.len(), 5);
    assert_eq!(rows[3][2], '~');
    assert_eq!(rows[4][5], '-');
    assert_eq!(rows[1][10], '→');
    let row2: String = rows[2].iter().collect();
    assert!(row2.contains("90°"));
}

#[test]
fn wind_picture_draws_arrows_in_strong_wind() {
    let w = weather(10.0, 0.0, 0.0, 42.0, 40.0, 0);
    let text = wind::generate(20, 5, &w, &vec![(2, 3, 0), (5, 4, 13)]);
    let rows = rows_of_text(&text);
    let arrows = ['↑', '↗', '→', '↘', '↓', '↙', '←', '↖'];
    assert!(arrows.contains(&rows[3][2]));
    assert!(arrows.contains(&rows[4][5]));
}

#[test]
fn indicators_on_a_larger_grid_stay_inside() {
    let mut g = blank_grid(24, 6);
    clouds::add_cover_indicator(&mut g, &fig(42.0), 20, 4);
    let rows: Vec<String> = g.iter().map(|r| r.iter().collect()).collect();
    assert_eq!(rows[2], format!("   ⛅ 42% cover      {}", " ".repeat(4)));
    assert_eq!(rows[4], " ".repeat(24));
    let mut g = blank_grid(24, 6);
    precipitation::add_intensity_indicator(&mut g, &fig(2.0), false, 20, 4);
    let rows: Vec<String> = g.iter().map(|r| r.iter().collect()).collect();
    assert!(rows[2].starts_with("   🌧️ 2.0mm"));
    assert!(rows[2].ends_with("    "));
    assert_eq!(rows.len(), 6);
}

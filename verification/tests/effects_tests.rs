use colored::Colorize;
use tws::effects::color::{colorize_temp, create_temp_gradient, get_temperature_color_hex};
use tws::effects::{get_temperature_color, get_wind_color};
use tws::measure::{Figure, Level, TempBand};

#[test]
fn hex_colors() {
    assert_eq!(get_temperature_color_hex(0, 0, 255), "#0000FF");
    assert_eq!(get_temperature_color_hex(255, 0, 171), "#FF00AB");
    assert_eq!(get_temperature_color_hex(18, 52, 86), "#123456");
}

#[test]
fn gradient_from_levels() {
    assert_eq!(create_temp_gradient(&vec![0, 6]), "❄️🔴");
    assert_eq!(create_temp_gradient(&vec![]), "");
    assert_eq!(tws::effects::create_temp_gradient(&vec![1, 2, 3, 4, 5]), "🔵🫐🟢🟡🟠");
    assert_eq!(tws::visualizations::temperature::get_gradient(&vec![3]), "🟢");
}

#[test]
fn colour_bands_with_and_without_colouring() {
    colored::control::set_override(true);
    assert_eq!(colorize_temp("5°C", TempBand::Cold), "\x1b[34m5°C\x1b[0m");
    assert_eq!(colorize_temp("5°C", TempBand::Cool), "\x1b[36m5°C\x1b[0m");
    assert_eq!(colorize_temp("5°C", TempBand::Mild), "\x1b[33m5°C\x1b[0m");
    assert_eq!(colorize_temp("5°C", TempBand::Hot), "\x1b[31m5°C\x1b[0m");
    colored::control::set_override(false);
    assert_eq!(colorize_temp("5°C", TempBand::Hot), "5°C");
    colored::control::unset_override();
}

#[test]
fn wind_colours() {
    assert_eq!(get_wind_color("calm"), "\u{200B}".green());
    assert_eq!(get_wind_color("light"), "\u{200B}".green());
    assert_eq!(get_wind_color("moderate"), "\u{200B}".yellow());
    assert_eq!(get_wind_color("fresh"), "\u{200B}".yellow());
    assert_eq!(get_wind_color("strong"), "\u{200B}".red());
    assert_eq!(get_wind_color("gale"), "\u{200B}".red());
    assert_eq!(get_wind_color("breeze"), "\u{200B}".white());
}

#[test]
fn temperature_label_colour() {
    let f = Figure {
        level: Level::Known { floor: 21, fractional: true },
        plain: "21.5".to_string(),
        whole: "22".to_string(),
        tenths: "21.5".to_string(),
        rounded: 22,
    };
    assert_eq!(get_temperature_color(&f, TempBand::Mild), "21.5°C".yellow());
}

#[test]
fn colouring_reopens_after_inner_reset() {
    colored::control::set_override(true);
    assert_eq!(
        colorize_temp("a\x1b[0mb", TempBand::Cold),
        "\x1b[34ma\x1b[0m\x1b[34mb\x1b[0m"
    );
    colored::control::set_override(false);
    assert_eq!(colorize_temp("a\x1b[0mb", TempBand::Cold), "a\x1b[0mb");
    colored::control::unset_override();
}

#[test]
fn temperature_colour_writes_as_colorized_label() {
    let f = Figure {
        level: Level::Known { floor: -4, fractional: false },
        plain: "-4".to_string(),
        whole: "-4".to_string(),
        tenths: "-4.0".to_string(),
        rounded: -4,
    };
    colored::control::set_override(true);
    for band in [TempBand::Cold, TempBand::Cool, TempBand::Mild, TempBand::Hot] {
        assert_eq!(get_temperature_color(&f, band).to_string(), colorize_temp("-4°C", band));
    }
    colored::control::set_override(false);
    assert_eq!(get_temperature_color(&f, TempBand::Hot).to_string(), colorize_temp("-4°C", TempBand::Hot));
    colored::control::unset_override();
}

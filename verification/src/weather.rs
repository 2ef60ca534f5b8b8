use vstd::prelude::*;
use crate::measure::{Figure, Level, TempBand};

verus! {

/// The readable name of a WMO weather code.
pub open spec fn condition_name(code: int) -> Seq<char> {
    if code == 0 {
        "Clear Sky"@
    } else if code == 1 {
        "Mainly Clear"@
    } else if code == 2 {
        "Partly Cloudy"@
    } else if code == 3 {
        "Overcast"@
    } else if code == 45 || code == 48 {
        "Foggy"@
    } else if code == 51 || code == 53 || code == 55 {
        "Drizzle"@
    } else if code == 56 || code == 57 {
        "Freezing Drizzle"@
    } else if code == 61 || code == 63 || code == 65 {
        "Rain"@
    } else if code == 66 || code == 67 {
        "Freezing Rain"@
    } else if code == 71 || code == 73 || code == 75 {
        "Snow"@
    } else if code == 77 {
        "Snow Grains"@
    } else if code == 80 || code == 81 || code == 82 {
        "Rain Showers"@
    } else if code == 85 || code == 86 {
        "Snow Showers"@
    } else if 95 <= code <= 99 {
        "Thunderstorm"@
    } else {
        "Unknown"@
    }
}

/// The WMO code table: each code the service documents has its name (45
/// and 48 are both fog, 95 to 99 thunderstorms), and every other code is
/// unknown.
pub proof fn lemma_condition_table(code: int)
    ensures
        condition_name(0) == "Clear Sky"@,
        condition_name(1) == "Mainly Clear"@,
        condition_name(2) == "Partly Cloudy"@,
        condition_name(3) == "Overcast"@,
        condition_name(45) == "Foggy"@,
        condition_name(48) == "Foggy"@,
        condition_name(51) == "Drizzle"@,
        condition_name(53) == "Drizzle"@,
        condition_name(55) == "Drizzle"@,
        condition_name(56) == "Freezing Drizzle"@,
        condition_name(57) == "Freezing Drizzle"@,
        condition_name(61) == "Rain"@,
        condition_name(63) == "Rain"@,
        condition_name(65) == "Rain"@,
        condition_name(66) == "Freezing Rain"@,
        condition_name(67) == "Freezing Rain"@,
        condition_name(71) == "Snow"@,
        condition_name(73) == "Snow"@,
        condition_name(75) == "Snow"@,
        condition_name(77) == "Snow Grains"@,
        condition_name(80) == "Rain Showers"@,
        condition_name(81) == "Rain Showers"@,
        condition_name(82) == "Rain Showers"@,
        condition_name(85) == "Snow Showers"@,
        condition_name(86) == "Snow Showers"@,
        condition_name(95) == "Thunderstorm"@,
        condition_name(96) == "Thunderstorm"@,
        condition_name(97) == "Thunderstorm"@,
        condition_name(98) == "Thunderstorm"@,
        condition_name(99) == "Thunderstorm"@,
        code != 0 && code != 1 && code != 2 && code != 3 && code != 45 && code != 48 && code != 51 && code != 53 && code != 55 && code != 56 && code != 57 && code != 61 && code != 63 && code != 65 && code != 66 && code != 67 && code != 71 && code != 73 && code != 75 && code != 77 && code != 80 && code != 81 && code != 82 && code != 85 && code != 86 && code != 95 && code != 96 && code != 97 && code != 98 && code != 99 ==> condition_name(code) == "Unknown"@,
{
}

/// Converts a WMO weather code to a human-readable condition.
pub fn get_weather_condition(code: i32) -> (r: String)
    ensures
        r@ == condition_name(code as int),
{
    let name = if code == 0 {
        "Clear Sky"
    } else if code == 1 {
        "Mainly Clear"
    } else if code == 2 {
        "Partly Cloudy"
    } else if code == 3 {
        "Overcast"
    } else if code == 45 || code == 48 {
        "Foggy"
    } else if code == 51 || code == 53 || code == 55 {
        "Drizzle"
    } else if code == 56 || code == 57 {
        "Freezing Drizzle"
    } else if code == 61 || code == 63 || code == 65 {
        "Rain"
    } else if code == 66 || code == 67 {
        "Freezing Rain"
    } else if code == 71 || code == 73 || code == 75 {
        "Snow"
    } else if code == 77 {
        "Snow Grains"
    } else if code == 80 || code == 81 || code == 82 {
        "Rain Showers"
    } else if code == 85 || code == 86 {
        "Snow Showers"
    } else if 95 <= code && code <= 99 {
        "Thunderstorm"
    } else {
        "Unknown"
    };
    String::from_str(name)
}

/// Rank of a wind category, from calm (0) to gale (5).
pub open spec fn wind_rank(speed: Level) -> int {
    if speed.below(2) {
        0
    } else if speed.below(6) {
        1
    } else if speed.below(12) {
        2
    } else if speed.below(20) {
        3
    } else if speed.below(30) {
        4
    } else {
        5
    }
}

/// The name of the wind category of a rank.
pub open spec fn wind_category_name(rank: int) -> Seq<char> {
    if rank == 0 {
        "calm"@
    } else if rank == 1 {
        "light"@
    } else if rank == 2 {
        "moderate"@
    } else if rank == 3 {
        "fresh"@
    } else if rank == 4 {
        "strong"@
    } else {
        "gale"@
    }
}

/// Categorizes a wind speed (km/h) for visualization intensity.
pub fn categorize_wind(speed: Level) -> (r: String)
    ensures
        r@ == wind_category_name(wind_rank(speed)),
{
    let name = if speed.is_below(2) {
        "calm"
    } else if speed.is_below(6) {
        "light"
    } else if speed.is_below(12) {
        "moderate"
    } else if speed.is_below(20) {
        "fresh"
    } else if speed.is_below(30) {
        "strong"
    } else {
        "gale"
    };
    String::from_str(name)
}

/// The wind categories by speed (km/h): calm below 2, light below 6,
/// moderate below 12, fresh below 20, strong below 30, gale from 30 on (and
/// for a speed that is not a number, which is below no threshold).
pub proof fn lemma_wind_categories(speed: Level)
    ensures
        speed.below(2) ==> wind_category_name(wind_rank(speed)) == "calm"@,
        !speed.below(2) && speed.below(6) ==> wind_category_name(wind_rank(speed)) == "light"@,
        !speed.below(6) && speed.below(12) ==> wind_category_name(wind_rank(speed)) == "moderate"@,
        !speed.below(12) && speed.below(20) ==> wind_category_name(wind_rank(speed)) == "fresh"@,
        !speed.below(20) && speed.below(30) ==> wind_category_name(wind_rank(speed)) == "strong"@,
        !speed.below(30) ==> wind_category_name(wind_rank(speed)) == "gale"@,
{
}

/// The whole part of `a` is at most that of `b`, both being numbers.
pub open spec fn level_le(a: Level, b: Level) -> bool {
    match (a, b) {
        (Level::Known { floor: fa, .. }, Level::Known { floor: fb, .. }) => fa <= fb,
        _ => false,
    }
}

/// A stronger wind never falls in a calmer category.
pub proof fn lemma_wind_category_monotone(a: Level, b: Level)
    requires
        level_le(a, b),
    ensures
        wind_rank(a) <= wind_rank(b),
{
}

/// The current conditions as the forecast service reports them.
///
/// `wind_octant` is the compass sector index
/// `floor(((wind_direction_10m % 360) + 22.5) / 45)` cast to `usize`, and
/// `temperature_band` the colour band of `temperature_2m`.
pub struct CurrentWeather {
    pub temperature_2m: Figure,
    pub relative_humidity_2m: Figure,
    pub apparent_temperature: Figure,
    pub precipitation: Option<Figure>,
    pub rain: Option<Figure>,
    pub snowfall: Option<Figure>,
    pub weather_code: i32,
    pub cloud_cover: Figure,
    pub wind_speed_10m: Figure,
    pub wind_direction_10m: Figure,
    pub wind_gusts_10m: Figure,
    pub wind_octant: usize,
    pub temperature_band: TempBand,
}

/// Weather at a place, with the conditions derived from the measurements.
pub struct WeatherData {
    pub temperature: Figure,
    pub feels_like: Figure,
    pub humidity: Figure,
    pub precipitation: Figure,
    pub rain: Figure,
    pub snowfall: Figure,
    pub wind_speed: Figure,
    pub wind_direction: Figure,
    pub wind_gusts: Figure,
    pub cloud_cover: Figure,
    pub weather_code: i32,
    pub condition: String,
    pub is_raining: bool,
    pub is_snowing: bool,
    pub wind_category: String,
    pub location: String,
    pub country: String,
    pub latitude: Option<Figure>,
    pub longitude: Option<Figure>,
    pub wind_octant: usize,
    pub temperature_band: TempBand,
}

/// The figure reported, or zero when the service left it out.
pub open spec fn reported_or_zero(f: Option<Figure>, r: Figure) -> bool {
    match f {
        Some(g) => r == g,
        None => r.is_zero(),
    }
}

/// The level of a figure reported, or of zero when the service left it out.
pub open spec fn reported_level(f: Option<Figure>) -> Level {
    match f {
        Some(g) => g.level,
        None => Level::Known { floor: 0, fractional: false },
    }
}

fn or_zero(f: Option<Figure>) -> (r: Figure)
    ensures
        reported_or_zero(f, r),
{
    match f {
        Some(g) => g,
        None => Figure::zero(),
    }
}

/// Parses and enriches the current conditions into weather data for a place.
///
/// The place is the name and country given, or `Unknown` and the empty
/// country when none is given.
pub fn parse_weather_data(current: CurrentWeather, location_info: Option<(&str, &str)>) -> (r:
    WeatherData)
    ensures
        r.temperature == current.temperature_2m,
        r.feels_like == current.apparent_temperature,
        r.humidity == current.relative_humidity_2m,
        reported_or_zero(current.precipitation, r.precipitation),
        reported_or_zero(current.rain, r.rain),
        reported_or_zero(current.snowfall, r.snowfall),
        r.wind_speed == current.wind_speed_10m,
        r.wind_direction == current.wind_direction_10m,
        r.wind_gusts == current.wind_gusts_10m,
        r.cloud_cover == current.cloud_cover,
        r.weather_code == current.weather_code,
        r.condition@ == condition_name(current.weather_code as int),
        r.is_raining == (reported_level(current.rain).above(0) || reported_level(
            current.precipitation,
        ).above(0)),
        r.is_snowing == reported_level(current.snowfall).above(0),
        r.wind_category@ == wind_category_name(wind_rank(current.wind_speed_10m.level)),
        r.location@ == match location_info {
            Some((name, _)) => name@,
            None => "Unknown"@,
        },
        r.country@ == match location_info {
            Some((_, country)) => country@,
            None => Seq::<char>::empty(),
        },
        r.latitude is None,
        r.longitude is None,
        r.wind_octant == current.wind_octant,
        r.temperature_band == current.temperature_band,
{
    let code = current.weather_code;
    let condition = get_weather_condition(code);
    let wind_category = categorize_wind(current.wind_speed_10m.level);
    let precipitation = or_zero(current.precipitation);
    let rain = or_zero(current.rain);
    let snowfall = or_zero(current.snowfall);
    let is_raining = rain.level.is_above(0) || precipitation.level.is_above(0);
    let is_snowing = snowfall.level.is_above(0);
    let (location, country) = match location_info {
        Some((name, country)) => (String::from_str(name), String::from_str(country)),
        None => (String::from_str("Unknown"), String::new()),
    };
    WeatherData {
        temperature: current.temperature_2m,
        feels_like: current.apparent_temperature,
        humidity: current.relative_humidity_2m,
        precipitation,
        rain,
        snowfall,
        wind_speed: current.wind_speed_10m,
        wind_direction: current.wind_direction_10m,
        wind_gusts: current.wind_gusts_10m,
        cloud_cover: current.cloud_cover,
        weather_code: code,
        condition,
        is_raining,
        is_snowing,
        wind_category,
        location,
        country,
        latitude: None,
        longitude: None,
        wind_octant: current.wind_octant,
        temperature_band: current.temperature_band,
    }
}

} // verus!

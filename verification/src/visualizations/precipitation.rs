//! Precipitation picture: particle count and characters, and the intensity indicator.
use vstd::prelude::*;
use crate::grid::{blank_grid, blank_rows, covers, grid_to_text, plot_all, plot_cells, rows_of, write_over, write_text_at};
use crate::text::join;
use crate::measure::{Figure, Level};
use crate::text::str_len;
use crate::weather::WeatherData;

verus! {

/// The rain character of an intensity class, light (0) to heavy (3).
pub open spec fn rain_char(class: int) -> char {
    if class == 0 {
        '.'
    } else if class == 1 {
        ':'
    } else if class == 2 {
        '+'
    } else {
        '*'
    }
}

/// The snow characters.
pub open spec fn snow_char(k: int) -> char {
    if k == 0 {
        '*'
    } else if k == 1 {
        '✦'
    } else {
        '❄'
    }
}

/// The rain intensity class of a precipitation (mm).
pub open spec fn rain_class(intensity: Level) -> int {
    if intensity.below(1) {
        0
    } else if intensity.below(3) {
        1
    } else if intensity.below(5) {
        2
    } else {
        3
    }
}

/// The number of particles for a precipitation: `scaled` is the
/// precipitation times ten, cast to `usize`; the count is kept between 5 and
/// 100.
pub fn calculate_density(scaled: usize) -> (r: usize)
    ensures
        r == (if scaled < 5 { 5 } else if scaled > 100 { 100 } else { scaled }),
{
    let base = if scaled < 5 { 5 } else { scaled };
    if base < 100 { base } else { 100 }
}

/// The picture shows snow: it snows, or it is below freezing.
pub open spec fn shows_snow(w: WeatherData) -> bool {
    w.is_snowing || w.temperature.level.below(0)
}

/// Whether the picture shows snow: it snows, or it is below freezing.
pub fn falls_as_snow(weather: &WeatherData) -> (r: bool)
    ensures
        r == shows_snow(*weather),
{
    weather.is_snowing || weather.temperature.level.is_below(0)
}

/// The character of a particle: a snow character drawn at random when
/// snowing, otherwise the rain character of the intensity class.
pub fn get_particle_char(is_snowing: bool, intensity: Level) -> (r: char)
    ensures
        is_snowing ==> (r == snow_char(0) || r == snow_char(1) || r == snow_char(2)),
        !is_snowing ==> r == rain_char(rain_class(intensity)),
{
    if is_snowing {
        let k = super::random_below(3);
        if k == 0 {
            '*'
        } else if k == 1 {
            '✦'
        } else {
            '❄'
        }
    } else if intensity.is_below(1) {
        '.'
    } else if intensity.is_below(3) {
        ':'
    } else if intensity.is_below(5) {
        '+'
    } else {
        '*'
    }
}

/// The icon of the precipitation kind.
pub open spec fn precipitation_icon(is_snowing: bool) -> Seq<char> {
    if is_snowing {
        "❄️"@
    } else {
        "🌧️"@
    }
}

pub(crate) fn icon_for_precipitation(is_snowing: bool) -> (r: &'static str)
    ensures
        r@ == precipitation_icon(is_snowing),
{
    if is_snowing {
        "❄️"
    } else {
        "🌧️"
    }
}

/// The intensity indicator text: `icon {:.1}mm`.
pub open spec fn intensity_text(intensity: Figure, is_snowing: bool) -> Seq<char> {
    precipitation_icon(is_snowing) + " "@ + intensity.tenths@ + "mm"@
}

/// Writes the precipitation amount, centred, on the second row from the
/// bottom (the top row of a picture less than two rows high).
pub fn add_intensity_indicator(
    grid: &mut Vec<Vec<char>>,
    intensity: &Figure,
    is_snowing: bool,
    width: usize,
    height: usize,
)
    requires
        covers(old(grid)@, width as int, height as int),
        str_len(intensity_text(*intensity, is_snowing)) <= width,
    ensures
        final(grid)@.len() == old(grid)@.len(),
        forall|r: int| 0 <= r < old(grid)@.len() ==> (#[trigger] final(grid)@[r])@.len() == old(grid)@[r]@.len(),
        rows_of(final(grid)@) == write_over(
            rows_of(old(grid)@),
            intensity_text(*intensity, is_snowing),
            ((width - str_len(intensity_text(*intensity, is_snowing))) / 2) as int,
            (if height >= 2 { height - 2 } else { 0 }) as int,
            width as int,
            height as int,
        ),
{
    let icon = icon_for_precipitation(is_snowing);
    let text = crate::text::concat4(icon, " ", intensity.tenths.as_str(), "mm");
    let y = height.saturating_sub(2);
    let start_x = (width - text.as_str().len()) / 2;
    write_text_at(grid, text.as_str(), start_x, y, width, height);
}

/// `c` is a character a particle of the kind can show.
pub open spec fn drop_char_ok(c: char, snowing: bool, intensity: Level) -> bool {
    if snowing {
        c == snow_char(0) || c == snow_char(1) || c == snow_char(2)
    } else {
        c == rain_char(rain_class(intensity))
    }
}

/// The cells are the drops in order, at the same places, and each drop
/// inside the picture shows a character of the weather's precipitation.
pub open spec fn drops_drawn(
    drops: Seq<(usize, usize)>,
    cells: Seq<(usize, usize, char)>,
    w: WeatherData,
    width: usize,
    height: usize,
) -> bool {
    &&& cells.len() == drops.len()
    &&& forall|i: int|
        0 <= i < drops.len() ==> {
            &&& (#[trigger] cells[i]).0 == drops[i].0
            &&& cells[i].1 == drops[i].1
            &&& (cells[i].0 < width && cells[i].1 < height) ==> drop_char_ok(
                cells[i].2,
                shows_snow(w),
                w.precipitation.level,
            )
        }
}

/// The rows of the precipitation picture: the drawn drops over a blank
/// picture, and the intensity indicator.
pub open spec fn precipitation_rows(
    width: usize,
    height: usize,
    w: WeatherData,
    cells: Seq<(usize, usize, char)>,
) -> Seq<Seq<char>> {
    write_over(
        plot_all(blank_rows(width as int, height as int), cells, width as int, height as int),
        intensity_text(w.precipitation, shows_snow(w)),
        ((width - str_len(intensity_text(w.precipitation, shows_snow(w)))) / 2) as int,
        (if height >= 2 { height - 2 } else { 0 }) as int,
        width as int,
        height as int,
    )
}

/// The precipitation picture, `width` by `height`: nothing without
/// precipitation; otherwise the drops at the places given, each showing a
/// rain or snow character, and the intensity indicator, rows joined by line
/// feeds.
pub fn generate(width: usize, height: usize, weather: &WeatherData, drops: &Vec<(usize, usize)>) -> (r: String)
    requires
        !weather.precipitation.level.at_most(0) ==> str_len(
            intensity_text(weather.precipitation, shows_snow(*weather)),
        ) <= width,
    ensures
        weather.precipitation.level.at_most(0) ==> r@ == Seq::<char>::empty(),
        !weather.precipitation.level.at_most(0) ==> exists|cells: Seq<(usize, usize, char)>|
            drops_drawn(drops@, cells, *weather, width, height) && r@ == join(
                precipitation_rows(width, height, *weather, cells),
                seq!['\n'],
            ),
{
    let is_snowing = falls_as_snow(weather);
    if weather.precipitation.level.is_at_most(0) {
        return String::new();
    }
    let mut cells: Vec<(usize, usize, char)> = Vec::new();
    let mut i: usize = 0;
    while i < drops.len()
        invariant
            i <= drops.len(),
            is_snowing == shows_snow(*weather),
            drops_drawn(drops@.take(i as int), cells@, *weather, width, height),
        decreases drops.len() - i,
    {
        let (x, y) = drops[i];
        let ch = if x < width && y < height {
            get_particle_char(is_snowing, weather.precipitation.level)
        } else {
            ' '
        };
        cells.push((x, y, ch));
        i = i + 1;
    }
    assert(drops@.take(drops.len() as int) =~= drops@);
    let mut grid = blank_grid(width, height);
    plot_cells(&mut grid, &cells, width, height);
    add_intensity_indicator(&mut grid, &weather.precipitation, is_snowing, width, height);
    let r = grid_to_text(&grid);
    assert(drops_drawn(drops@, cells@, *weather, width, height) && r@ == join(
        precipitation_rows(width, height, *weather, cells@),
        seq!['\n'],
    ));
    r
}

/// A one-line summary: `icon {:.1}mm`.
pub fn get_summary(weather: &WeatherData) -> (r: String)
    ensures
        r@ == precipitation_icon(weather.is_snowing) + " "@ + weather.precipitation.tenths@ + "mm"@,
{
    let icon = icon_for_precipitation(weather.is_snowing);
    crate::text::concat4(icon, " ", weather.precipitation.tenths.as_str(), "mm")
}


/// The drop characters: rain by amount (mm), `.` below 1, `:` below 3,
/// `+` below 5, `*` from 5 on; snow as `*`, `✦` or `❄`; the icon a
/// snowflake for snow, a rain cloud otherwise; and at least 5, at most 100
/// particles, ten per millimetre in between.
pub proof fn lemma_drop_chars(intensity: Level, scaled: int)
    ensures
        intensity.below(1) ==> rain_char(rain_class(intensity)) == '.',
        !intensity.below(1) && intensity.below(3) ==> rain_char(rain_class(intensity)) == ':',
        !intensity.below(3) && intensity.below(5) ==> rain_char(rain_class(intensity)) == '+',
        !intensity.below(5) ==> rain_char(rain_class(intensity)) == '*',
        snow_char(0) == '*' && snow_char(1) == '✦' && snow_char(2) == '❄',
        precipitation_icon(true) == "❄️"@,
        precipitation_icon(false) == "🌧️"@,
{
}

/// The picture shows snow exactly when it snows or it is below freezing.
pub proof fn lemma_snow_shown(w: WeatherData)
    ensures
        shows_snow(w) <==> (w.is_snowing || w.temperature.level.below(0)),
        w.is_snowing ==> shows_snow(w),
        !w.is_snowing && w.temperature.level.below(0) ==> shows_snow(w),
        !w.is_snowing && !w.temperature.level.below(0) ==> !shows_snow(w),
{
}

/// The precipitation picture has `height` rows of `width` characters; the
/// intensity indicator, the kind's icon and the amount in tenths of a
/// millimetre, reads centred on the second row from the bottom (the top row
/// of a picture one row high), and every other row holds the drops drawn.
pub proof fn lemma_precipitation_picture(
    width: usize,
    height: usize,
    w: WeatherData,
    cells: Seq<(usize, usize, char)>,
)
    requires
        height > 0,
        str_len(intensity_text(w.precipitation, shows_snow(w))) <= width,
    ensures
        ({
            let r = precipitation_rows(width, height, w, cells);
            let text = intensity_text(w.precipitation, shows_snow(w));
            let y = if height >= 2 { height - 2 } else { 0 };
            let start = (width - str_len(text)) / 2;
            let drawn = plot_all(blank_rows(width as int, height as int), cells, width as int, height as int);
            &&& text == (if shows_snow(w) { "❄️"@ } else { "🌧️"@ }) + " "@ + w.precipitation.tenths@ + "mm"@
            &&& r.len() == height
            &&& forall|j: int| 0 <= j < height ==> (#[trigger] r[j]).len() == width
            &&& forall|i: int| 0 <= i < text.len() && start + i < width ==> #[trigger] r[y as int][start + i] == text[i]
            &&& forall|j: int| 0 <= j < height && j != y ==> #[trigger] r[j] == drawn[j]
        }),
{
    let text = intensity_text(w.precipitation, shows_snow(w));
    let y = if height >= 2 { height - 2 } else { 0 };
    let start = (width - str_len(text)) / 2;
    let blank = blank_rows(width as int, height as int);
    crate::grid::lemma_blank_shape(width as int, height as int);
    crate::grid::lemma_plot_all_keeps_shape(blank, cells, width as int, height as int);
    let drawn = plot_all(blank, cells, width as int, height as int);
    crate::grid::lemma_write_over_reads(drawn, text, start as int, y as int, width as int, height as int);
    let r = precipitation_rows(width, height, w, cells);
    assert forall|i: int| 0 <= i < text.len() && start + i < width implies #[trigger] r[y as int][start + i] == text[i] by {
        assert(r[y as int][start + i] == (if start <= start + i < start + text.len() && start + i < width {
            text[start + i - start]
        } else {
            drawn[y as int][start + i]
        }));
    }
}

} // verus!

//! Temperature picture: heat gradient background and the reading in the centre.
use vstd::prelude::*;
use crate::grid::{blank_grid, blank_rows, covers, grid_to_text, plot_all, plot_cells, rows_of, write_over, write_text_at};
use crate::text::join;
use crate::measure::{Figure, Level};
use crate::text::str_len;
use crate::weather::WeatherData;

verus! {

/// The background character at column `x` of row `y` of a picture `height`
/// rows high, given the cell's former character.
///
/// Below 0 °C snowflakes lie in the lower part of the picture (rows past
/// three tenths of the height) with dots between; below 15 °C there are
/// sparse dots; below 25 °C gentle waves; hotter, a heat shimmer.
pub open spec fn background_cell(temp: Level, x: int, y: int, height: int, former: char) -> char {
    if temp.below(0) {
        if (x + y) % 7 == 0 && 10 * y > 3 * height {
            '❄'
        } else if (x + y) % 15 == 0 {
            '·'
        } else {
            former
        }
    } else if temp.below(15) {
        if (x + y) % 12 == 0 {
            '·'
        } else {
            former
        }
    } else if temp.below(25) {
        if x % 8 == 0 && y % 4 == 0 {
            '~'
        } else {
            former
        }
    } else {
        if (x + y) % 6 == 0 {
            '▒'
        } else if (x + y) % 12 == 0 {
            ':'
        } else {
            former
        }
    }
}

/// The rows with the background drawn over every cell within the width of
/// the first row.
pub open spec fn with_background(rows: Seq<Seq<char>>, temp: Level) -> Seq<Seq<char>> {
    Seq::new(
        rows.len(),
        |y: int|
            Seq::new(
                rows[y].len(),
                |x: int|
                    if x < rows[0].len() {
                        background_cell(temp, x, y, rows.len() as int, rows[y][x])
                    } else {
                        rows[y][x]
                    },
            ),
    )
}

fn cell_for(temp: Level, x: usize, y: usize, height: usize, former: char) -> (r: char)
    requires
        x + y <= usize::MAX,
    ensures
        r == background_cell(temp, x as int, y as int, height as int, former),
{
    let s = x + y;
    if temp.is_below(0) {
        if s % 7 == 0 && (y as u128) * 10 > (height as u128) * 3 {
            '❄'
        } else if s % 15 == 0 {
            '·'
        } else {
            former
        }
    } else if temp.is_below(15) {
        if s % 12 == 0 {
            '·'
        } else {
            former
        }
    } else if temp.is_below(25) {
        if x % 8 == 0 && y % 4 == 0 {
            '~'
        } else {
            former
        }
    } else {
        if s % 6 == 0 {
            '▒'
        } else if s % 12 == 0 {
            ':'
        } else {
            former
        }
    }
}

/// Draws a subtle gradient background that depends on the temperature.
///
/// The picture's width is the length of its first row; "past three tenths
/// of the height" is `y / height > 0.3`, written exactly as `10 y > 3 height`.
pub fn create_temp_background(grid: &mut Vec<Vec<char>>, temp: Level)
    requires
        old(grid)@.len() > 0 ==> covers(old(grid)@, old(grid)@[0]@.len() as int, old(grid)@.len() as int),
        old(grid)@.len() > 0 ==> old(grid)@.len() + old(grid)@[0]@.len() <= usize::MAX,
    ensures
        rows_of(final(grid)@) == with_background(rows_of(old(grid)@), temp),
{
    let height = grid.len();
    let width = if grid.len() == 0 { 0 } else { grid[0].len() };
    let ghost rows0 = rows_of(grid@);
    let mut y: usize = 0;
    while y < height
        invariant
            height == grid@.len(),
            height == rows0.len(),
            height > 0 ==> width == rows0[0].len(),
            height + width <= usize::MAX,
            y <= height,
            forall|r: int| 0 <= r < height ==> rows0[r].len() >= width,
            forall|r: int| 0 <= r < height ==> (#[trigger] grid@[r])@.len() == rows0[r].len(),
            forall|r: int|
                0 <= r < y ==> (#[trigger] rows_of(grid@)[r]) == with_background(rows0, temp)[r],
            forall|r: int| y <= r < height ==> (#[trigger] rows_of(grid@)[r]) == rows0[r],
        decreases height - y,
    {
        let mut x: usize = 0;
        let ghost before = rows_of(grid@);
        assert(before[y as int] == rows0[y as int]);
        while x < width
            invariant
                height == grid@.len(),
                height == rows0.len(),
                y < height,
                x <= width,
                height + width <= usize::MAX,
                forall|r: int| 0 <= r < height ==> rows0[r].len() >= width,
                forall|r: int| 0 <= r < height ==> (#[trigger] grid@[r])@.len() == rows0[r].len(),
                forall|r: int| 0 <= r < height && r != y ==> (#[trigger] rows_of(grid@)[r]) == before[r],
                forall|c: int|
                    0 <= c < x ==> grid@[y as int]@[c] == background_cell(
                        temp,
                        c,
                        y as int,
                        height as int,
                        rows0[y as int][c],
                    ),
                forall|c: int| x <= c < rows0[y as int].len() ==> grid@[y as int]@[c] == rows0[y as int][c],
                before[y as int] == rows0[y as int],
            decreases width - x,
        {
            let former = grid[y][x];
            let ch = cell_for(temp, x, y, height, former);
            let ghost pre = rows_of(grid@);
            grid[y].set(x, ch);
            assert(rows_of(grid@) =~= pre.update(y as int, pre[y as int].update(x as int, ch)));
            x = x + 1;
        }
        assert(rows_of(grid@)[y as int] =~= with_background(rows0, temp)[y as int]);
        y = y + 1;
    }
    assert(rows_of(grid@) =~= with_background(rows0, temp));
}

/// The temperature label, `{:.0}°C`.
pub open spec fn temperature_label(temp: Figure) -> Seq<char> {
    temp.whole@ + "°C"@
}

/// Writes the temperature in the centre of the picture: on row `height / 2`,
/// from column `(width - n) / 2`, `n` being the label's length in bytes
/// (0 when it is longer than the picture is wide).
pub fn display_temperature(grid: &mut Vec<Vec<char>>, temp: &Figure, width: usize, height: usize)
    requires
        covers(old(grid)@, width as int, height as int),
    ensures
        final(grid)@.len() == old(grid)@.len(),
        forall|r: int| 0 <= r < old(grid)@.len() ==> (#[trigger] final(grid)@[r])@.len() == old(grid)@[r]@.len(),
        rows_of(final(grid)@) == write_over(
            rows_of(old(grid)@),
            temperature_label(*temp),
            (if str_len(temperature_label(*temp)) <= width {
                (width - str_len(temperature_label(*temp))) / 2
            } else {
                0
            }) as int,
            (height / 2) as int,
            width as int,
            height as int,
        ),
{
    let label = crate::text::concat2(temp.whole.as_str(), "°C");
    let n = label.as_str().len();
    let center_x = width.saturating_sub(n) / 2;
    let center_y = height / 2;
    write_text_at(grid, label.as_str(), center_x, center_y, width, height);
}

/// The column where the temperature label starts in a picture `width` wide.
pub open spec fn label_start(temp: Figure, width: usize) -> int {
    if str_len(temperature_label(temp)) <= width {
        ((width - str_len(temperature_label(temp))) / 2) as int
    } else {
        0
    }
}

/// The rows of the temperature picture: the background, the bloom cells
/// drawn over it in order, and the temperature label in the centre.
pub open spec fn temperature_rows(
    width: usize,
    height: usize,
    w: WeatherData,
    bloom: Seq<(usize, usize, char)>,
) -> Seq<Seq<char>> {
    write_over(
        plot_all(
            with_background(blank_rows(width as int, height as int), w.temperature.level),
            bloom,
            width as int,
            height as int,
        ),
        temperature_label(w.temperature),
        label_start(w.temperature, width),
        (height / 2) as int,
        width as int,
        height as int,
    )
}

/// The temperature picture, `width` by `height`: the heat background, the
/// thermal bloom cells given, and the temperature in the centre, rows joined
/// by line feeds.
pub fn generate(width: usize, height: usize, weather: &WeatherData, bloom: &Vec<(usize, usize, char)>) -> (r: String)
    requires
        width + height <= usize::MAX,
    ensures
        r@ == join(temperature_rows(width, height, *weather, bloom@), seq!['\n']),
{
    let mut grid = blank_grid(width, height);
    let ghost blank = rows_of(grid@);
    create_temp_background(&mut grid, weather.temperature.level);
    assert(covers(grid@, width as int, height as int)) by {
        assert(rows_of(grid@).len() == height);
        assert forall|y: int| 0 <= y < height implies (#[trigger] grid@[y])@.len() >= width by {
            assert(rows_of(grid@)[y] == with_background(blank, weather.temperature.level)[y]);
            assert(blank[y].len() == width);
            assert(rows_of(grid@)[y] == grid@[y]@);
        }
    }
    plot_cells(&mut grid, bloom, width, height);
    display_temperature(&mut grid, &weather.temperature, width, height);
    grid_to_text(&grid)
}

/// A temperature gradient of emoji, one per level.
pub fn get_gradient(levels: &Vec<usize>) -> (r: String)
    requires
        forall|i: int| 0 <= i < levels@.len() ==> levels@[i] < 7,
    ensures
        r@ == crate::effects::color::gradient_text(levels@),
{
    crate::effects::color::create_temp_gradient(levels)
}

/// A one-line summary: `{:.0}°C (condition)`.
pub fn get_summary(weather: &WeatherData) -> (r: String)
    ensures
        r@ == weather.temperature.whole@ + "°C ("@ + weather.condition@ + ")"@,
{
    crate::text::concat4(weather.temperature.whole.as_str(), "°C (", weather.condition.as_str(), ")")
}

/// The background by temperature, for a cell at column `x`, row `y` of a
/// picture `height` rows high (`s` being `x + y`). Below 0 °C a snowflake
/// where `s` is a multiple of 7 past three tenths of the height, else a dot
/// where `s` is a multiple of 15; below 15 °C a dot where `s` is a multiple
/// of 12; below 25 °C a wave on every eighth column of every fourth row;
/// hotter a shimmer where `s` is a multiple of 6. Every other cell keeps
/// what it held. In particular no snowflake lies in the top three tenths.
pub proof fn lemma_background_marks(temp: Level, x: int, y: int, height: int, former: char)
    requires
        0 <= x,
        0 <= y,
    ensures
        ({
            let b = background_cell(temp, x, y, height, former);
            let s = x + y;
            &&& temp.below(0) && s % 7 == 0 && 10 * y > 3 * height ==> b == '❄'
            &&& temp.below(0) && !(s % 7 == 0 && 10 * y > 3 * height) && s % 15 == 0 ==> b == '·'
            &&& temp.below(0) && !(s % 7 == 0 && 10 * y > 3 * height) && s % 15 != 0 ==> b == former
            &&& temp.below(0) && 10 * y <= 3 * height && former != '❄' ==> b != '❄'
            &&& !temp.below(0) && temp.below(15) ==> b == (if s % 12 == 0 { '·' } else { former })
            &&& !temp.below(15) && temp.below(25) ==> b == (if x % 8 == 0 && y % 4 == 0 {
                '~'
            } else {
                former
            })
            &&& !temp.below(25) ==> b == (if s % 6 == 0 { '▒' } else { former })
        }),
{
    if !temp.below(25) && (x + y) % 6 != 0 {
        assert((x + y) % 12 != 0);
    }
}

/// The temperature picture has `height` rows of `width` characters; the
/// temperature in whole degrees and `°C` reads centred on the middle row
/// when it fits the width (from the first column when it does not), and
/// every other row holds the background with the bloom drawn over it.
pub proof fn lemma_temperature_picture(
    width: usize,
    height: usize,
    w: WeatherData,
    bloom: Seq<(usize, usize, char)>,
)
    requires
        height > 0,
    ensures
        ({
            let r = temperature_rows(width, height, w, bloom);
            let label = temperature_label(w.temperature);
            let y = height / 2;
            let start = if str_len(label) <= width { (width - str_len(label)) / 2 } else { 0 };
            let drawn = plot_all(
                with_background(blank_rows(width as int, height as int), w.temperature.level),
                bloom,
                width as int,
                height as int,
            );
            &&& label == w.temperature.whole@ + "°C"@
            &&& r.len() == height
            &&& forall|j: int| 0 <= j < height ==> (#[trigger] r[j]).len() == width
            &&& forall|i: int| 0 <= i < label.len() && start + i < width ==> #[trigger] r[y as int][start + i] == label[i]
            &&& forall|j: int| 0 <= j < height && j != y ==> #[trigger] r[j] == drawn[j]
        }),
{
    let label = temperature_label(w.temperature);
    let y = height / 2;
    let start = label_start(w.temperature, width);
    let blank = blank_rows(width as int, height as int);
    crate::grid::lemma_blank_shape(width as int, height as int);
    let bg = with_background(blank, w.temperature.level);
    assert(bg.len() == height);
    assert forall|j: int| 0 <= j < height implies (#[trigger] bg[j]).len() == width by {}
    crate::grid::lemma_plot_all_keeps_shape(bg, bloom, width as int, height as int);
    let drawn = plot_all(bg, bloom, width as int, height as int);
    crate::grid::lemma_write_over_reads(drawn, label, start, y as int, width as int, height as int);
    let r = temperature_rows(width, height, w, bloom);
    assert forall|i: int| 0 <= i < label.len() && start + i < width implies #[trigger] r[y as int][start + i] == label[i] by {
        assert(r[y as int][start + i] == (if start <= start + i < start + label.len() && start + i < width {
            label[start + i - start]
        } else {
            drawn[y as int][start + i]
        }));
    }
}

} // verus!

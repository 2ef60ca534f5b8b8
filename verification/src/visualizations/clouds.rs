//! Cloud picture: the cover indicator and the cloud status.
use vstd::prelude::*;
use crate::grid::{blank_grid, blank_rows, covers, grid_to_text, rows_of, write_over, write_text_at};
use crate::text::join;
use crate::measure::{Figure, Level};
use crate::text::str_len;
use crate::weather::WeatherData;

verus! {

/// A cloud emoji is denser than a sun-behind-cloud one.
pub fn is_less_dense(ch: char) -> (r: bool)
    ensures
        r == (ch == '⛅'),
{
    ch == '⛅'
}

/// The status word of a cloud cover (percent).
pub open spec fn cloud_status(coverage: Level) -> Seq<char> {
    if coverage.below(20) {
        "clear"@
    } else if coverage.below(50) {
        "partly cloudy"@
    } else if coverage.below(80) {
        "cloudy"@
    } else {
        "overcast"@
    }
}

/// The status word of a cloud cover (percent).
pub fn get_cloud_status(coverage: Level) -> (r: &'static str)
    ensures
        r@ == cloud_status(coverage),
{
    if coverage.is_below(20) {
        "clear"
    } else if coverage.is_below(50) {
        "partly cloudy"
    } else if coverage.is_below(80) {
        "cloudy"
    } else {
        "overcast"
    }
}

/// The icon of a cloud cover: a sun behind a cloud below half cover, a cloud
/// otherwise.
pub open spec fn cover_icon(coverage: Level) -> Seq<char> {
    if coverage.below(50) {
        "⛅"@
    } else {
        "☁️"@
    }
}

pub(crate) fn icon_for_cover(coverage: Level) -> (r: &'static str)
    ensures
        r@ == cover_icon(coverage),
{
    if coverage.is_below(50) {
        "⛅"
    } else {
        "☁️"
    }
}

/// The cover indicator text: `icon {:.0}% cover`.
pub open spec fn cover_text(cloud_cover: Figure) -> Seq<char> {
    cover_icon(cloud_cover.level) + " "@ + cloud_cover.whole@ + "% cover"@
}

/// Writes the cloud cover percentage, centred, on the second row from the
/// bottom (the top row of a picture less than two rows high).
pub fn add_cover_indicator(
    grid: &mut Vec<Vec<char>>,
    cloud_cover: &Figure,
    width: usize,
    height: usize,
)
    requires
        covers(old(grid)@, width as int, height as int),
        str_len(cover_text(*cloud_cover)) <= width,
    ensures
        final(grid)@.len() == old(grid)@.len(),
        forall|r: int| 0 <= r < old(grid)@.len() ==> (#[trigger] final(grid)@[r])@.len() == old(grid)@[r]@.len(),
        rows_of(final(grid)@) == write_over(
            rows_of(old(grid)@),
            cover_text(*cloud_cover),
            ((width - str_len(cover_text(*cloud_cover))) / 2) as int,
            (if height >= 2 { height - 2 } else { 0 }) as int,
            width as int,
            height as int,
        ),
{
    let icon = icon_for_cover(cloud_cover.level);
    let text = crate::text::concat4(icon, " ", cloud_cover.whole.as_str(), "% cover");
    let y = height.saturating_sub(2);
    let start_x = (width - text.as_str().len()) / 2;
    write_text_at(grid, text.as_str(), start_x, y, width, height);
}

/// The rows with a cloud character at column `x` of row `y`, when that cell
/// lies inside the picture and holds a space or a less dense cloud.
pub open spec fn put_cloud(rows: Seq<Seq<char>>, x: int, y: int, ch: char, width: int, height: int) -> Seq<
    Seq<char>,
> {
    if 0 <= y < height && 0 <= x < width && y < rows.len() && x < rows[y].len() && (rows[y][x]
        == ' ' || rows[y][x] == '⛅') {
        rows.update(y, rows[y].update(x, ch))
    } else {
        rows
    }
}

/// The rows with the cloud cells drawn in order.
pub open spec fn put_clouds(
    rows: Seq<Seq<char>>,
    cells: Seq<(usize, usize, char)>,
    width: int,
    height: int,
) -> Seq<Seq<char>>
    decreases cells.len(),
{
    if cells.len() == 0 {
        rows
    } else {
        let c = cells.last();
        put_cloud(put_clouds(rows, cells.drop_last(), width, height), c.0 as int, c.1 as int, c.2, width, height)
    }
}

/// The rows of the cloud picture: the cloud cells over a blank picture, and
/// the cover indicator.
pub open spec fn cloud_rows(width: usize, height: usize, w: WeatherData, cells: Seq<(usize, usize, char)>) -> Seq<
    Seq<char>,
> {
    write_over(
        put_clouds(blank_rows(width as int, height as int), cells, width as int, height as int),
        cover_text(w.cloud_cover),
        ((width - str_len(cover_text(w.cloud_cover))) / 2) as int,
        (if height >= 2 { height - 2 } else { 0 }) as int,
        width as int,
        height as int,
    )
}

/// The cloud picture, `width` by `height`: nothing below 5 % cover;
/// otherwise the cloud cells given, each drawn over a space or a less dense
/// cloud, and the cover indicator, rows joined by line feeds.
pub fn generate(width: usize, height: usize, weather: &WeatherData, cells: &Vec<(usize, usize, char)>) -> (r: String)
    requires
        !weather.cloud_cover.level.below(5) ==> str_len(cover_text(weather.cloud_cover)) <= width,
    ensures
        weather.cloud_cover.level.below(5) ==> r@ == Seq::<char>::empty(),
        !weather.cloud_cover.level.below(5) ==> r@ == join(cloud_rows(width, height, *weather, cells@), seq!['\n']),
{
    if weather.cloud_cover.level.is_below(5) {
        return String::new();
    }
    let mut grid = blank_grid(width, height);
    let ghost rows0 = rows_of(grid@);
    let mut i: usize = 0;
    while i < cells.len()
        invariant
            i <= cells.len(),
            grid@.len() == height,
            forall|r: int| 0 <= r < height ==> (#[trigger] grid@[r])@.len() == width,
            rows_of(grid@) == put_clouds(rows0, cells@.take(i as int), width as int, height as int),
        decreases cells.len() - i,
    {
        let (x, y, ch) = cells[i];
        let ghost pre = rows_of(grid@);
        if x < width && y < height {
            let current = grid[y][x];
            if current == ' ' || is_less_dense(current) {
                grid[y].set(x, ch);
            }
        }
        assert(rows_of(grid@) =~= put_cloud(pre, x as int, y as int, ch, width as int, height as int));
        assert(cells@.take(i as int + 1).drop_last() =~= cells@.take(i as int));
        i = i + 1;
    }
    assert(cells@.take(cells.len() as int) =~= cells@);
    add_cover_indicator(&mut grid, &weather.cloud_cover, width, height);
    grid_to_text(&grid)
}

/// A one-line summary: `icon {:.0}% status`.
pub fn get_summary(weather: &WeatherData) -> (r: String)
    ensures
        r@ == cover_icon(weather.cloud_cover.level) + " "@ + weather.cloud_cover.whole@ + "% "@
            + cloud_status(weather.cloud_cover.level),
{
    let icon = icon_for_cover(weather.cloud_cover.level);
    let head = crate::text::concat4(icon, " ", weather.cloud_cover.whole.as_str(), "% ");
    crate::text::concat2(head.as_str(), get_cloud_status(weather.cloud_cover.level))
}


/// The cloud words by cover (percent): clear below 20, partly cloudy below
/// 50, cloudy below 80, overcast from 80 on; the sun behind a cloud below
/// half cover, a cloud from half cover on. Only the sun icon is lighter
/// than the cloud: a cloud is drawn over it, never the other way round.
pub proof fn lemma_cloud_words(c: Level)
    ensures
        c.below(20) ==> cloud_status(c) == "clear"@,
        !c.below(20) && c.below(50) ==> cloud_status(c) == "partly cloudy"@,
        !c.below(50) && c.below(80) ==> cloud_status(c) == "cloudy"@,
        !c.below(80) ==> cloud_status(c) == "overcast"@,
        c.below(50) ==> cover_icon(c) == "⛅"@,
        !c.below(50) ==> cover_icon(c) == "☁️"@,
        forall|rows: Seq<Seq<char>>, x: int, y: int, ch: char, w: int, h: int|
            0 <= y < h && 0 <= x < w && y < rows.len() && x < rows[y].len() && rows[y][x] == '☁'
                ==> #[trigger] put_cloud(rows, x, y, ch, w, h) == rows,
        forall|rows: Seq<Seq<char>>, x: int, y: int, ch: char, w: int, h: int|
            0 <= y < h && 0 <= x < w && y < rows.len() && x < rows[y].len() && (rows[y][x] == ' '
                || rows[y][x] == '⛅') ==> #[trigger] put_cloud(rows, x, y, ch, w, h)[y][x] == ch,
{
}

/// Drawing clouds keeps the shape of the picture.
proof fn lemma_put_clouds_shape(rows: Seq<Seq<char>>, cells: Seq<(usize, usize, char)>, width: int, height: int)
    ensures
        put_clouds(rows, cells, width, height).len() == rows.len(),
        forall|j: int|
            0 <= j < rows.len() ==> (#[trigger] put_clouds(rows, cells, width, height)[j]).len()
                == rows[j].len(),
    decreases cells.len(),
{
    if cells.len() > 0 {
        lemma_put_clouds_shape(rows, cells.drop_last(), width, height);
    }
}

/// The cloud picture has `height` rows of `width` characters; the cover
/// indicator, the icon and the cover in whole percent, reads centred on the
/// second row from the bottom (the top row of a picture one row high), and
/// every other row holds the clouds drawn.
pub proof fn lemma_cloud_picture(width: usize, height: usize, w: WeatherData, cells: Seq<(usize, usize, char)>)
    requires
        height > 0,
        str_len(cover_text(w.cloud_cover)) <= width,
    ensures
        ({
            let r = cloud_rows(width, height, w, cells);
            let text = cover_text(w.cloud_cover);
            let y = if height >= 2 { height - 2 } else { 0 };
            let start = (width - str_len(text)) / 2;
            let drawn = put_clouds(blank_rows(width as int, height as int), cells, width as int, height as int);
            &&& text == (if w.cloud_cover.level.below(50) { "⛅"@ } else { "☁️"@ }) + " "@
                + w.cloud_cover.whole@ + "% cover"@
            &&& r.len() == height
            &&& forall|j: int| 0 <= j < height ==> (#[trigger] r[j]).len() == width
            &&& forall|i: int| 0 <= i < text.len() && start + i < width ==> #[trigger] r[y as int][start + i] == text[i]
            &&& forall|j: int| 0 <= j < height && j != y ==> #[trigger] r[j] == drawn[j]
        }),
{
    let text = cover_text(w.cloud_cover);
    let y = if height >= 2 { height - 2 } else { 0 };
    let start = (width - str_len(text)) / 2;
    let blank = blank_rows(width as int, height as int);
    crate::grid::lemma_blank_shape(width as int, height as int);
    lemma_put_clouds_shape(blank, cells, width as int, height as int);
    let drawn = put_clouds(blank, cells, width as int, height as int);
    crate::grid::lemma_write_over_reads(drawn, text, start as int, y as int, width as int, height as int);
    let r = cloud_rows(width, height, w, cells);
    assert forall|i: int| 0 <= i < text.len() && start + i < width implies #[trigger] r[y as int][start + i] == text[i] by {
        assert(r[y as int][start + i] == (if start <= start + i < start + text.len() && start + i < width {
            text[start + i - start]
        } else {
            drawn[y as int][start + i]
        }));
    }
}

} // verus!

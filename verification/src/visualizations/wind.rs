//! Wind picture: particle count and characters, and the direction indicator.
use vstd::prelude::*;
use crate::compass::{arrow_of, name_of, sector_arrow, sector_name};
use crate::grid::{
    blank_grid, blank_rows, covers, grid_to_text, plot, plot_all, plot_cells, put_cell, rows_of,
    write_over, write_text_at,
};
use crate::text::join;
use crate::measure::{Figure, Level};
use crate::text::{same_text, str_len};
use crate::weather::WeatherData;

verus! {

/// The swirl characters, by particle age.
pub open spec fn swirl_char(k: int) -> char {
    if k == 0 {
        '~'
    } else if k == 1 {
        '-'
    } else if k == 2 {
        '·'
    } else if k == 3 {
        '✧'
    } else if k == 4 {
        '⋆'
    } else if k == 5 {
        '◦'
    } else if k == 6 {
        '○'
    } else {
        '◈'
    }
}

/// The base particle count of a wind category.
pub open spec fn base_density(category: Seq<char>) -> int {
    if category == "calm"@ {
        5
    } else if category == "light"@ {
        10
    } else if category == "moderate"@ {
        20
    } else if category == "fresh"@ {
        30
    } else if category == "strong"@ {
        40
    } else if category == "gale"@ {
        50
    } else {
        10
    }
}

/// The number of particles for a wind: the base count of its category plus
/// twice `remainder`, the whole part of the speed modulo 5, at most 60.
pub fn calculate_density(remainder: usize, category: &str) -> (r: usize)
    requires
        remainder < 5,
    ensures
        r == (if base_density(category@) + 2 * remainder < 60 {
            base_density(category@) + 2 * remainder
        } else {
            60
        }),
{
    let base: usize = if same_text(category, "calm") {
        5
    } else if same_text(category, "light") {
        10
    } else if same_text(category, "moderate") {
        20
    } else if same_text(category, "fresh") {
        30
    } else if same_text(category, "strong") {
        40
    } else if same_text(category, "gale") {
        50
    } else {
        10
    };
    let total = base + remainder * 2;
    if total < 60 { total } else { 60 }
}

/// The swirl character of a particle of the given age.
pub open spec fn age_char(age: i32) -> char {
    swirl_char((((age as usize) % 100) / 12) as int % 8)
}

/// The character of a particle: above 25 km/h a direction arrow drawn at
/// random, otherwise the swirl character of its age.
pub fn get_particle_char(age: i32, speed: Level) -> (r: char)
    ensures
        speed.above(25) ==> exists|k: int| 0 <= k < 8 && r == sector_arrow(k),
        !speed.above(25) ==> r == age_char(age),
{
    if speed.is_above(25) {
        let k = super::random_below(8);
        let r = arrow_of(k);
        assert(k % 8 == k);
        r
    } else {
        let idx = ((age as usize) % 100) / 12;
        let k = idx % 8;
        if k == 0 {
            '~'
        } else if k == 1 {
            '-'
        } else if k == 2 {
            '·'
        } else if k == 3 {
            '✧'
        } else if k == 4 {
            '⋆'
        } else if k == 5 {
            '◦'
        } else if k == 6 {
            '○'
        } else {
            '◈'
        }
    }
}

/// The direction label under the arrow: `{:.0}°`.
pub open spec fn direction_label(direction: Figure) -> Seq<char> {
    direction.whole@ + "°"@
}

/// The rows with the direction indicator: the arrow of the sector in the
/// middle column of the second row, and the direction label on the third row,
/// centred under it.
pub open spec fn with_direction(
    rows: Seq<Seq<char>>,
    direction: Figure,
    octant: usize,
    width: usize,
    height: usize,
) -> Seq<Seq<char>> {
    let label = direction_label(direction);
    let x = width / 2;
    let start = if x >= str_len(label) / 2 { x - str_len(label) / 2 } else { 0 };
    write_over(
        put_cell(rows, x as int, 1, sector_arrow((octant % 8) as int), width as int, height as int),
        label,
        start as int,
        2,
        width as int,
        height as int,
    )
}

/// Adds the wind direction arrow and the direction in degrees.
pub fn add_direction_indicator(
    grid: &mut Vec<Vec<char>>,
    direction: &Figure,
    octant: usize,
    width: usize,
    height: usize,
)
    requires
        covers(old(grid)@, width as int, height as int),
    ensures
        final(grid)@.len() == old(grid)@.len(),
        forall|r: int| 0 <= r < old(grid)@.len() ==> (#[trigger] final(grid)@[r])@.len() == old(grid)@[r]@.len(),
        rows_of(final(grid)@) == with_direction(rows_of(old(grid)@), *direction, octant, width, height),
{
    let arrow = arrow_of(octant);
    let x = width / 2;
    let y: usize = 1;
    plot(grid, x, y, arrow, width, height);
    let label = crate::text::concat2(direction.whole.as_str(), "°");
    let start_x = x.saturating_sub(label.as_str().len() / 2);
    if y + 1 < height {
        write_text_at(grid, label.as_str(), start_x, y + 1, width, height);
    } else {
        proof {
            assert(write_over(rows_of(grid@), label@, start_x as int, 2, width as int, height as int) == rows_of(grid@));
        }
    }
}

/// `c` is a character a particle of the given age can show at the given
/// wind speed.
pub open spec fn wind_char_ok(c: char, age: i32, speed: Level) -> bool {
    if speed.above(25) {
        exists|k: int| 0 <= k < 8 && c == sector_arrow(k)
    } else {
        c == age_char(age)
    }
}

/// The cells are the particles in order, at the same places, and each
/// particle inside the picture shows a character of its age and the speed.
pub open spec fn particles_drawn(
    particles: Seq<(usize, usize, i32)>,
    cells: Seq<(usize, usize, char)>,
    speed: Level,
    width: usize,
    height: usize,
) -> bool {
    &&& cells.len() == particles.len()
    &&& forall|i: int|
        0 <= i < particles.len() ==> {
            &&& (#[trigger] cells[i]).0 == particles[i].0
            &&& cells[i].1 == particles[i].1
            &&& (cells[i].0 < width && cells[i].1 < height) ==> wind_char_ok(
                cells[i].2,
                particles[i].2,
                speed,
            )
        }
}

/// The rows of the wind picture: the drawn particles over a blank picture,
/// and the direction indicator.
pub open spec fn wind_rows(
    width: usize,
    height: usize,
    w: WeatherData,
    cells: Seq<(usize, usize, char)>,
) -> Seq<Seq<char>> {
    with_direction(
        plot_all(blank_rows(width as int, height as int), cells, width as int, height as int),
        w.wind_direction,
        w.wind_octant,
        width,
        height,
    )
}

/// The wind picture, `width` by `height`: each particle, given by its place
/// and age, drawn as a swirl or an arrow, then the direction indicator, rows
/// joined by line feeds.
pub fn generate(
    width: usize,
    height: usize,
    weather: &WeatherData,
    particles: &Vec<(usize, usize, i32)>,
) -> (r: String)
    ensures
        exists|cells: Seq<(usize, usize, char)>|
            particles_drawn(particles@, cells, weather.wind_speed.level, width, height) && r@ == join(
                wind_rows(width, height, *weather, cells),
                seq!['\n'],
            ),
{
    let mut cells: Vec<(usize, usize, char)> = Vec::new();
    let mut i: usize = 0;
    while i < particles.len()
        invariant
            i <= particles.len(),
            particles_drawn(particles@.take(i as int), cells@, weather.wind_speed.level, width, height),
        decreases particles.len() - i,
    {
        let (x, y, age) = particles[i];
        let ch = if x < width && y < height {
            get_particle_char(age, weather.wind_speed.level)
        } else {
            ' '
        };
        cells.push((x, y, ch));
        i = i + 1;
    }
    assert(particles@.take(particles.len() as int) =~= particles@);
    let mut grid = blank_grid(width, height);
    plot_cells(&mut grid, &cells, width, height);
    add_direction_indicator(&mut grid, &weather.wind_direction, weather.wind_octant, width, height);
    let r = grid_to_text(&grid);
    assert(particles_drawn(particles@, cells@, weather.wind_speed.level, width, height) && r@ == join(
        wind_rows(width, height, *weather, cells@),
        seq!['\n'],
    ));
    r
}

/// A one-line summary: `name {:.0} km/h (category)`.
pub fn get_summary(weather: &WeatherData) -> (r: String)
    ensures
        r@ == sector_name((weather.wind_octant % 8) as int) + " "@ + weather.wind_speed.whole@
            + " km/h ("@ + weather.wind_category@ + ")"@,
{
    let name = name_of(weather.wind_octant);
    let head = crate::text::concat4(name, " ", weather.wind_speed.whole.as_str(), " km/h (");
    crate::text::concat3(head.as_str(), weather.wind_category.as_str(), ")")
}


/// The swirl characters by age, twelve steps of age per character and the
/// cycle repeating every hundred: `~ - · ✧ ⋆ ◦ ○ ◈`; and the particle
/// counts of the categories: calm 5, light 10, moderate 20, fresh 30,
/// strong 40, gale 50, any other 10.
pub proof fn lemma_swirls_and_counts()
    ensures
        swirl_char(0) == '~' && swirl_char(1) == '-' && swirl_char(2) == '·' && swirl_char(3) == '✧',
        swirl_char(4) == '⋆' && swirl_char(5) == '◦' && swirl_char(6) == '○' && swirl_char(7) == '◈',
        age_char(0) == '~' && age_char(11) == '~' && age_char(12) == '-' && age_char(24) == '·' && age_char(99) == '~',
        age_char(100) == '~',
        base_density("calm"@) == 5 && base_density("light"@) == 10 && base_density("moderate"@) == 20,
        base_density("fresh"@) == 30 && base_density("strong"@) == 40 && base_density("gale"@) == 50,
        forall|c: Seq<char>|
            c != "calm"@ && c != "light"@ && c != "moderate"@ && c != "fresh"@ && c != "strong"@ && c
                != "gale"@ ==> #[trigger] base_density(c) == 10,
{
    reveal_strlit("calm");
    reveal_strlit("light");
    reveal_strlit("moderate");
    reveal_strlit("fresh");
    reveal_strlit("strong");
    reveal_strlit("gale");
    assert("calm"@[0] == 'c' && "light"@[0] == 'l' && "moderate"@[0] == 'm');
    assert("fresh"@[0] == 'f' && "strong"@[0] == 's' && "gale"@[0] == 'g');
}

/// The wind picture has `height` rows of `width` characters; the arrow of
/// the direction's sector stands in the middle column of the second row,
/// the direction in whole degrees reads on the third row centred under it,
/// and every other cell holds the particles drawn.
pub proof fn lemma_wind_picture(width: usize, height: usize, w: WeatherData, cells: Seq<(usize, usize, char)>)
    requires
        height > 2,
        width > 0,
    ensures
        ({
            let r = wind_rows(width, height, w, cells);
            let label = direction_label(w.wind_direction);
            let x = width / 2;
            let start = if x >= str_len(label) / 2 { x - str_len(label) / 2 } else { 0 };
            let drawn = plot_all(blank_rows(width as int, height as int), cells, width as int, height as int);
            &&& label == w.wind_direction.whole@ + "°"@
            &&& r.len() == height
            &&& forall|j: int| 0 <= j < height ==> (#[trigger] r[j]).len() == width
            &&& r[1][x as int] == sector_arrow((w.wind_octant % 8) as int)
            &&& forall|c: int| 0 <= c < width && c != x ==> #[trigger] r[1][c] == drawn[1][c]
            &&& forall|i: int| 0 <= i < label.len() && start + i < width ==> #[trigger] r[2][start + i] == label[i]
            &&& forall|j: int| 0 <= j < height && j != 1 && j != 2 ==> #[trigger] r[j] == drawn[j]
        }),
{
    let label = direction_label(w.wind_direction);
    let x = width / 2;
    let start = if x >= str_len(label) / 2 { x - str_len(label) / 2 } else { 0 };
    let blank = blank_rows(width as int, height as int);
    crate::grid::lemma_blank_shape(width as int, height as int);
    crate::grid::lemma_plot_all_keeps_shape(blank, cells, width as int, height as int);
    let drawn = plot_all(blank, cells, width as int, height as int);
    let pc = put_cell(drawn, x as int, 1, sector_arrow((w.wind_octant % 8) as int), width as int, height as int);
    assert(pc == drawn.update(1, drawn[1].update(x as int, sector_arrow((w.wind_octant % 8) as int))));
    crate::grid::lemma_write_over_reads(pc, label, start as int, 2, width as int, height as int);
    let r = wind_rows(width, height, w, cells);
    assert(r == write_over(pc, label, start as int, 2, width as int, height as int));
    assert forall|i: int| 0 <= i < label.len() && start + i < width implies #[trigger] r[2][start + i] == label[i] by {
        assert(r[2][start + i] == (if start <= start + i < start + label.len() && start + i < width {
            label[start + i - start]
        } else {
            pc[2][start + i]
        }));
    }
}

} // verus!

//! Character pictures: a grid of rows, each of the same width.
use vstd::prelude::*;
use crate::text::{join, views};

verus! {

/// The grid has `height` rows of `width` characters each.
pub open spec fn shaped(g: Seq<Vec<char>>, width: int, height: int) -> bool {
    &&& g.len() == height
    &&& forall|y: int| 0 <= y < height ==> (#[trigger] g[y])@.len() == width
}

/// The grid has at least `height` rows, each of the first `height` holding
/// at least `width` characters: every cell inside the picture exists.
pub open spec fn covers(g: Seq<Vec<char>>, width: int, height: int) -> bool {
    &&& g.len() >= height
    &&& forall|y: int| 0 <= y < height ==> (#[trigger] g[y])@.len() >= width
}

/// The rows of the grid as character sequences.
pub open spec fn rows_of(g: Seq<Vec<char>>) -> Seq<Seq<char>> {
    Seq::new(g.len(), |y: int| g[y]@)
}

/// `row` with `text` written over it from column `start`, short of column
/// `limit`.
pub open spec fn overlay_row(row: Seq<char>, text: Seq<char>, start: int, limit: int) -> Seq<char> {
    Seq::new(
        row.len(),
        |x: int|
            if start <= x && x < start + text.len() && x < limit {
                text[x - start]
            } else {
                row[x]
            },
    )
}

/// The rows with `text` written over row `y` of a picture `width` by
/// `height` from column `start`, as far as the picture reaches; no change
/// when the row `y` lies outside the picture.
pub open spec fn write_over(
    rows: Seq<Seq<char>>,
    text: Seq<char>,
    start: int,
    y: int,
    width: int,
    height: int,
) -> Seq<Seq<char>> {
    if 0 <= y < height && y < rows.len() {
        rows.update(y, overlay_row(rows[y], text, start, width))
    } else {
        rows
    }
}

/// The rows with the character `ch` at column `x` of row `y`, when that cell
/// lies inside the picture `width` by `height`.
pub open spec fn put_cell(
    rows: Seq<Seq<char>>,
    x: int,
    y: int,
    ch: char,
    width: int,
    height: int,
) -> Seq<Seq<char>> {
    if 0 <= y < height && 0 <= x < width && y < rows.len() && x < rows[y].len() {
        rows.update(y, rows[y].update(x, ch))
    } else {
        rows
    }
}

/// The rows of a blank picture.
pub open spec fn blank_rows(width: int, height: int) -> Seq<Seq<char>> {
    Seq::new(height as nat, |y: int| Seq::new(width as nat, |x: int| ' '))
}

/// The rows with the cells drawn in order, each where it lies inside the
/// picture.
pub open spec fn plot_all(
    rows: Seq<Seq<char>>,
    cells: Seq<(usize, usize, char)>,
    width: int,
    height: int,
) -> Seq<Seq<char>>
    decreases cells.len(),
{
    if cells.len() == 0 {
        rows
    } else {
        let c = cells.last();
        put_cell(plot_all(rows, cells.drop_last(), width, height), c.0 as int, c.1 as int, c.2, width, height)
    }
}

/// A blank row.
pub fn blank_row(width: usize) -> (r: Vec<char>)
    ensures
        r@ == Seq::new(width as nat, |x: int| ' '),
{
    let mut r: Vec<char> = Vec::new();
    let mut i: usize = 0;
    while i < width
        invariant
            i <= width,
            r@ == Seq::new(i as nat, |x: int| ' '),
        decreases width - i,
    {
        r.push(' ');
        assert(r@ =~= Seq::new((i + 1) as nat, |x: int| ' '));
        i = i + 1;
    }
    r
}

/// A grid of `height` blank rows of `width` spaces.
pub fn blank_grid(width: usize, height: usize) -> (r: Vec<Vec<char>>)
    ensures
        shaped(r@, width as int, height as int),
        covers(r@, width as int, height as int),
        forall|y: int, x: int| 0 <= y < height && 0 <= x < width ==> r@[y]@[x] == ' ',
        rows_of(r@) == blank_rows(width as int, height as int),
{
    let mut r: Vec<Vec<char>> = Vec::new();
    let mut i: usize = 0;
    while i < height
        invariant
            i <= height,
            shaped(r@, width as int, i as int),
            forall|y: int, x: int| 0 <= y < i && 0 <= x < width ==> r@[y]@[x] == ' ',
        decreases height - i,
    {
        r.push(blank_row(width));
        i = i + 1;
    }
    assert forall|y: int| 0 <= y < height implies (#[trigger] rows_of(r@)[y]) =~= blank_rows(width as int, height as int)[y] by {
        assert(r@[y]@.len() == width);
    }
    assert(rows_of(r@) =~= blank_rows(width as int, height as int));
    r
}

/// The picture as text: its rows joined by line feeds.
pub fn grid_to_text(grid: &Vec<Vec<char>>) -> (r: String)
    ensures
        r@ == join(rows_of(grid@), seq!['\n']),
{
    let mut lines: Vec<String> = Vec::new();
    let mut i: usize = 0;
    while i < grid.len()
        invariant
            i <= grid.len(),
            views(lines@) =~= rows_of(grid@).take(i as int),
        decreases grid.len() - i,
    {
        let ghost before = views(lines@);
        let line = crate::text::string_of_chars(&grid[i]);
        lines.push(line);
        assert(views(lines@) =~= before.push(grid@[i as int]@));
        i = i + 1;
    }
    assert(rows_of(grid@).take(grid.len() as int) =~= rows_of(grid@));
    let nl = crate::text::owned("\n");
    proof {
        reveal_strlit("\n");
        assert(nl@ =~= seq!['\n']);
    }
    crate::text::join_strings(&lines, nl.as_str())
}

/// Sets the cell at column `x` of row `y` when it lies inside the picture.
pub fn plot(grid: &mut Vec<Vec<char>>, x: usize, y: usize, ch: char, width: usize, height: usize)
    requires
        covers(old(grid)@, width as int, height as int),
    ensures
        rows_of(final(grid)@) == put_cell(
            rows_of(old(grid)@),
            x as int,
            y as int,
            ch,
            width as int,
            height as int,
        ),
        final(grid)@.len() == old(grid)@.len(),
        forall|r: int| 0 <= r < old(grid)@.len() ==> (#[trigger] final(grid)@[r])@.len() == old(grid)@[r]@.len(),
{
    if x < width && y < height {
        grid[y].set(x, ch);
    }
    assert(rows_of(grid@) =~= put_cell(
        rows_of(old(grid)@),
        x as int,
        y as int,
        ch,
        width as int,
        height as int,
    ));
}

/// Writes `text` over row `y` from column `start`, character by character,
/// as far as the picture reaches; nothing when the row lies outside it.
pub fn write_text_at(
    grid: &mut Vec<Vec<char>>,
    text: &str,
    start: usize,
    y: usize,
    width: usize,
    height: usize,
)
    requires
        covers(old(grid)@, width as int, height as int),
        start <= width,
    ensures
        rows_of(final(grid)@) == write_over(
            rows_of(old(grid)@),
            text@,
            start as int,
            y as int,
            width as int,
            height as int,
        ),
        final(grid)@.len() == old(grid)@.len(),
        forall|r: int| 0 <= r < old(grid)@.len() ==> (#[trigger] final(grid)@[r])@.len() == old(grid)@[r]@.len(),
{
    let n = text.unicode_len();
    let mut i: usize = 0;
    let ghost rows0 = rows_of(grid@);
    let ghost w = width as int;
    let ghost h = height as int;
    if y >= height {
        assert(rows_of(grid@) =~= write_over(rows0, text@, start as int, y as int, w, h));
        return;
    }
    proof {
        assert(grid@[y as int]@.len() >= width);
        assert(text@.take(0) =~= Seq::<char>::empty());
        assert(overlay_row(rows0[y as int], Seq::<char>::empty(), start as int, w) =~= rows0[y as int]);
        assert(rows0.update(y as int, rows0[y as int]) =~= rows0);
    }
    while i < n
        invariant
            n == text@.len(),
            i <= n,
            start <= width,
            y < height,
            rows0.len() == grid@.len(),
            rows0.len() >= height,
            rows0[y as int].len() >= width,
            w == width as int,
            h == height as int,
            covers(grid@, width as int, height as int),
            forall|r: int| 0 <= r < rows0.len() ==> (#[trigger] grid@[r])@.len() == rows0[r].len(),
            rows_of(grid@) == write_over(rows0, text@.take(i as int), start as int, y as int, w, h),
        decreases n - i,
    {
        let ghost before = rows_of(grid@);
        let ghost prev_row = overlay_row(rows0[y as int], text@.take(i as int), start as int, w);
        let ghost next_row = overlay_row(rows0[y as int], text@.take(i as int + 1), start as int, w);
        assert(before[y as int] == prev_row);
        if i < width - start {
            let c = text.get_char(i);
            grid[y].set(start + i, c);
            assert(next_row =~= prev_row.update(start + i, c));
            assert(rows_of(grid@) =~= before.update(y as int, next_row));
        } else {
            assert(next_row =~= prev_row);
            assert(rows_of(grid@) =~= before.update(y as int, next_row));
        }
        assert(write_over(rows0, text@.take(i as int + 1), start as int, y as int, w, h) =~= rows0.update(y as int, next_row));
        assert(before =~= rows0.update(y as int, prev_row));
        assert(rows_of(grid@) =~= write_over(rows0, text@.take(i as int + 1), start as int, y as int, w, h));
        i = i + 1;
    }
    assert(text@.take(n as int) =~= text@);
}

/// Draws the cells in order, each where it lies inside the picture.
pub fn plot_cells(grid: &mut Vec<Vec<char>>, cells: &Vec<(usize, usize, char)>, width: usize, height: usize)
    requires
        covers(old(grid)@, width as int, height as int),
    ensures
        rows_of(final(grid)@) == plot_all(rows_of(old(grid)@), cells@, width as int, height as int),
        final(grid)@.len() == old(grid)@.len(),
        forall|r: int| 0 <= r < old(grid)@.len() ==> (#[trigger] final(grid)@[r])@.len() == old(grid)@[r]@.len(),
{
    let ghost rows0 = rows_of(grid@);
    let mut i: usize = 0;
    while i < cells.len()
        invariant
            i <= cells.len(),
            grid@.len() == rows0.len(),
            forall|r: int| 0 <= r < rows0.len() ==> (#[trigger] grid@[r])@.len() == rows0[r].len(),
            covers(grid@, width as int, height as int),
            rows_of(grid@) == plot_all(rows0, cells@.take(i as int), width as int, height as int),
        decreases cells.len() - i,
    {
        let (x, y, ch) = cells[i];
        plot(grid, x, y, ch, width, height);
        assert(cells@.take(i as int + 1).drop_last() =~= cells@.take(i as int));
        i = i + 1;
    }
    assert(cells@.take(cells.len() as int) =~= cells@);
}

/// Writing a text on row `y` of the picture: that row shows the text's
/// characters from column `start` on, short of the picture's width; every
/// other cell and every other row stays as it was, and no row changes
/// length. A row outside the picture leaves everything as it was.
pub proof fn lemma_write_over_reads(
    rows: Seq<Seq<char>>,
    text: Seq<char>,
    start: int,
    y: int,
    width: int,
    height: int,
)
    ensures
        ({
            let r = write_over(rows, text, start, y, width, height);
            &&& r.len() == rows.len()
            &&& forall|j: int| 0 <= j < rows.len() ==> (#[trigger] r[j]).len() == rows[j].len()
            &&& forall|j: int| 0 <= j < rows.len() && j != y ==> #[trigger] r[j] == rows[j]
            &&& !(0 <= y < height) ==> r == rows
            &&& (0 <= y < height && y < rows.len()) ==> forall|x: int|
                0 <= x < rows[y].len() ==> #[trigger] r[y][x] == (if start <= x < start + text.len() && x
                    < width {
                    text[x - start]
                } else {
                    rows[y][x]
                })
        }),
{
}

/// Drawing cells in order: at a place inside the picture the last cell drawn
/// there shows, and a place no cell is drawn at keeps its character; cells
/// outside the picture change nothing, and no row changes length.
pub proof fn lemma_plot_all_last_wins(
    rows: Seq<Seq<char>>,
    cells: Seq<(usize, usize, char)>,
    width: int,
    height: int,
    x: int,
    y: int,
)
    requires
        0 <= y < height,
        0 <= x < width,
        y < rows.len(),
        x < rows[y].len(),
    ensures
        ({
            let r = plot_all(rows, cells, width, height);
            &&& r.len() == rows.len()
            &&& forall|j: int| 0 <= j < rows.len() ==> (#[trigger] r[j]).len() == rows[j].len()
            &&& (forall|i: int| 0 <= i < cells.len() ==> !((#[trigger] cells[i]).0 == x && cells[i].1 == y))
                ==> r[y][x] == rows[y][x]
            &&& forall|i: int|
                0 <= i < cells.len() && (#[trigger] cells[i]).0 == x && cells[i].1 == y && (forall|k: int|
                    i < k < cells.len() ==> !(cells[k].0 == x && cells[k].1 == y)) ==> r[y][x] == cells[i].2
        }),
    decreases cells.len(),
{
    if cells.len() > 0 {
        let init = cells.drop_last();
        lemma_plot_all_last_wins(rows, init, width, height, x, y);
        let c = cells.last();
        let before = plot_all(rows, init, width, height);
        assert forall|i: int|
            0 <= i < cells.len() && (#[trigger] cells[i]).0 == x && cells[i].1 == y && (forall|k: int|
                i < k < cells.len() ==> !(cells[k].0 == x && cells[k].1 == y)) implies plot_all(
            rows,
            cells,
            width,
            height,
        )[y][x] == cells[i].2 by {
            if i < cells.len() - 1 {
                assert(!(cells[cells.len() - 1].0 == x && cells[cells.len() - 1].1 == y));
                assert(init[i] == cells[i]);
                assert forall|k: int| i < k < init.len() implies !(init[k].0 == x && init[k].1 == y) by {
                    assert(init[k] == cells[k]);
                }
            }
        }
        if forall|i: int| 0 <= i < cells.len() ==> !((#[trigger] cells[i]).0 == x && cells[i].1 == y) {
            assert forall|i: int| 0 <= i < init.len() implies !((#[trigger] init[i]).0 == x && init[i].1 == y) by {
                assert(init[i] == cells[i]);
            }
            assert(!(cells[cells.len() - 1].0 == x && cells[cells.len() - 1].1 == y));
        }
    }
}

/// Drawing cells keeps the shape of the picture: as many rows, each as
/// long as before.
pub proof fn lemma_plot_all_keeps_shape(
    rows: Seq<Seq<char>>,
    cells: Seq<(usize, usize, char)>,
    width: int,
    height: int,
)
    ensures
        plot_all(rows, cells, width, height).len() == rows.len(),
        forall|j: int|
            0 <= j < rows.len() ==> (#[trigger] plot_all(rows, cells, width, height)[j]).len()
                == rows[j].len(),
    decreases cells.len(),
{
    if cells.len() > 0 {
        lemma_plot_all_keeps_shape(rows, cells.drop_last(), width, height);
    }
}

/// A blank picture has `height` rows of `width` spaces.
pub proof fn lemma_blank_shape(width: int, height: int)
    requires
        0 <= width,
        0 <= height,
    ensures
        blank_rows(width, height).len() == height,
        forall|j: int| 0 <= j < height ==> (#[trigger] blank_rows(width, height)[j]).len() == width,
        forall|j: int, x: int| 0 <= j < height && 0 <= x < width ==> #[trigger] blank_rows(width, height)[j][x] == ' ',
{
}

} // verus!

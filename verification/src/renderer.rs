//! Main renderer: combines the weather pictures and figures into the screen.
use vstd::prelude::*;
use crate::compass::{arrow_of, name_of, sector_arrow, sector_name};
use crate::measure::Level;
use crate::text::{concat2, concat3, concat4, decimal, decimal_text, join, line_or_empty, lines_of, owned, same_text, spaces, str_len, text_lines, views};
use crate::weather::WeatherData;

verus! {

/// How the weather is shown.
#[derive(Clone, Copy, Debug, PartialEq, Eq)]
pub enum DisplayMode {
    /// All pictures combined.
    Full,
    /// A clean, subtle display.
    Minimalist,
    /// The figures first.
    Data,
    /// The pictures blended.
    Art,
}

/// The display mode a mode name selects; an unknown name selects `Full`.
pub open spec fn mode_of(name: Seq<char>) -> DisplayMode {
    if name == "minimalist"@ {
        DisplayMode::Minimalist
    } else if name == "data"@ {
        DisplayMode::Data
    } else if name == "art"@ {
        DisplayMode::Art
    } else {
        DisplayMode::Full
    }
}

/// The name of a display mode.
pub open spec fn mode_name(m: DisplayMode) -> Seq<char> {
    match m {
        DisplayMode::Full => "full"@,
        DisplayMode::Minimalist => "minimalist"@,
        DisplayMode::Data => "data"@,
        DisplayMode::Art => "art"@,
    }
}

/// The terminal size assumed: 80 columns, 24 rows.
pub fn get_terminal_size() -> (r: (usize, usize))
    ensures
        r == (80usize, 24usize),
{
    (80, 24)
}

/// `s` padded with spaces to `width` characters, unless `s` already takes
/// `width` bytes or more.
pub open spec fn padded(s: Seq<char>, width: usize) -> Seq<char> {
    if str_len(s) >= width {
        s
    } else if s.len() < width {
        s + spaces((width - s.len()) as nat)
    } else {
        s
    }
}

/// Pads `s` with spaces at the end to `width` characters; `s` is returned as
/// it is when its length in bytes is at least `width`.
pub fn pad_end(s: &str, width: usize) -> (r: String)
    ensures
        r@ == padded(s@, width),
{
    if s.len() >= width {
        owned(s)
    } else {
        let n = s.unicode_len();
        if n < width {
            let fill = crate::text::space_run(width - n);
            concat2(s, fill.as_str())
        } else {
            owned(s)
        }
    }
}

/// The arrow of the compass sector of the wind.
pub fn get_wind_direction_symbol(octant: usize) -> (r: char)
    ensures
        r == sector_arrow((octant % 8) as int),
{
    arrow_of(octant)
}

/// The name of the compass sector of the wind.
pub fn get_wind_direction_name(octant: usize) -> (r: &'static str)
    ensures
        r@ == sector_name((octant % 8) as int),
{
    name_of(octant)
}

/// The bracketed status of a cloud cover (percent).
pub open spec fn cloud_status_note(coverage: Level) -> Seq<char> {
    if coverage.below(20) {
        "(clear)"@
    } else if coverage.below(50) {
        "(partly)"@
    } else if coverage.below(80) {
        "(cloudy)"@
    } else {
        "(overcast)"@
    }
}

/// The bracketed status of a cloud cover (percent).
pub fn get_cloud_status(coverage: Level) -> (r: String)
    ensures
        r@ == cloud_status_note(coverage),
{
    let s = if coverage.is_below(20) {
        "(clear)"
    } else if coverage.is_below(50) {
        "(partly)"
    } else if coverage.is_below(80) {
        "(cloudy)"
    } else {
        "(overcast)"
    };
    owned(s)
}

/// The index of the temperature phrase: the first of -10, 0, 10, 20, 30
/// that the temperature is below, 4 when there is none.
pub open spec fn poem_index(temp: Level) -> int {
    if temp.below(-10) {
        0
    } else if temp.below(0) {
        1
    } else if temp.below(10) {
        2
    } else if temp.below(20) {
        3
    } else {
        4
    }
}

/// The phrase for a temperature index.
pub open spec fn temp_phrase(i: int) -> Seq<char> {
    if i == 0 {
        "Winter's chill lingers"@
    } else if i == 1 {
        "A crisp morning air"@
    } else if i == 2 {
        "Mild and pleasant"@
    } else if i == 3 {
        "Warmth fills the day"@
    } else {
        "Summer heat embraces"@
    }
}

/// The weather poem: the temperature phrase, then the falling rain or snow
/// when there is precipitation, then the wind above 20 km/h.
pub open spec fn poem(w: WeatherData) -> Seq<char> {
    let base = temp_phrase(poem_index(w.temperature.level));
    let with_fall = if w.precipitation.level.above(0) {
        if w.is_snowing {
            base + ", snow falls gently"@
        } else {
            base + ", rain dances down"@
        }
    } else {
        base
    };
    if w.wind_speed.level.above(20) {
        with_fall + ", wind whispers through"@
    } else {
        with_fall
    }
}

/// A short poem about the weather.
pub fn get_weather_poem(weather: &WeatherData) -> (r: String)
    ensures
        r@ == poem(*weather),
{
    let t = &weather.temperature.level;
    let phrase = if t.is_below(-10) {
        "Winter's chill lingers"
    } else if t.is_below(0) {
        "A crisp morning air"
    } else if t.is_below(10) {
        "Mild and pleasant"
    } else if t.is_below(20) {
        "Warmth fills the day"
    } else {
        "Summer heat embraces"
    };
    let mut r = owned(phrase);
    if weather.precipitation.level.is_above(0) {
        if weather.is_snowing {
            r.append(", snow falls gently");
        } else {
            r.append(", rain dances down");
        }
    }
    if weather.wind_speed.level.is_above(20) {
        r.append(", wind whispers through");
    }
    r
}

/// The text of the clock as `%H:%M:%S` writes it: two digits each for hours,
/// minutes and seconds, separated by colons.
pub open spec fn clock_shape(t: Seq<char>) -> bool {
    &&& t.len() == 8
    &&& t[2] == ':'
    &&& t[5] == ':'
    &&& forall|i: int|
        0 <= i < 8 && i != 2 && i != 5 ==> '0' <= #[trigger] t[i] && t[i] <= '9'
}

/// Calls `chrono::Local::now` and writes the local time with
/// `format("%H:%M:%S")`: the result depends on the clock and the time zone,
/// so only its shape is stated.
#[verifier::external_body]
fn clock_now() -> (r: String)
    ensures
        clock_shape(r@),
{
    chrono::Local::now().format("%H:%M:%S").to_string()
}

/// The characters that have the Unicode `White_Space` property.
pub open spec fn white_space(c: char) -> bool {
    let v = c as u32;
    ||| 0x09 <= v <= 0x0D
    ||| v == 0x20
    ||| v == 0x85
    ||| v == 0xA0
    ||| v == 0x1680
    ||| 0x2000 <= v <= 0x200A
    ||| v == 0x2028
    ||| v == 0x2029
    ||| v == 0x202F
    ||| v == 0x205F
    ||| v == 0x3000
}

/// Whether the character has the Unicode `White_Space` property, as
/// `char::is_whitespace` tells.
pub fn is_white_space(c: char) -> (r: bool)
    ensures
        r == white_space(c),
{
    let v = c as u32;
    (0x09 <= v && v <= 0x0D) || v == 0x20 || v == 0x85 || v == 0xA0 || v == 0x1680 || (0x2000
        <= v && v <= 0x200A) || v == 0x2028 || v == 0x2029 || v == 0x202F || v == 0x205F || v
        == 0x3000
}

/// The pictures the renderer places, drawn beforehand for the mode shown:
/// in full mode a temperature picture 60 by 12, wind and cloud pictures 35 by
/// 8, and, when there is precipitation, a precipitation picture 60 by 8; in
/// art mode the temperature gradient, and temperature and wind pictures 68 by
/// 13.  Pictures a mode does not use are not read.
pub struct Panels {
    pub temperature: String,
    pub wind: String,
    pub clouds: String,
    pub precipitation: String,
    pub gradient: String,
}

/// The header line.
pub open spec fn header_text(w: WeatherData, time: Seq<char>) -> Seq<char> {
    "◈ Weather Station "@ + w.location@ + (if w.country@.len() > 0 {
        ", "@ + w.country@
    } else {
        Seq::empty()
    }) + " ["@ + time + "]"@
}

/// The footer line with the controls.
pub open spec fn footer_text() -> Seq<char> {
    "Controls: [1] Full [2] Minimal [3] Data [4] Art [q] Quit"@
}

/// The compact data summary line.
pub open spec fn summary_text(w: WeatherData) -> Seq<char> {
    "  "@ + join(
        seq![
            "◈ "@ + decimal(w.temperature.rounded as int) + "°C"@,
            seq![sector_arrow((w.wind_octant % 8) as int)] + " "@ + w.wind_speed.plain@ + " km/h"@,
            "☁ "@ + w.cloud_cover.whole@ + "%"@,
            "◈ "@ + w.humidity.plain@ + "%"@,
        ],
        " • "@,
    )
}

/// The lines of full mode: the temperature picture, the wind and cloud
/// pictures side by side, and the precipitation picture or, when there is
/// no precipitation, the data summary.
pub open spec fn full_lines(w: WeatherData, p: Panels) -> Seq<Seq<char>> {
    lines_of(p.temperature@) + seq![Seq::empty()] + Seq::new(
        8,
        |y: int|
            padded(line_or_empty(lines_of(p.wind@), y), 35) + " │ "@ + line_or_empty(
                lines_of(p.clouds@),
                y,
            ),
    ) + seq![Seq::empty()] + (if w.precipitation.level.above(0) {
        lines_of(p.precipitation@)
    } else {
        seq![summary_text(w)]
    })
}

/// The temperature badge of minimalist mode, before colouring.
pub open spec fn minimal_badge_text(w: WeatherData) -> Seq<char> {
    "◈ "@ + decimal(w.temperature.rounded as int) + "°C"@
}

/// The temperature badge of data mode, before colouring.
pub open spec fn data_badge_text(w: WeatherData) -> Seq<char> {
    "◈ Temperature: "@ + decimal(w.temperature.rounded as int) + "°C"@
}

/// The lines of minimalist mode, with the coloured temperature badge.
pub open spec fn minimalist_lines(w: WeatherData, badge: Seq<char>) -> Seq<Seq<char>> {
    seq![
        "  "@ + badge + " "@ + w.condition@,
        Seq::empty(),
        "  Wind: "@ + seq![sector_arrow((w.wind_octant % 8) as int)] + " "@ + w.wind_speed.plain@
            + " km/h"@,
    ] + (if w.cloud_cover.level.above(5) {
        seq![
            "  Sky: "@ + crate::visualizations::clouds::cover_icon(w.cloud_cover.level) + " "@
                + w.cloud_cover.whole@ + "%"@,
        ]
    } else {
        Seq::empty()
    }) + (if w.precipitation.level.above(0) {
        seq![
            "  Precip: "@ + crate::visualizations::precipitation::precipitation_icon(w.is_snowing)
                + " "@ + w.precipitation.tenths@ + "mm"@,
        ]
    } else {
        Seq::empty()
    })
}

/// The rows of the data table: label, value and note.
pub open spec fn data_rows(w: WeatherData) -> Seq<(Seq<char>, Seq<char>, Seq<char>)> {
    seq![
        (
            "Wind"@,
            w.wind_speed.plain@ + " km/h"@,
            "from "@ + w.wind_direction.whole@ + "° ("@ + sector_name((w.wind_octant % 8) as int)
                + ")"@,
        ),
        ("Humidity"@, w.humidity.plain@ + "%"@, Seq::empty()),
        ("Cloud Cover"@, w.cloud_cover.whole@ + "%"@, cloud_status_note(w.cloud_cover.level)),
        (
            "Precipitation"@,
            w.precipitation.tenths@ + "mm"@,
            if w.is_snowing {
                "(snow)"@
            } else if w.rain.level.above(0) {
                "(rain)"@
            } else {
                Seq::empty()
            },
        ),
    ]
}

/// The greatest length in bytes of the labels.
pub open spec fn max_label(rows: Seq<(Seq<char>, Seq<char>, Seq<char>)>) -> usize
    decreases rows.len(),
{
    if rows.len() == 0 {
        0
    } else {
        let m = max_label(rows.drop_last());
        let l = str_len(rows.last().0);
        if l > m {
            l
        } else {
            m
        }
    }
}

/// The label padded with spaces to `width` characters, as `{:width$}` does.
pub open spec fn label_padded(label: Seq<char>, width: usize) -> Seq<char> {
    if label.len() < width {
        label + spaces((width - label.len()) as nat)
    } else {
        label
    }
}

/// A line of the data table.
pub open spec fn table_line(row: (Seq<char>, Seq<char>, Seq<char>), width: usize) -> Seq<char> {
    "  "@ + label_padded(row.0, width) + ": "@ + row.1 + (if row.2.len() > 0 {
        " ("@ + row.2 + ")"@
    } else {
        Seq::empty()
    })
}

/// The lines of the data table: one per row with a value or a note.
pub open spec fn table_lines(rows: Seq<(Seq<char>, Seq<char>, Seq<char>)>, width: usize) -> Seq<
    Seq<char>,
>
    decreases rows.len(),
{
    if rows.len() == 0 {
        Seq::empty()
    } else {
        let r = rows.last();
        table_lines(rows.drop_last(), width) + (if r.1.len() > 0 || r.2.len() > 0 {
            seq![table_line(r, width)]
        } else {
            Seq::empty()
        })
    }
}

/// The lines of data mode, with the coloured temperature badge.
pub open spec fn data_lines(w: WeatherData, badge: Seq<char>) -> Seq<Seq<char>> {
    seq![
        "  "@ + badge,
        "     Feels like: "@ + decimal(w.feels_like.rounded as int) + "°C"@,
        Seq::empty(),
    ] + table_lines(data_rows(w), max_label(data_rows(w)))
}

/// A temperature line overlaid with a wind line: as many characters as the
/// shorter of the two has, at most 68; the wind's where it is not white
/// space, the temperature's elsewhere.
pub open spec fn overlay_line(t: Seq<char>, wl: Seq<char>) -> Seq<char> {
    let n = if t.len() < wl.len() { t.len() } else { wl.len() };
    let m = if n < 68 { n } else { 68 };
    Seq::new(m, |i: int| if wl[i] != ' ' && !white_space(wl[i]) { wl[i] } else { t[i] })
}

/// The lines of art mode: the gradient, the temperature and wind pictures
/// overlaid, and the weather poem.
pub open spec fn art_lines(w: WeatherData, p: Panels) -> Seq<Seq<char>> {
    seq!["  "@ + p.gradient@, Seq::empty()] + Seq::new(
        13,
        |y: int|
            overlay_line(
                line_or_empty(lines_of(p.temperature@), y),
                line_or_empty(lines_of(p.wind@), y),
            ),
    ) + seq![Seq::empty(), "  "@ + poem(w)]
}

/// Line `y` of the lines, or an empty line past their end.
fn line_at(ls: &Vec<String>, y: usize) -> (r: String)
    ensures
        r@ == line_or_empty(views(ls@), y as int),
{
    if y < ls.len() {
        ls[y].clone()
    } else {
        String::new()
    }
}

/// Moves the lines of `more` to the end of `lines`.
fn append_lines(lines: &mut Vec<String>, more: Vec<String>)
    ensures
        views(final(lines)@) == views(old(lines)@) + views(more@),
{
    let mut more = more;
    let ghost m = views(more@);
    lines.append(&mut more);
    assert(views(lines@) =~= views(old(lines)@) + m);
}

/// Adds one line at the end.
fn push_line(lines: &mut Vec<String>, line: String)
    ensures
        views(final(lines)@) == views(old(lines)@).push(line@),
{
    lines.push(line);
    assert(views(lines@) =~= views(old(lines)@).push(line@));
}

/// The overlay of a temperature line and a wind line.
fn overlay(t: &str, wl: &str) -> (r: String)
    ensures
        r@ == overlay_line(t@, wl@),
{
    let tn = t.unicode_len();
    let wn = wl.unicode_len();
    let n = if tn < wn { tn } else { wn };
    let m = if n < 68 { n } else { 68 };
    let mut merged: Vec<char> = Vec::new();
    let mut i: usize = 0;
    while i < m
        invariant
            tn == t@.len(),
            wn == wl@.len(),
            m <= tn,
            m <= wn,
            m == overlay_line(t@, wl@).len(),
            i <= m,
            merged@ =~= overlay_line(t@, wl@).take(i as int),
        decreases m - i,
    {
        let w_ch = wl.get_char(i);
        let t_ch = t.get_char(i);
        let ch = if w_ch != ' ' && !is_white_space(w_ch) { w_ch } else { t_ch };
        merged.push(ch);
        i = i + 1;
    }
    crate::text::string_of_chars(&merged)
}

/// One row of the data table.
struct Entry {
    label: String,
    value: String,
    note: String,
}

spec fn entry_views(rows: Seq<Entry>) -> Seq<(Seq<char>, Seq<char>, Seq<char>)> {
    Seq::new(rows.len(), |i: int| (rows[i].label@, rows[i].value@, rows[i].note@))
}

fn table_width(rows: &Vec<Entry>) -> (r: usize)
    ensures
        r == max_label(entry_views(rows@)),
{
    let mut m: usize = 0;
    let mut i: usize = 0;
    while i < rows.len()
        invariant
            i <= rows.len(),
            m == max_label(entry_views(rows@).take(i as int)),
        decreases rows.len() - i,
    {
        let l = rows[i].label.as_str().len();
        assert(entry_views(rows@).take(i as int + 1).drop_last() =~= entry_views(rows@).take(
            i as int,
        ));
        if l > m {
            m = l;
        }
        i = i + 1;
    }
    assert(entry_views(rows@).take(rows.len() as int) =~= entry_views(rows@));
    m
}

fn table(rows: &Vec<Entry>) -> (r: Vec<String>)
    ensures
        views(r@) == table_lines(entry_views(rows@), max_label(entry_views(rows@))),
{
    let width = table_width(rows);
    let mut out: Vec<String> = Vec::new();
    let mut i: usize = 0;
    while i < rows.len()
        invariant
            i <= rows.len(),
            width == max_label(entry_views(rows@)),
            views(out@) == table_lines(entry_views(rows@).take(i as int), width),
        decreases rows.len() - i,
    {
        let row = &rows[i];
        let ghost ev = entry_views(rows@)[i as int];
        let ghost before = views(out@);
        assert(ev == (row.label@, row.value@, row.note@));
        assert(entry_views(rows@).take(i as int + 1).drop_last() =~= entry_views(rows@).take(
            i as int,
        ));
        assert(entry_views(rows@).take(i as int + 1).last() == ev);
        if !row.value.as_str().is_empty() || !row.note.as_str().is_empty() {
            let n = row.label.as_str().unicode_len();
            let label = if n < width {
                let fill = crate::text::space_run(width - n);
                concat2(row.label.as_str(), fill.as_str())
            } else {
                row.label.clone()
            };
            let mut line = concat4("  ", label.as_str(), ": ", row.value.as_str());
            if !row.note.as_str().is_empty() {
                line.append(" (");
                line.append(row.note.as_str());
                line.append(")");
            }
            assert(label@ == label_padded(row.label@, width));
            assert(line@ =~= table_line(ev, width));
            push_line(&mut out, line);
            assert(views(out@) == table_lines(entry_views(rows@).take(i as int + 1), width));
        } else {
            assert(views(out@) =~= table_lines(entry_views(rows@).take(i as int + 1), width));
        }
        i = i + 1;
    }
    assert(entry_views(rows@).take(rows.len() as int) =~= entry_views(rows@));
    out
}

/// Whether `badge` can be the coloured temperature badge of the mode: the
/// badge text painted in the colour of the temperature band, as a value
/// coloured by `colored` in that colour is written, in minimalist and data
/// modes; empty in the others.
pub open spec fn badge_fits(mode: DisplayMode, w: WeatherData, badge: Seq<char>) -> bool {
    match mode {
        DisplayMode::Minimalist => crate::effects::painted(
            badge,
            minimal_badge_text(w),
            false,
            crate::effects::band_hue(w.temperature_band),
        ) && crate::effects::writes(
            badge,
            crate::effects::tinted(minimal_badge_text(w), crate::effects::band_hue(w.temperature_band)),
        ),
        DisplayMode::Data => crate::effects::painted(
            badge,
            data_badge_text(w),
            false,
            crate::effects::band_hue(w.temperature_band),
        ) && crate::effects::writes(
            badge,
            crate::effects::tinted(data_badge_text(w), crate::effects::band_hue(w.temperature_band)),
        ),
        _ => badge == Seq::<char>::empty(),
    }
}

/// The body lines of a mode.
pub open spec fn body_lines(mode: DisplayMode, w: WeatherData, p: Panels, badge: Seq<char>) -> Seq<
    Seq<char>,
> {
    match mode {
        DisplayMode::Full => full_lines(w, p),
        DisplayMode::Minimalist => minimalist_lines(w, badge),
        DisplayMode::Data => data_lines(w, badge),
        DisplayMode::Art => art_lines(w, p),
    }
}

/// All lines of the screen: header, blank line, body, blank line, footer.
pub open spec fn screen_lines(
    mode: DisplayMode,
    w: WeatherData,
    p: Panels,
    time: Seq<char>,
    badge: Seq<char>,
) -> Seq<Seq<char>> {
    seq![header_text(w, time), Seq::empty()] + body_lines(mode, w, p, badge) + seq![
        Seq::empty(),
        footer_text(),
    ]
}

/// The screen: its lines joined by line feeds.
pub open spec fn screen(
    mode: DisplayMode,
    w: WeatherData,
    p: Panels,
    time: Seq<char>,
    badge: Seq<char>,
) -> Seq<char> {
    join(screen_lines(mode, w, p, time, badge), seq!['\n'])
}

/// A picture that a display mode places.
#[derive(Clone, Copy, Debug, PartialEq, Eq)]
pub enum Picture {
    Temperature,
    Wind,
    Clouds,
    Precipitation,
    /// The temperature gradient, one emoji per column.
    Gradient,
}

/// The pictures a mode places, with the width and height each is drawn at:
/// in full mode the temperature (60 by 12), the wind and the clouds (35 by 8
/// each) and, when there is precipitation, the precipitation (60 by 8); in
/// art mode the gradient (20 wide, one row), the temperature and the wind
/// (68 by 13 each); none in the other modes.
pub open spec fn pictures_of(mode: DisplayMode, w: WeatherData) -> Seq<(Picture, usize, usize)> {
    match mode {
        DisplayMode::Full => seq![
            (Picture::Temperature, 60usize, 12usize),
            (Picture::Wind, 35usize, 8usize),
            (Picture::Clouds, 35usize, 8usize),
        ] + (if w.precipitation.level.above(0) {
            seq![(Picture::Precipitation, 60usize, 8usize)]
        } else {
            Seq::empty()
        }),
        DisplayMode::Art => seq![
            (Picture::Gradient, 20usize, 1usize),
            (Picture::Temperature, 68usize, 13usize),
            (Picture::Wind, 68usize, 13usize),
        ],
        _ => Seq::empty(),
    }
}

/// The pictures to draw for the mode, in the order given by `pictures_of`.
pub fn pictures_for(mode: DisplayMode, weather: &WeatherData) -> (r: Vec<(Picture, usize, usize)>)
    ensures
        r@ == pictures_of(mode, *weather),
{
    let mut r: Vec<(Picture, usize, usize)> = Vec::new();
    match mode {
        DisplayMode::Full => {
            r.push((Picture::Temperature, 60, 12));
            r.push((Picture::Wind, 35, 8));
            r.push((Picture::Clouds, 35, 8));
            if weather.precipitation.level.is_above(0) {
                r.push((Picture::Precipitation, 60, 8));
            }
        },
        DisplayMode::Art => {
            r.push((Picture::Gradient, 20, 1));
            r.push((Picture::Temperature, 68, 13));
            r.push((Picture::Wind, 68, 13));
        },
        _ => {},
    }
    assert(r@ =~= pictures_of(mode, *weather));
    r
}

/// Renders the weather as text for a terminal.
pub struct Renderer {
    width: usize,
    height: usize,
    mode: String,
}

impl Renderer {
    /// The name of the mode set.
    pub closed spec fn mode_text(&self) -> Seq<char> {
        self.mode@
    }

    /// The terminal size the renderer was made for, columns and rows.
    pub closed spec fn size(&self) -> (usize, usize) {
        (self.width, self.height)
    }

    /// A renderer for the terminal size, in full mode.
    pub fn new() -> (r: Self)
        ensures
            r.mode_text() == "full"@,
            r.size() == (80usize, 24usize),
    {
        let (width, height) = get_terminal_size();
        Renderer { width, height, mode: owned("full") }
    }

    /// Sets the render mode.
    pub fn set_mode(&mut self, mode: &str)
        ensures
            final(self).mode_text() == mode@,
            final(self).size() == old(self).size(),
    {
        self.mode = owned(mode);
    }

    /// The display mode the mode set selects.
    pub fn display_mode(&self) -> (r: DisplayMode)
        ensures
            r == mode_of(self.mode_text()),
    {
        let m = self.mode.as_str();
        if same_text(m, "minimalist") {
            DisplayMode::Minimalist
        } else if same_text(m, "data") {
            DisplayMode::Data
        } else if same_text(m, "art") {
            DisplayMode::Art
        } else {
            DisplayMode::Full
        }
    }

    /// The header line, with the local time.
    fn render_header(&self, weather: &WeatherData) -> (r: String)
        ensures
            exists|t: Seq<char>| clock_shape(t) && r@ == header_text(*weather, t),
    {
        let time = clock_now();
        let place = if weather.country.as_str().unicode_len() > 0 {
            concat3(weather.location.as_str(), ", ", weather.country.as_str())
        } else {
            weather.location.clone()
        };
        let r = concat4("◈ Weather Station ", place.as_str(), " [", time.as_str());
        let mut r = r;
        r.append("]");
        assert(r@ =~= header_text(*weather, time@));
        r
    }

    /// The compact data summary line.
    fn render_data_summary(&self, weather: &WeatherData) -> (r: String)
        ensures
            r@ == summary_text(*weather),
    {
        let mut items: Vec<String> = Vec::new();
        let t = decimal_text(weather.temperature.rounded);
        items.push(concat3("◈ ", t.as_str(), "°C"));
        let mut arrow = String::new();
        crate::text::push_char(&mut arrow, get_wind_direction_symbol(weather.wind_octant));
        items.push(concat4(arrow.as_str(), " ", weather.wind_speed.plain.as_str(), " km/h"));
        items.push(concat3("☁ ", weather.cloud_cover.whole.as_str(), "%"));
        items.push(concat3("◈ ", weather.humidity.plain.as_str(), "%"));
        let joined = crate::text::join_strings(&items, " • ");
        let r = concat2("  ", joined.as_str());
        assert(views(items@) =~= seq![
            "◈ "@ + decimal(weather.temperature.rounded as int) + "°C"@,
            seq![sector_arrow((weather.wind_octant % 8) as int)] + " "@ + weather.wind_speed.plain@ + " km/h"@,
            "☁ "@ + weather.cloud_cover.whole@ + "%"@,
            "◈ "@ + weather.humidity.plain@ + "%"@,
        ]);
        r
    }

    /// The footer line with the controls.
    pub fn render_footer(&self) -> (r: String)
        ensures
            r@ == footer_text(),
    {
        owned("Controls: [1] Full [2] Minimal [3] Data [4] Art [q] Quit")
    }

    /// Full immersion mode: all pictures combined.
    fn render_full_mode(&self, weather: &WeatherData, panels: &Panels) -> (r: Vec<String>)
        ensures
            views(r@) == full_lines(*weather, *panels),
    {
        let mut lines = text_lines(panels.temperature.as_str());
        push_line(&mut lines, String::new());
        let wind_lines = text_lines(panels.wind.as_str());
        let cloud_lines = text_lines(panels.clouds.as_str());
        let ghost top = views(lines@);
        let mut y: usize = 0;
        while y < 8
            invariant
                y <= 8,
                views(wind_lines@) == lines_of(panels.wind@),
                views(cloud_lines@) == lines_of(panels.clouds@),
                views(lines@) =~= top + Seq::new(
                    y as nat,
                    |k: int|
                        padded(line_or_empty(lines_of(panels.wind@), k), 35) + " │ "@
                            + line_or_empty(lines_of(panels.clouds@), k),
                ),
            decreases 8 - y,
        {
            let wind_line = line_at(&wind_lines, y);
            let cloud_line = line_at(&cloud_lines, y);
            let padded_wind = pad_end(wind_line.as_str(), 35);
            let combined = concat3(padded_wind.as_str(), " │ ", cloud_line.as_str());
            push_line(&mut lines, combined);
            y = y + 1;
        }
        push_line(&mut lines, String::new());
        if weather.precipitation.level.is_above(0) {
            let more = text_lines(panels.precipitation.as_str());
            append_lines(&mut lines, more);
        } else {
            let summary = self.render_data_summary(weather);
            push_line(&mut lines, summary);
        }
        assert(views(lines@) =~= full_lines(*weather, *panels));
        lines
    }

    /// Minimalist mode: the temperature in its colour, the wind, the sky and
    /// any precipitation.
    fn render_minimalist_mode(&self, weather: &WeatherData) -> (r: Vec<String>)
        ensures
            exists|badge: Seq<char>|
                badge_fits(DisplayMode::Minimalist, *weather, badge) && views(r@)
                    == minimalist_lines(*weather, badge),
    {
        let t = decimal_text(weather.temperature.rounded);
        let badge_text = concat3("◈ ", t.as_str(), "°C");
        let badge = crate::effects::color::colorize_temp(badge_text.as_str(), weather.temperature_band);
        let mut lines: Vec<String> = Vec::new();
        push_line(&mut lines, concat4("  ", badge.as_str(), " ", weather.condition.as_str()));
        push_line(&mut lines, String::new());
        let mut arrow = String::new();
        crate::text::push_char(&mut arrow, get_wind_direction_symbol(weather.wind_octant));
        let mut wind_line = concat4("  Wind: ", arrow.as_str(), " ", weather.wind_speed.plain.as_str());
        wind_line.append(" km/h");
        push_line(&mut lines, wind_line);
        let ghost head = views(lines@);
        if weather.cloud_cover.level.is_above(5) {
            let icon = crate::visualizations::clouds::icon_for_cover(weather.cloud_cover.level);
            let sky = concat4("  Sky: ", icon, " ", weather.cloud_cover.whole.as_str());
            push_line(&mut lines, concat2(sky.as_str(), "%"));
        }
        let ghost mid = views(lines@);
        if weather.precipitation.level.is_above(0) {
            let icon = crate::visualizations::precipitation::icon_for_precipitation(weather.is_snowing);
            let rain = concat4("  Precip: ", icon, " ", weather.precipitation.tenths.as_str());
            push_line(&mut lines, concat2(rain.as_str(), "mm"));
        }
        assert(views(lines@) =~= minimalist_lines(*weather, badge@));
        lines
    }

    /// Data mode: the figures in a table.
    fn render_data_mode(&self, weather: &WeatherData) -> (r: Vec<String>)
        ensures
            exists|badge: Seq<char>|
                badge_fits(DisplayMode::Data, *weather, badge) && views(r@) == data_lines(
                    *weather,
                    badge,
                ),
    {
        let t = decimal_text(weather.temperature.rounded);
        let badge_text = concat3("◈ Temperature: ", t.as_str(), "°C");
        let badge = crate::effects::color::colorize_temp(badge_text.as_str(), weather.temperature_band);
        let mut lines: Vec<String> = Vec::new();
        push_line(&mut lines, concat2("  ", badge.as_str()));
        let feels = decimal_text(weather.feels_like.rounded);
        push_line(&mut lines, concat3("     Feels like: ", feels.as_str(), "°C"));
        push_line(&mut lines, String::new());

        let mut rows: Vec<Entry> = Vec::new();
        let name = get_wind_direction_name(weather.wind_octant);
        let from = concat4("from ", weather.wind_direction.whole.as_str(), "° (", name);
        rows.push(Entry {
            label: owned("Wind"),
            value: concat2(weather.wind_speed.plain.as_str(), " km/h"),
            note: concat2(from.as_str(), ")"),
        });
        rows.push(Entry {
            label: owned("Humidity"),
            value: concat2(weather.humidity.plain.as_str(), "%"),
            note: String::new(),
        });
        rows.push(Entry {
            label: owned("Cloud Cover"),
            value: concat2(weather.cloud_cover.whole.as_str(), "%"),
            note: get_cloud_status(weather.cloud_cover.level),
        });
        let precipitation_note = if weather.is_snowing {
            owned("(snow)")
        } else if weather.rain.level.is_above(0) {
            owned("(rain)")
        } else {
            String::new()
        };
        rows.push(Entry {
            label: owned("Precipitation"),
            value: concat2(weather.precipitation.tenths.as_str(), "mm"),
            note: precipitation_note,
        });
        assert(entry_views(rows@) =~= data_rows(*weather));
        let table_part = table(&rows);
        append_lines(&mut lines, table_part);
        assert(views(lines@) =~= data_lines(*weather, badge@));
        lines
    }

    /// Art mode: the gradient, the temperature and wind pictures overlaid,
    /// and a poem.
    fn render_art_mode(&self, weather: &WeatherData, panels: &Panels) -> (r: Vec<String>)
        ensures
            views(r@) == art_lines(*weather, *panels),
    {
        let mut lines: Vec<String> = Vec::new();
        push_line(&mut lines, concat2("  ", panels.gradient.as_str()));
        push_line(&mut lines, String::new());
        let temp_lines = text_lines(panels.temperature.as_str());
        let wind_lines = text_lines(panels.wind.as_str());
        let ghost top = views(lines@);
        let mut y: usize = 0;
        while y < 13
            invariant
                y <= 13,
                views(temp_lines@) == lines_of(panels.temperature@),
                views(wind_lines@) == lines_of(panels.wind@),
                views(lines@) =~= top + Seq::new(
                    y as nat,
                    |k: int|
                        overlay_line(
                            line_or_empty(lines_of(panels.temperature@), k),
                            line_or_empty(lines_of(panels.wind@), k),
                        ),
                ),
            decreases 13 - y,
        {
            let t_line = line_at(&temp_lines, y);
            let w_line = line_at(&wind_lines, y);
            push_line(&mut lines, overlay(t_line.as_str(), w_line.as_str()));
            y = y + 1;
        }
        push_line(&mut lines, String::new());
        let poem_text = get_weather_poem(weather);
        push_line(&mut lines, concat2("  ", poem_text.as_str()));
        assert(views(lines@) =~= art_lines(*weather, *panels));
        lines
    }

    /// Renders the weather: a header with the place and the local time, the
    /// body of the mode set (full mode for an unknown mode name), and the
    /// footer with the controls, one line each, joined by line feeds.
    pub fn render(&self, weather: &WeatherData, panels: &Panels) -> (r: String)
        ensures
            exists|t: Seq<char>, badge: Seq<char>|
                clock_shape(t) && badge_fits(mode_of(self.mode_text()), *weather, badge) && r@
                    == screen(mode_of(self.mode_text()), *weather, *panels, t, badge),
    {
        let mode = self.display_mode();
        let header = self.render_header(weather);
        let ghost t = choose|t: Seq<char>| clock_shape(t) && header@ == header_text(*weather, t);
        let mut lines: Vec<String> = Vec::new();
        push_line(&mut lines, header);
        push_line(&mut lines, String::new());
        let ghost badge: Seq<char>;
        let body = match mode {
            DisplayMode::Full => {
                proof {
                    badge = Seq::empty();
                }
                self.render_full_mode(weather, panels)
            },
            DisplayMode::Minimalist => {
                let b = self.render_minimalist_mode(weather);
                proof {
                    badge = choose|badge: Seq<char>|
                        badge_fits(DisplayMode::Minimalist, *weather, badge) && views(b@)
                            == minimalist_lines(*weather, badge);
                }
                b
            },
            DisplayMode::Data => {
                let b = self.render_data_mode(weather);
                proof {
                    badge = choose|badge: Seq<char>|
                        badge_fits(DisplayMode::Data, *weather, badge) && views(b@) == data_lines(
                            *weather,
                            badge,
                        );
                }
                b
            },
            DisplayMode::Art => {
                proof {
                    badge = Seq::empty();
                }
                self.render_art_mode(weather, panels)
            },
        };
        assert(views(body@) == body_lines(mode, *weather, *panels, badge));
        append_lines(&mut lines, body);
        push_line(&mut lines, String::new());
        push_line(&mut lines, self.render_footer());
        assert(views(lines@) =~= screen_lines(mode, *weather, *panels, t, badge));
        let nl = owned("\n");
        proof {
            reveal_strlit("\n");
            assert(nl@ =~= seq!['\n']);
        }
        let r = crate::text::join_strings(&lines, nl.as_str());
        assert(clock_shape(t) && badge_fits(mode_of(self.mode_text()), *weather, badge) && r@
            == screen(mode_of(self.mode_text()), *weather, *panels, t, badge));
        r
    }
}

/// A mode name that is none of `minimalist`, `data` and `art` renders the
/// same screen as `full`.
pub proof fn lemma_unknown_mode_renders_full(
    name: Seq<char>,
    w: WeatherData,
    p: Panels,
    time: Seq<char>,
    badge: Seq<char>,
)
    requires
        name != "minimalist"@,
        name != "data"@,
        name != "art"@,
    ensures
        mode_of(name) == DisplayMode::Full,
        screen(mode_of(name), w, p, time, badge) == screen(mode_of("full"@), w, p, time, badge),
{
    reveal_strlit("full");
    reveal_strlit("minimalist");
    reveal_strlit("data");
    reveal_strlit("art");
    assert("full"@.len() == 4 && "data"@.len() == 4 && "art"@.len() == 3 && "minimalist"@.len() == 10);
    assert("full"@[0] != "data"@[0]);
}

/// Every screen starts with the header and a blank line, and ends with a
/// blank line and the footer.
pub proof fn lemma_screen_frame(
    mode: DisplayMode,
    w: WeatherData,
    p: Panels,
    time: Seq<char>,
    badge: Seq<char>,
)
    ensures
        screen_lines(mode, w, p, time, badge).len() >= 4,
        screen_lines(mode, w, p, time, badge)[0] == header_text(w, time),
        screen_lines(mode, w, p, time, badge)[1] == Seq::<char>::empty(),
        screen_lines(mode, w, p, time, badge).last() == footer_text(),
        screen_lines(mode, w, p, time, badge)[screen_lines(mode, w, p, time, badge).len() - 2]
            == Seq::<char>::empty(),
{
}

/// Padding keeps the text in front; text shorter in bytes than the width
/// comes out exactly `width` characters long, longer text comes out as it is.
pub proof fn lemma_pad_end_shape(s: Seq<char>, width: usize)
    requires
        crate::text::byte_len(s) <= usize::MAX,
    ensures
        padded(s, width).take(s.len() as int) == s,
        str_len(s) < width ==> padded(s, width).len() == width,
        str_len(s) >= width ==> padded(s, width) == s,
{
    crate::text::lemma_byte_len_at_least_chars(s);
    assert(padded(s, width).take(s.len() as int) =~= s);
}

/// The rank of a cloud cover status, clear (0) to overcast (3).
pub open spec fn cloud_rank(coverage: Level) -> int {
    if coverage.below(20) {
        0
    } else if coverage.below(50) {
        1
    } else if coverage.below(80) {
        2
    } else {
        3
    }
}

/// A cloudier sky never gets a clearer status, and the status follows the
/// rank.
pub proof fn lemma_cloud_status_monotone(a: Level, b: Level)
    requires
        crate::weather::level_le(a, b),
    ensures
        cloud_rank(a) <= cloud_rank(b),
        cloud_status_note(a) == (if cloud_rank(a) == 0 {
            "(clear)"@
        } else if cloud_rank(a) == 1 {
            "(partly)"@
        } else if cloud_rank(a) == 2 {
            "(cloudy)"@
        } else {
            "(overcast)"@
        }),
{
}

/// A warmer day never gets the phrase of a colder one.
pub proof fn lemma_poem_phrase_monotone(a: Level, b: Level)
    requires
        crate::weather::level_le(a, b),
    ensures
        poem_index(a) <= poem_index(b),
{
}

/// The weather poem: the phrase of the temperature (below -10, below 0,
/// below 10, below 20, and from 20 on), then the falling snow or rain when
/// there is precipitation, then the wind when it blows above 20 km/h.
pub proof fn lemma_poem_words(w: WeatherData)
    ensures
        ({
            let t = w.temperature.level;
            let phrase = if t.below(-10) {
                "Winter's chill lingers"@
            } else if t.below(0) {
                "A crisp morning air"@
            } else if t.below(10) {
                "Mild and pleasant"@
            } else if t.below(20) {
                "Warmth fills the day"@
            } else {
                "Summer heat embraces"@
            };
            let fall = if !w.precipitation.level.above(0) {
                Seq::<char>::empty()
            } else if w.is_snowing {
                ", snow falls gently"@
            } else {
                ", rain dances down"@
            };
            let wind = if w.wind_speed.level.above(20) {
                ", wind whispers through"@
            } else {
                Seq::<char>::empty()
            };
            poem(w) == phrase + fall + wind
        }),
{
    assert(temp_phrase(poem_index(w.temperature.level)) + Seq::<char>::empty() =~= temp_phrase(
        poem_index(w.temperature.level),
    ));
    assert(temp_phrase(poem_index(w.temperature.level)) + ", snow falls gently"@ + Seq::<char>::empty()
        =~= temp_phrase(poem_index(w.temperature.level)) + ", snow falls gently"@);
    assert(temp_phrase(poem_index(w.temperature.level)) + ", rain dances down"@ + Seq::<char>::empty()
        =~= temp_phrase(poem_index(w.temperature.level)) + ", rain dances down"@);
    assert(temp_phrase(poem_index(w.temperature.level)) + Seq::<char>::empty() + ", wind whispers through"@
        =~= temp_phrase(poem_index(w.temperature.level)) + ", wind whispers through"@);
    assert(temp_phrase(poem_index(w.temperature.level)) + Seq::<char>::empty() + Seq::<char>::empty()
        =~= temp_phrase(poem_index(w.temperature.level)));
}

/// Full mode: the temperature picture, a blank line, eight rows with the
/// wind picture padded to 35 columns, a bar and the cloud picture, a blank
/// line, and then the precipitation picture exactly when there is
/// precipitation (the precipitation, not the rain alone: the same condition
/// under which the mode draws that picture), the data summary otherwise.
pub proof fn lemma_full_layout(w: WeatherData, p: Panels)
    ensures
        ({
            let t = lines_of(p.temperature@);
            let n = t.len() as int;
            let l = full_lines(w, p);
            &&& l.subrange(0, n) == t
            &&& l[n] == Seq::<char>::empty()
            &&& forall|y: int|
                0 <= y < 8 ==> #[trigger] l[n + 1 + y] == padded(line_or_empty(lines_of(p.wind@), y), 35)
                    + " │ "@ + line_or_empty(lines_of(p.clouds@), y)
            &&& l[n + 9] == Seq::<char>::empty()
            &&& w.precipitation.level.above(0) ==> l.subrange(n + 10, l.len() as int) == lines_of(
                p.precipitation@,
            )
            &&& !w.precipitation.level.above(0) ==> l.len() == n + 11 && l[n + 10] == summary_text(w)
            &&& pictures_of(DisplayMode::Full, w).contains((Picture::Precipitation, 60usize, 8usize))
                <==> w.precipitation.level.above(0)
        }),
{
    let t = lines_of(p.temperature@);
    let n = t.len() as int;
    let l = full_lines(w, p);
    assert(l.subrange(0, n) =~= t);
    if w.precipitation.level.above(0) {
        assert(l.subrange(n + 10, l.len() as int) =~= lines_of(p.precipitation@));
        assert(pictures_of(DisplayMode::Full, w)[3] == (Picture::Precipitation, 60usize, 8usize));
    } else {
        let ps = pictures_of(DisplayMode::Full, w);
        assert(ps.len() == 3);
        assert(ps[0].0 == Picture::Temperature && ps[1].0 == Picture::Wind && ps[2].0 == Picture::Clouds);
        if ps.contains((Picture::Precipitation, 60usize, 8usize)) {
            let k = choose|k: int| 0 <= k < ps.len() && ps[k] == (Picture::Precipitation, 60usize, 8usize);
            assert(false);
        }
    }
}

/// Minimalist mode: the coloured temperature badge with the condition, a
/// blank line, the wind line; then the sky line exactly when the cloud
/// cover is above 5 % (whatever the precipitation), and the precipitation
/// line exactly when there is precipitation, last.
pub proof fn lemma_minimalist_layout(w: WeatherData, badge: Seq<char>)
    ensures
        ({
            let l = minimalist_lines(w, badge);
            let sky = w.cloud_cover.level.above(5);
            let wet = w.precipitation.level.above(0);
            &&& l.len() == 3 + (if sky { 1int } else { 0 }) + (if wet { 1int } else { 0 })
            &&& l[0] == "  "@ + badge + " "@ + w.condition@
            &&& l[1] == Seq::<char>::empty()
            &&& l[2] == "  Wind: "@ + seq![sector_arrow((w.wind_octant % 8) as int)] + " "@
                + w.wind_speed.plain@ + " km/h"@
            &&& sky ==> l[3] == "  Sky: "@ + (if w.cloud_cover.level.below(50) {
                "⛅"@
            } else {
                "☁️"@
            }) + " "@ + w.cloud_cover.whole@ + "%"@
            &&& wet ==> l[l.len() - 1] == "  Precip: "@ + (if w.is_snowing {
                "❄️"@
            } else {
                "🌧️"@
            }) + " "@ + w.precipitation.tenths@ + "mm"@
        }),
{
}

/// Art mode: the gradient, a blank line, thirteen rows overlaying the wind
/// picture on the temperature picture, a blank line, and the poem.
pub proof fn lemma_art_layout(w: WeatherData, p: Panels)
    ensures
        ({
            let l = art_lines(w, p);
            &&& l.len() == 17
            &&& l[0] == "  "@ + p.gradient@
            &&& l[1] == Seq::<char>::empty()
            &&& forall|y: int|
                0 <= y < 13 ==> #[trigger] l[2 + y] == overlay_line(
                    line_or_empty(lines_of(p.temperature@), y),
                    line_or_empty(lines_of(p.wind@), y),
                )
            &&& l[15] == Seq::<char>::empty()
            &&& l[16] == "  "@ + poem(w)
        }),
{
}

/// Text of one-byte characters takes one byte per character.
proof fn lemma_ascii_len(s: Seq<char>)
    requires
        forall|i: int| 0 <= i < s.len() ==> (s[i] as u32) <= 0x7F,
    ensures
        crate::text::byte_len(s) == s.len(),
    decreases s.len(),
{
    if s.len() > 0 {
        lemma_ascii_len(s.drop_first());
    }
}

/// Data mode: the coloured temperature badge, the felt temperature, a blank
/// line, then the table with its labels padded to the longest,
/// `Precipitation` (13 bytes): the wind with where it comes from, the
/// humidity, the cloud cover with its status, and the precipitation with
/// `(snow)` when it snows, else `(rain)` when it rains, else no note (each
/// note in brackets of its own).
pub proof fn lemma_data_layout(w: WeatherData, badge: Seq<char>)
    ensures
        ({
            let l = data_lines(w, badge);
            let c = w.cloud_cover.level;
            let status = if c.below(20) {
                "(clear)"@
            } else if c.below(50) {
                "(partly)"@
            } else if c.below(80) {
                "(cloudy)"@
            } else {
                "(overcast)"@
            };
            let fall = if w.is_snowing {
                " ((snow))"@
            } else if w.rain.level.above(0) {
                " ((rain))"@
            } else {
                Seq::<char>::empty()
            };
            &&& l.len() == 7
            &&& l[0] == "  "@ + badge
            &&& l[1] == "     Feels like: "@ + decimal(w.feels_like.rounded as int) + "°C"@
            &&& l[2] == Seq::<char>::empty()
            &&& l[3] == "  Wind         : "@ + w.wind_speed.plain@ + " km/h"@ + " (from "@
                + w.wind_direction.whole@ + "° ("@ + sector_name((w.wind_octant % 8) as int) + "))"@
            &&& l[4] == "  Humidity     : "@ + w.humidity.plain@ + "%"@
            &&& l[5] == "  Cloud Cover  : "@ + w.cloud_cover.whole@ + "%"@ + " ("@ + status + ")"@
            &&& l[6] == "  Precipitation: "@ + w.precipitation.tenths@ + "mm"@ + fall
        }),
{
    reveal_strlit("Wind");
    reveal_strlit("Humidity");
    reveal_strlit("Cloud Cover");
    reveal_strlit("Precipitation");
    let rows = data_rows(w);
    lemma_ascii_len("Wind"@);
    lemma_ascii_len("Humidity"@);
    lemma_ascii_len("Cloud Cover"@);
    lemma_ascii_len("Precipitation"@);
    assert(rows.drop_last().drop_last().drop_last().drop_last() =~= Seq::<(Seq<char>, Seq<char>, Seq<char>)>::empty());
    reveal_with_fuel(max_label, 5);
    assert(max_label(rows) == 13);
    reveal_with_fuel(table_lines, 5);
    reveal_strlit(" km/h");
    reveal_strlit("%");
    reveal_strlit("mm");
    let l = data_lines(w, badge);
    assert(rows[0].1.len() > 0 && rows[1].1.len() > 0 && rows[2].1.len() > 0 && rows[3].1.len() > 0);
    assert(table_lines(rows, 13).len() == 4);
    assert(label_padded("Wind"@, 13) =~= "Wind         "@) by {
        reveal_strlit("Wind         ");
    }
    assert(label_padded("Humidity"@, 13) =~= "Humidity     "@) by {
        reveal_strlit("Humidity     ");
    }
    assert(label_padded("Cloud Cover"@, 13) =~= "Cloud Cover  "@) by {
        reveal_strlit("Cloud Cover  ");
    }
    assert(label_padded("Precipitation"@, 13) == "Precipitation"@);
    assert(l[3] =~= "  Wind         : "@ + w.wind_speed.plain@ + " km/h"@ + " (from "@ + w.wind_direction.whole@
        + "° ("@ + sector_name((w.wind_octant % 8) as int) + "))"@) by {
        reveal_strlit("  Wind         : ");
        reveal_strlit("  ");
        reveal_strlit(": ");
        reveal_strlit("Wind         ");
        reveal_strlit(" (from ");
        reveal_strlit(" (");
        reveal_strlit("from ");
        reveal_strlit(")");
        reveal_strlit("))");
    }
    assert(l[4] =~= "  Humidity     : "@ + w.humidity.plain@ + "%"@) by {
        reveal_strlit("  Humidity     : ");
        reveal_strlit("  ");
        reveal_strlit(": ");
        reveal_strlit("Humidity     ");
    }
    assert(l[5] =~= "  Cloud Cover  : "@ + w.cloud_cover.whole@ + "%"@ + " ("@ + cloud_status_note(
        w.cloud_cover.level,
    ) + ")"@) by {
        reveal_strlit("  Cloud Cover  : ");
        reveal_strlit("  ");
        reveal_strlit(": ");
        reveal_strlit("Cloud Cover  ");
        reveal_strlit(" (");
        reveal_strlit(")");
        reveal_strlit("(clear)");
        reveal_strlit("(partly)");
        reveal_strlit("(cloudy)");
        reveal_strlit("(overcast)");
    }
    assert(l[6] =~= "  Precipitation: "@ + w.precipitation.tenths@ + "mm"@ + (if w.is_snowing {
        " ((snow))"@
    } else if w.rain.level.above(0) {
        " ((rain))"@
    } else {
        Seq::<char>::empty()
    })) by {
        reveal_strlit("  Precipitation: ");
        reveal_strlit("  ");
        reveal_strlit(": ");
        reveal_strlit(" (");
        reveal_strlit(")");
        reveal_strlit("(snow)");
        reveal_strlit("(rain)");
        reveal_strlit(" ((snow))");
        reveal_strlit(" ((rain))");
    }
}

/// The data summary: temperature, wind arrow and speed, cloud cover and
/// humidity, separated by bullets.
pub proof fn lemma_summary_words(w: WeatherData)
    ensures
        summary_text(w) == "  ◈ "@ + decimal(w.temperature.rounded as int) + "°C • "@ + seq![
            sector_arrow((w.wind_octant % 8) as int),
        ] + " "@ + w.wind_speed.plain@ + " km/h • ☁ "@ + w.cloud_cover.whole@ + "% • ◈ "@
            + w.humidity.plain@ + "%"@,
{
    let parts = seq![
        "◈ "@ + decimal(w.temperature.rounded as int) + "°C"@,
        seq![sector_arrow((w.wind_octant % 8) as int)] + " "@ + w.wind_speed.plain@ + " km/h"@,
        "☁ "@ + w.cloud_cover.whole@ + "%"@,
        "◈ "@ + w.humidity.plain@ + "%"@,
    ];
    reveal_with_fuel(join, 5);
    assert(parts.drop_last().drop_last().drop_last() =~= seq![parts[0]]);
    assert(parts.drop_last().drop_last() =~= seq![parts[0], parts[1]]);
    assert(parts.drop_last() =~= seq![parts[0], parts[1], parts[2]]);
    reveal_strlit("  ◈ ");
    reveal_strlit("  ");
    reveal_strlit("◈ ");
    reveal_strlit("°C • ");
    reveal_strlit("°C");
    reveal_strlit(" • ");
    reveal_strlit(" km/h • ☁ ");
    reveal_strlit(" km/h");
    reveal_strlit("☁ ");
    reveal_strlit("% • ◈ ");
    reveal_strlit("%");
    assert(summary_text(w) =~= "  ◈ "@ + decimal(w.temperature.rounded as int) + "°C • "@ + seq![
        sector_arrow((w.wind_octant % 8) as int),
    ] + " "@ + w.wind_speed.plain@ + " km/h • ☁ "@ + w.cloud_cover.whole@ + "% • ◈ "@
        + w.humidity.plain@ + "%"@);
}

/// The frame and the body of each mode: the header names the station, the
/// place and, when there is one, the country, with the time in brackets; the
/// footer lists the controls; `minimalist`, `data` and `art` select their
/// modes and bodies, and `full` the full body.
pub proof fn lemma_screen_words(w: WeatherData, p: Panels, time: Seq<char>, badge: Seq<char>)
    ensures
        w.country@.len() > 0 ==> header_text(w, time) == "◈ Weather Station "@ + w.location@ + ", "@
            + w.country@ + " ["@ + time + "]"@,
        w.country@.len() == 0 ==> header_text(w, time) == "◈ Weather Station "@ + w.location@ + " ["@
            + time + "]"@,
        footer_text() == "Controls: [1] Full [2] Minimal [3] Data [4] Art [q] Quit"@,
        mode_of("full"@) == DisplayMode::Full,
        mode_of("minimalist"@) == DisplayMode::Minimalist,
        mode_of("data"@) == DisplayMode::Data,
        mode_of("art"@) == DisplayMode::Art,
        body_lines(DisplayMode::Full, w, p, badge) == full_lines(w, p),
        body_lines(DisplayMode::Minimalist, w, p, badge) == minimalist_lines(w, badge),
        body_lines(DisplayMode::Data, w, p, badge) == data_lines(w, badge),
        body_lines(DisplayMode::Art, w, p, badge) == art_lines(w, p),
{
    reveal_strlit("full");
    reveal_strlit("minimalist");
    reveal_strlit("data");
    reveal_strlit("art");
    assert("full"@.len() == 4 && "data"@.len() == 4 && "art"@.len() == 3 && "minimalist"@.len() == 10);
    assert("full"@[0] != "data"@[0]);
    assert(w.location@ + Seq::<char>::empty() =~= w.location@);
}

/// The pictures of each mode, with their sizes: full mode the temperature
/// (60 by 12), the wind and the clouds (35 by 8), then the precipitation
/// (60 by 8) only when there is some; art mode the gradient (20 by 1), the
/// temperature and the wind (68 by 13); minimalist and data modes none.
pub proof fn lemma_picture_plan(w: WeatherData)
    ensures
        w.precipitation.level.above(0) ==> pictures_of(DisplayMode::Full, w) == seq![
            (Picture::Temperature, 60usize, 12usize),
            (Picture::Wind, 35usize, 8usize),
            (Picture::Clouds, 35usize, 8usize),
            (Picture::Precipitation, 60usize, 8usize),
        ],
        !w.precipitation.level.above(0) ==> pictures_of(DisplayMode::Full, w) == seq![
            (Picture::Temperature, 60usize, 12usize),
            (Picture::Wind, 35usize, 8usize),
            (Picture::Clouds, 35usize, 8usize),
        ],
        pictures_of(DisplayMode::Art, w) == seq![
            (Picture::Gradient, 20usize, 1usize),
            (Picture::Temperature, 68usize, 13usize),
            (Picture::Wind, 68usize, 13usize),
        ],
        pictures_of(DisplayMode::Minimalist, w).len() == 0,
        pictures_of(DisplayMode::Data, w).len() == 0,
{
}

/// The temperature badges: `◈ ` and the rounded temperature in °C in
/// minimalist mode, `◈ Temperature: ` before it in data mode, each painted
/// in the colour of the temperature band; the other modes have none.
pub proof fn lemma_badge_words(w: WeatherData, badge: Seq<char>)
    ensures
        minimal_badge_text(w) == "◈ "@ + decimal(w.temperature.rounded as int) + "°C"@,
        data_badge_text(w) == "◈ Temperature: "@ + decimal(w.temperature.rounded as int) + "°C"@,
        badge_fits(DisplayMode::Minimalist, w, badge) ==> crate::effects::painted(
            badge,
            "◈ "@ + decimal(w.temperature.rounded as int) + "°C"@,
            false,
            crate::effects::band_hue(w.temperature_band),
        ),
        badge_fits(DisplayMode::Data, w, badge) ==> crate::effects::painted(
            badge,
            "◈ Temperature: "@ + decimal(w.temperature.rounded as int) + "°C"@,
            false,
            crate::effects::band_hue(w.temperature_band),
        ),
        badge_fits(DisplayMode::Full, w, badge) ==> badge.len() == 0,
        badge_fits(DisplayMode::Art, w, badge) ==> badge.len() == 0,
{
}

} // verus!

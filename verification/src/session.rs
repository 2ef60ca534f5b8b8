//! The decisions of the command-line station: where the weather is looked
//! up, what a key does, and the detailed information listing.
use vstd::prelude::*;
use crate::compass::{name_of, sector_name};
use crate::effects::{Hue, paint_bold, painted, tinted_bold, writes};
use crate::renderer::{DisplayMode, mode_name, mode_of};
use crate::text::{concat2, concat3, concat4, decimal, decimal_text, has_char, same_text};
use crate::weather::WeatherData;

verus! {

/// How the weather of a location is looked up.
#[derive(Clone, Copy, Debug, PartialEq, Eq)]
pub enum Lookup {
    /// By the latitude and longitude given on the command line.
    Coordinates,
    /// Location detection is not there yet: London is used.
    DefaultCity,
    /// The location is written as `latitude,longitude`.
    CoordinateText,
    /// By the name of the place.
    Named,
}

/// How the weather of `location` is looked up.
pub open spec fn lookup_of(location: Seq<char>, has_coordinates: bool) -> Lookup {
    if has_coordinates {
        Lookup::Coordinates
    } else if location == "auto"@ {
        Lookup::DefaultCity
    } else if location.contains(',') {
        Lookup::CoordinateText
    } else {
        Lookup::Named
    }
}

/// Chooses how the weather of `location` is looked up; `has_coordinates`
/// tells whether both latitude and longitude were given.
pub fn plan_lookup(location: &str, has_coordinates: bool) -> (r: Lookup)
    ensures
        r == lookup_of(location@, has_coordinates),
{
    if has_coordinates {
        Lookup::Coordinates
    } else if same_text(location, "auto") {
        Lookup::DefaultCity
    } else if has_char(location, ',') {
        Lookup::CoordinateText
    } else {
        Lookup::Named
    }
}

/// Coordinates given on the command line win over any location text,
/// `auto` (the default location) included; without them `auto` means the
/// default city, text with a comma is a `latitude,longitude` pair, and
/// anything else is a place name. The weather is fetched again on a refresh
/// exactly when coordinates are given, or the location is neither `auto` nor
/// a comma-separated pair.
pub proof fn lemma_lookup_choice(location: Seq<char>, has_coordinates: bool)
    ensures
        has_coordinates ==> lookup_of(location, has_coordinates) == Lookup::Coordinates,
        !has_coordinates && location == "auto"@ ==> lookup_of(location, has_coordinates)
            == Lookup::DefaultCity,
        !has_coordinates && location != "auto"@ && location.contains(',') ==> lookup_of(
            location,
            has_coordinates,
        ) == Lookup::CoordinateText,
        !has_coordinates && location != "auto"@ && !location.contains(',') ==> lookup_of(
            location,
            has_coordinates,
        ) == Lookup::Named,
        (lookup_of(location, has_coordinates) == Lookup::Coordinates || lookup_of(
            location,
            has_coordinates,
        ) == Lookup::Named) <==> (has_coordinates || (location != "auto"@ && !location.contains(
            ',',
        ))),
{
}

/// Whether the weather is fetched again on a refresh: only for lookups by
/// coordinates given or by name.
pub fn refetches(lookup: Lookup) -> (r: bool)
    ensures
        r == (lookup == Lookup::Coordinates || lookup == Lookup::Named),
{
    match lookup {
        Lookup::Coordinates => true,
        Lookup::Named => true,
        _ => false,
    }
}

/// What a key typed in the interactive display does.
#[derive(Clone, Copy, Debug, PartialEq, Eq)]
pub enum KeyCommand {
    /// Show the weather in another mode.
    Switch(DisplayMode),
    /// Leave the station.
    Quit,
    /// Nothing but a refresh.
    Refresh,
}

/// What a command (trimmed and in lower case) does.
pub open spec fn key_action(cmd: Seq<char>) -> KeyCommand {
    if cmd == "1"@ {
        KeyCommand::Switch(DisplayMode::Full)
    } else if cmd == "2"@ {
        KeyCommand::Switch(DisplayMode::Minimalist)
    } else if cmd == "3"@ {
        KeyCommand::Switch(DisplayMode::Data)
    } else if cmd == "4"@ {
        KeyCommand::Switch(DisplayMode::Art)
    } else if cmd == "q"@ || cmd == "quit"@ || cmd == "exit"@ {
        KeyCommand::Quit
    } else {
        KeyCommand::Refresh
    }
}

/// What a command, already trimmed and in lower case, does.
pub fn key_command(cmd: &str) -> (r: KeyCommand)
    ensures
        r == key_action(cmd@),
{
    if same_text(cmd, "1") {
        KeyCommand::Switch(DisplayMode::Full)
    } else if same_text(cmd, "2") {
        KeyCommand::Switch(DisplayMode::Minimalist)
    } else if same_text(cmd, "3") {
        KeyCommand::Switch(DisplayMode::Data)
    } else if same_text(cmd, "4") {
        KeyCommand::Switch(DisplayMode::Art)
    } else if same_text(cmd, "q") || same_text(cmd, "quit") || same_text(cmd, "exit") {
        KeyCommand::Quit
    } else {
        KeyCommand::Refresh
    }
}

/// The name of a display mode, as the renderer takes it.
pub fn mode_label(m: DisplayMode) -> (r: &'static str)
    ensures
        r@ == mode_name(m),
{
    match m {
        DisplayMode::Full => "full",
        DisplayMode::Minimalist => "minimalist",
        DisplayMode::Data => "data",
        DisplayMode::Art => "art",
    }
}

/// Each mode name selects its mode.
pub proof fn lemma_mode_names_select(m: DisplayMode)
    ensures
        mode_of(mode_name(m)) == m,
{
    reveal_strlit("full");
    reveal_strlit("minimalist");
    reveal_strlit("data");
    reveal_strlit("art");
    assert("full"@[0] == 'f' && "minimalist"@[0] == 'm' && "data"@[0] == 'd' && "art"@[0] == 'a');
    assert("full"@ != "minimalist"@ && "full"@ != "data"@ && "full"@ != "art"@);
    assert("minimalist"@ != "data"@ && "minimalist"@ != "art"@ && "data"@ != "art"@);
}

/// The keys 1 to 4 switch to the full, minimalist, data and art modes.
pub proof fn lemma_number_keys_switch()
    ensures
        key_action("1"@) == KeyCommand::Switch(DisplayMode::Full),
        key_action("2"@) == KeyCommand::Switch(DisplayMode::Minimalist),
        key_action("3"@) == KeyCommand::Switch(DisplayMode::Data),
        key_action("4"@) == KeyCommand::Switch(DisplayMode::Art),
        key_action("q"@) == KeyCommand::Quit,
        key_action("quit"@) == KeyCommand::Quit,
        key_action("exit"@) == KeyCommand::Quit,
{
    reveal_strlit("1");
    reveal_strlit("2");
    reveal_strlit("3");
    reveal_strlit("4");
    reveal_strlit("q");
    reveal_strlit("quit");
    reveal_strlit("exit");
    assert("1"@[0] == '1' && "2"@[0] == '2' && "3"@[0] == '3' && "4"@[0] == '4' && "q"@[0] == 'q');
    assert("2"@ != "1"@ && "3"@ != "1"@ && "3"@ != "2"@ && "4"@ != "1"@ && "4"@ != "2"@ && "4"@ != "3"@);
    assert("q"@ != "1"@ && "q"@ != "2"@ && "q"@ != "3"@ && "q"@ != "4"@);
    assert("quit"@.len() == 4 && "exit"@.len() == 4 && "1"@.len() == 1 && "q"@.len() == 1);
    assert("quit"@ != "1"@ && "quit"@ != "2"@ && "quit"@ != "3"@ && "quit"@ != "4"@ && "quit"@ != "q"@);
    assert("exit"@ != "1"@ && "exit"@ != "2"@ && "exit"@ != "3"@ && "exit"@ != "4"@ && "exit"@ != "q"@);
}

/// Any command other than `1` to `4`, `q`, `quit` and `exit` only
/// refreshes.
pub proof fn lemma_other_keys_refresh(cmd: Seq<char>)
    requires
        cmd != "1"@ && cmd != "2"@ && cmd != "3"@ && cmd != "4"@,
        cmd != "q"@ && cmd != "quit"@ && cmd != "exit"@,
    ensures
        key_action(cmd) == KeyCommand::Refresh,
{
}

/// The items of the detailed information: text before the item, the item,
/// and the colour of a heading (shown bold), if it is one.
pub open spec fn info_items(w: WeatherData) -> Seq<(Seq<char>, Seq<char>, Option<Hue>)> {
    let head: Seq<(Seq<char>, Seq<char>, Option<Hue>)> = seq![
        ("\n"@, "◈ Weather Information"@, Some(Hue::Cyan)),
        (Seq::empty(), "Location: "@ + w.location@ + ", "@ + w.country@ + "\n"@, None),
        (Seq::empty(), "Temperature:"@, Some(Hue::White)),
        (Seq::empty(), "  Current: "@ + decimal(w.temperature.rounded as int) + "°C"@, None),
        (Seq::empty(), "  Feels like: "@ + decimal(w.feels_like.rounded as int) + "°C\n"@, None),
        (Seq::empty(), "Wind:"@, Some(Hue::White)),
        (Seq::empty(), "  Speed: "@ + w.wind_speed.plain@ + " km/h"@, None),
        (
            Seq::empty(),
            "  Direction: "@ + w.wind_direction.whole@ + "° ("@ + sector_name((w.wind_octant % 8) as int)
                + ")\n"@,
            None,
        ),
        (Seq::empty(), "Sky:"@, Some(Hue::White)),
        (Seq::empty(), "  Condition: "@ + w.condition@, None),
        (Seq::empty(), "  Cloud cover: "@ + w.cloud_cover.whole@ + "%\n"@, None),
    ];
    if w.precipitation.level.above(0) {
        head + seq![
            (Seq::empty(), "Precipitation:"@, Some(Hue::White)),
            (Seq::empty(), "  Total: "@ + w.precipitation.tenths@ + "mm"@, None),
        ] + (if w.rain.level.above(0) {
            seq![(Seq::empty(), "  Rain: "@ + w.rain.tenths@ + "mm"@, None)]
        } else {
            Seq::empty()
        }) + (if w.snowfall.level.above(0) {
            seq![(Seq::empty(), "  Snow: "@ + w.snowfall.tenths@ + "cm"@, None)]
        } else {
            Seq::empty()
        })
    } else {
        head
    }
}

/// The information listing: the title, the place, and the temperature,
/// wind and sky sections, each heading bold white; then, only when there is
/// precipitation, its heading, the total, the rain when there is rain and
/// the snow when there is snow, in that order.
pub proof fn lemma_info_listing(w: WeatherData)
    ensures
        ({
            let items = info_items(w);
            let n = items.len();
            let precip = w.precipitation.level.above(0);
            let rain = precip && w.rain.level.above(0);
            let snow = precip && w.snowfall.level.above(0);
            &&& n == 11 + (if precip { 2int } else { 0 }) + (if rain { 1int } else { 0 }) + (if snow {
                1int
            } else {
                0
            })
            &&& items[0] == ("\n"@, "◈ Weather Information"@, Some(Hue::Cyan))
            &&& items[1] == (Seq::<char>::empty(), "Location: "@ + w.location@ + ", "@ + w.country@
                + "\n"@, None::<Hue>)
            &&& items[2] == (Seq::<char>::empty(), "Temperature:"@, Some(Hue::White))
            &&& items[3] == (Seq::<char>::empty(), "  Current: "@ + decimal(
                w.temperature.rounded as int,
            ) + "°C"@, None::<Hue>)
            &&& items[4] == (Seq::<char>::empty(), "  Feels like: "@ + decimal(
                w.feels_like.rounded as int,
            ) + "°C\n"@, None::<Hue>)
            &&& items[5] == (Seq::<char>::empty(), "Wind:"@, Some(Hue::White))
            &&& items[6] == (Seq::<char>::empty(), "  Speed: "@ + w.wind_speed.plain@ + " km/h"@, None::<
                Hue,
            >)
            &&& items[7] == (Seq::<char>::empty(), "  Direction: "@ + w.wind_direction.whole@ + "° ("@
                + sector_name((w.wind_octant % 8) as int) + ")\n"@, None::<Hue>)
            &&& items[8] == (Seq::<char>::empty(), "Sky:"@, Some(Hue::White))
            &&& items[9] == (Seq::<char>::empty(), "  Condition: "@ + w.condition@, None::<Hue>)
            &&& items[10] == (Seq::<char>::empty(), "  Cloud cover: "@ + w.cloud_cover.whole@ + "%\n"@,
                None::<Hue>)
            &&& precip ==> items[11] == (Seq::<char>::empty(), "Precipitation:"@, Some(Hue::White))
            &&& precip ==> items[12] == (Seq::<char>::empty(), "  Total: "@ + w.precipitation.tenths@
                + "mm"@, None::<Hue>)
            &&& rain ==> items[13] == (Seq::<char>::empty(), "  Rain: "@ + w.rain.tenths@ + "mm"@,
                None::<Hue>)
            &&& snow ==> items[n - 1] == (Seq::<char>::empty(), "  Snow: "@ + w.snowfall.tenths@
                + "cm"@, None::<Hue>)
        }),
{
}

/// `line` is what the information item shows: its lead, then the item,
/// painted bold in its colour when it is a heading, as `colored` writes the
/// item made bold in that colour.
pub open spec fn shows_item(line: Seq<char>, item: (Seq<char>, Seq<char>, Option<Hue>)) -> bool {
    exists|shown: Seq<char>|
        line == item.0 + shown && match item.2 {
            None => shown == item.1,
            Some(h) => painted(shown, item.1, true, h) && writes(shown, tinted_bold(item.1, h)),
        }
}

fn push_plain(lines: &mut Vec<String>, text: String, Ghost(item): Ghost<(Seq<char>, Seq<char>, Option<Hue>)>)
    requires
        item.0 == Seq::<char>::empty(),
        item.1 == text@,
        item.2 is None,
    ensures
        final(lines)@.len() == old(lines)@.len() + 1,
        forall|i: int| 0 <= i < old(lines)@.len() ==> final(lines)@[i] == old(lines)@[i],
        shows_item(final(lines)@[old(lines)@.len() as int]@, item),
{
    let ghost t = text@;
    lines.push(text);
    assert(t == Seq::<char>::empty() + t);
}

fn push_heading(lines: &mut Vec<String>, text: &str, h: Hue, Ghost(item): Ghost<(Seq<char>, Seq<char>, Option<Hue>)>)
    requires
        item.0 == Seq::<char>::empty(),
        item.1 == text@,
        item.2 == Some(h),
    ensures
        final(lines)@.len() == old(lines)@.len() + 1,
        forall|i: int| 0 <= i < old(lines)@.len() ==> final(lines)@[i] == old(lines)@[i],
        shows_item(final(lines)@[old(lines)@.len() as int]@, item),
{
    let shown = paint_bold(text, h);
    let ghost s = shown@;
    lines.push(shown);
    assert(s == Seq::<char>::empty() + s);
}

/// The lines of the detailed weather information, each as it is printed
/// (headings bold in colour).
pub fn display_info_lines(weather: &WeatherData) -> (r: Vec<String>)
    ensures
        r@.len() == info_items(*weather).len(),
        forall|i: int| 0 <= i < r@.len() ==> shows_item(r@[i]@, info_items(*weather)[i]),
{
    let ghost items = info_items(*weather);
    let mut lines: Vec<String> = Vec::new();

    let title = paint_bold("◈ Weather Information", Hue::Cyan);
    let ghost shown = title@;
    lines.push(concat2("\n", title.as_str()));
    assert(items[0] == ("\n"@, "◈ Weather Information"@, Some(Hue::Cyan)));
    assert(lines@[0]@ == items[0].0 + shown && painted(shown, items[0].1, true, Hue::Cyan) && writes(
        shown,
        tinted_bold(items[0].1, Hue::Cyan),
    ));
    assert(shows_item(lines@[0]@, items[0]));

    let place = concat4("Location: ", weather.location.as_str(), ", ", weather.country.as_str());
    push_plain(&mut lines, concat2(place.as_str(), "\n"), Ghost(items[1]));
    push_heading(&mut lines, "Temperature:", Hue::White, Ghost(items[2]));
    let t = decimal_text(weather.temperature.rounded);
    push_plain(&mut lines, concat3("  Current: ", t.as_str(), "°C"), Ghost(items[3]));
    let f = decimal_text(weather.feels_like.rounded);
    push_plain(&mut lines, concat3("  Feels like: ", f.as_str(), "°C\n"), Ghost(items[4]));
    push_heading(&mut lines, "Wind:", Hue::White, Ghost(items[5]));
    push_plain(&mut lines, concat3("  Speed: ", weather.wind_speed.plain.as_str(), " km/h"), Ghost(items[6]));
    let direction = concat4("  Direction: ", weather.wind_direction.whole.as_str(), "° (", name_of(weather.wind_octant));
    push_plain(&mut lines, concat2(direction.as_str(), ")\n"), Ghost(items[7]));
    push_heading(&mut lines, "Sky:", Hue::White, Ghost(items[8]));
    push_plain(&mut lines, concat2("  Condition: ", weather.condition.as_str()), Ghost(items[9]));
    push_plain(&mut lines, concat3("  Cloud cover: ", weather.cloud_cover.whole.as_str(), "%\n"), Ghost(items[10]));
    if weather.precipitation.level.is_above(0) {
        push_heading(&mut lines, "Precipitation:", Hue::White, Ghost(items[11]));
        push_plain(&mut lines, concat3("  Total: ", weather.precipitation.tenths.as_str(), "mm"), Ghost(items[12]));
        if weather.rain.level.is_above(0) {
            push_plain(&mut lines, concat3("  Rain: ", weather.rain.tenths.as_str(), "mm"), Ghost(items[13]));
        }
        if weather.snowfall.level.is_above(0) {
            let k: usize = lines.len();
            push_plain(&mut lines, concat3("  Snow: ", weather.snowfall.tenths.as_str(), "cm"), Ghost(items[k as int]));
        }
    }
    lines
}

} // verus!

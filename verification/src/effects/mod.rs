//! Colours for temperatures and winds.
pub mod color;

use vstd::prelude::*;
use colored::Colorize;
use crate::measure::{Figure, TempBand};
use crate::text::same_text;

verus! {

#[verifier::external_type_specification]
#[verifier::external_body]
pub struct ExColoredString(colored::ColoredString);

/// A foreground colour of the terminal.
#[derive(Clone, Copy, Debug, PartialEq, Eq)]
pub enum Hue {
    Red,
    Green,
    Yellow,
    Blue,
    Cyan,
    White,
}

/// The ANSI code that selects the foreground colour.
pub open spec fn hue_code(h: Hue) -> Seq<char> {
    match h {
        Hue::Red => seq!['3', '1'],
        Hue::Green => seq!['3', '2'],
        Hue::Yellow => seq!['3', '3'],
        Hue::Blue => seq!['3', '4'],
        Hue::Cyan => seq!['3', '6'],
        Hue::White => seq!['3', '7'],
    }
}

/// The escape sequence that starts text in the colour, bold or not.
pub open spec fn escape_open(bold: bool, h: Hue) -> Seq<char> {
    seq!['\x1b', '['] + (if bold { seq!['1', ';'] } else { Seq::empty() }) + hue_code(h) + seq!['m']
}

/// The escape sequence that ends coloured text.
pub open spec fn escape_close() -> Seq<char> {
    seq!['\x1b', '[', '0', 'm']
}

/// `text` with `open` written again right after every reset sequence in it,
/// as `colored` does so that nested colouring continues after the reset.
pub open spec fn reopened(text: Seq<char>, open: Seq<char>) -> Seq<char>
    decreases text.len(),
{
    if text.len() == 0 {
        Seq::empty()
    } else if text.len() >= 4 && text.take(4) == escape_close() {
        escape_close() + open + reopened(text.skip(4), open)
    } else {
        seq![text[0]] + reopened(text.skip(1), open)
    }
}

/// `shown` is `text` as the terminal gets it: plain, when colouring is off,
/// or wrapped in the escape sequences of the colour, the opening sequence
/// repeated after every reset inside the text.
pub open spec fn painted(shown: Seq<char>, text: Seq<char>, bold: bool, h: Hue) -> bool {
    ||| shown == text
    ||| shown == escape_open(bold, h) + reopened(text, escape_open(bold, h)) + escape_close()
}

/// Text without an escape character has no reset sequence to repeat.
pub proof fn lemma_reopened_plain(text: Seq<char>, open: Seq<char>)
    requires
        !text.contains('\x1b'),
    ensures
        reopened(text, open) == text,
    decreases text.len(),
{
    if text.len() > 0 {
        let rest = text.skip(1);
        assert(!rest.contains('\x1b')) by {
            if rest.contains('\x1b') {
                let k = choose|k: int| 0 <= k < rest.len() && rest[k] == '\x1b';
                assert(text[k + 1] == '\x1b');
            }
        }
        if text.len() >= 4 && text.take(4) == escape_close() {
            assert(text[0] == text.take(4)[0]);
            assert(text[0] == '\x1b');
        }
        lemma_reopened_plain(rest, open);
        assert(seq![text[0]] + rest =~= text);
    }
}

/// What `colored::Colorize::color` builds for the text and colour.
pub uninterp spec fn tinted(text: Seq<char>, h: Hue) -> colored::ColoredString;

/// What `colored::Colorize::bold` builds from the text in the colour.
pub uninterp spec fn tinted_bold(text: Seq<char>, h: Hue) -> colored::ColoredString;

/// `shown` is how the coloured value is written: the text it was built from,
/// painted in its colour (bold when it was made bold).
pub open spec fn writes(shown: Seq<char>, c: colored::ColoredString) -> bool {
    &&& forall|t: Seq<char>, h: Hue| #[trigger] tinted(t, h) == c ==> painted(shown, t, false, h)
    &&& forall|t: Seq<char>, h: Hue| #[trigger] tinted_bold(t, h) == c ==> painted(shown, t, true, h)
}

/// Calls `colored::Colorize::color` on the text with the colour; the value it
/// builds is named `tinted`.
#[verifier::external_body]
pub(crate) fn tint(text: &str, h: Hue) -> (r: colored::ColoredString)
    ensures
        r == tinted(text@, h),
{
    let c = match h {
        Hue::Red => colored::Color::Red,
        Hue::Green => colored::Color::Green,
        Hue::Yellow => colored::Color::Yellow,
        Hue::Blue => colored::Color::Blue,
        Hue::Cyan => colored::Color::Cyan,
        Hue::White => colored::Color::White,
    };
    text.color(c)
}

/// Calls `colored::Colorize::bold` on the text coloured by
/// `colored::Colorize::color`; the value it builds is named `tinted_bold`.
#[verifier::external_body]
pub(crate) fn tint_bold(text: &str, h: Hue) -> (r: colored::ColoredString)
    ensures
        r == tinted_bold(text@, h),
{
    let c = match h {
        Hue::Red => colored::Color::Red,
        Hue::Green => colored::Color::Green,
        Hue::Yellow => colored::Color::Yellow,
        Hue::Blue => colored::Color::Blue,
        Hue::Cyan => colored::Color::Cyan,
        Hue::White => colored::Color::White,
    };
    text.color(c).bold()
}

/// Writes a coloured value with its `Display` (`to_string`). Whether escape
/// sequences are written depends on the environment (`colored`'s colouring
/// switch), so the contract allows both outcomes.
#[verifier::external_body]
pub(crate) fn shown(c: &colored::ColoredString) -> (r: String)
    ensures
        writes(r@, *c),
{
    c.to_string()
}

/// Paints the text in the colour, as the terminal gets it.
pub(crate) fn paint(text: &str, h: Hue) -> (r: String)
    ensures
        painted(r@, text@, false, h),
        writes(r@, tinted(text@, h)),
{
    let c = tint(text, h);
    let r = shown(&c);
    assert(tinted(text@, h) == c);
    r
}

/// Paints the text bold in the colour, as the terminal gets it.
pub(crate) fn paint_bold(text: &str, h: Hue) -> (r: String)
    ensures
        painted(r@, text@, true, h),
        writes(r@, tinted_bold(text@, h)),
{
    let c = tint_bold(text, h);
    let r = shown(&c);
    assert(tinted_bold(text@, h) == c);
    r
}

/// The colour of a temperature band.
pub open spec fn band_hue(b: TempBand) -> Hue {
    match b {
        TempBand::Cold => Hue::Blue,
        TempBand::Cool => Hue::Cyan,
        TempBand::Mild => Hue::Yellow,
        TempBand::Hot => Hue::Red,
    }
}

pub(crate) fn hue_of_band(b: TempBand) -> (r: Hue)
    ensures
        r == band_hue(b),
{
    match b {
        TempBand::Cold => Hue::Blue,
        TempBand::Cool => Hue::Cyan,
        TempBand::Mild => Hue::Yellow,
        TempBand::Hot => Hue::Red,
    }
}

/// The label of a temperature, `{}°C`, in the colour of its band.
pub fn get_temperature_color(temp: &Figure, band: TempBand) -> (r: colored::ColoredString)
    ensures
        r == tinted(temp.plain@ + "°C"@, band_hue(band)),
{
    let label = crate::text::concat2(temp.plain.as_str(), "°C");
    tint(label.as_str(), hue_of_band(band))
}

/// The text of a value built by `get_temperature_color`, once written, and
/// the text `color::colorize_temp` makes of the same `{}°C` label in the same
/// band are the label painted in the band's colour; they are the same text
/// but for `colored`'s colouring switch: when one is written plain and the
/// other coloured, that is the only difference.
pub proof fn lemma_temperature_color_written(temp: Figure, band: TempBand, written: Seq<char>, colorized: Seq<char>)
    requires
        writes(written, tinted(temp.plain@ + "°C"@, band_hue(band))),
        painted(colorized, temp.plain@ + "°C"@, false, band_hue(band)),
    ensures
        painted(written, temp.plain@ + "°C"@, false, band_hue(band)),
        ({
            let label = temp.plain@ + "°C"@;
            let open = escape_open(false, band_hue(band));
            let coloured = open + reopened(label, open) + escape_close();
            ||| written == colorized
            ||| written == label && colorized == coloured
            ||| written == coloured && colorized == label
        }),
{
}

/// A temperature gradient of emoji, one per level.
pub fn create_temp_gradient(levels: &Vec<usize>) -> (r: String)
    requires
        forall|i: int| 0 <= i < levels@.len() ==> levels@[i] < 7,
    ensures
        r@ == color::gradient_text(levels@),
{
    color::create_temp_gradient(levels)
}

/// The colour of a wind category.
pub open spec fn wind_hue(category: Seq<char>) -> Hue {
    if category == "calm"@ || category == "light"@ {
        Hue::Green
    } else if category == "moderate"@ || category == "fresh"@ {
        Hue::Yellow
    } else if category == "strong"@ || category == "gale"@ {
        Hue::Red
    } else {
        Hue::White
    }
}

/// A zero-width space in the colour of the wind category.
pub fn get_wind_color(category: &str) -> (r: colored::ColoredString)
    ensures
        r == tinted("\u{200B}"@, wind_hue(category@)),
{
    let h = if same_text(category, "calm") || same_text(category, "light") {
        Hue::Green
    } else if same_text(category, "moderate") || same_text(category, "fresh") {
        Hue::Yellow
    } else if same_text(category, "strong") || same_text(category, "gale") {
        Hue::Red
    } else {
        Hue::White
    };
    tint("\u{200B}", h)
}


/// The colours: cold blue, cool cyan, mild yellow, hot red; calm and light
/// winds green, moderate and fresh yellow, strong and gale red, any other
/// white; written with the ANSI codes 31 (red), 32 (green), 33 (yellow),
/// 34 (blue), 36 (cyan) and 37 (white), `ESC [` then `1;` when bold, the
/// code and `m`, and ended by `ESC [0m`.
pub proof fn lemma_colour_table(category: Seq<char>, bold: bool, h: Hue)
    ensures
        band_hue(TempBand::Cold) == Hue::Blue && band_hue(TempBand::Cool) == Hue::Cyan,
        band_hue(TempBand::Mild) == Hue::Yellow && band_hue(TempBand::Hot) == Hue::Red,
        (category == "calm"@ || category == "light"@) ==> wind_hue(category) == Hue::Green,
        (category == "moderate"@ || category == "fresh"@) ==> wind_hue(category) == Hue::Yellow,
        (category == "strong"@ || category == "gale"@) ==> wind_hue(category) == Hue::Red,
        (category != "calm"@ && category != "light"@ && category != "moderate"@ && category != "fresh"@
            && category != "strong"@ && category != "gale"@) ==> wind_hue(category) == Hue::White,
        hue_code(Hue::Red) == seq!['3', '1'] && hue_code(Hue::Green) == seq!['3', '2'],
        hue_code(Hue::Yellow) == seq!['3', '3'] && hue_code(Hue::Blue) == seq!['3', '4'],
        hue_code(Hue::Cyan) == seq!['3', '6'] && hue_code(Hue::White) == seq!['3', '7'],
        !bold ==> escape_open(bold, h) == seq!['\x1b', '['] + hue_code(h) + seq!['m'],
        bold ==> escape_open(bold, h) == seq!['\x1b', '[', '1', ';'] + hue_code(h) + seq!['m'],
        escape_close() == seq!['\x1b', '[', '0', 'm'],
{
    reveal_strlit("calm");
    reveal_strlit("light");
    reveal_strlit("moderate");
    reveal_strlit("fresh");
    reveal_strlit("strong");
    reveal_strlit("gale");
    assert("calm"@[0] == 'c' && "light"@[0] == 'l' && "moderate"@[0] == 'm');
    assert("fresh"@[0] == 'f' && "strong"@[0] == 's' && "gale"@[0] == 'g');
    assert(seq!['\x1b', '['] + Seq::<char>::empty() =~= seq!['\x1b', '[']);
    assert(seq!['\x1b', '['] + seq!['1', ';'] =~= seq!['\x1b', '[', '1', ';']);
}

} // verus!

//! Colour utilities for temperature visualization.
use vstd::prelude::*;
use crate::measure::TempBand;
use crate::effects::{band_hue, hue_of_band, paint, painted, tinted, writes};

verus! {

/// The upper-case hexadecimal digit of a value below 16.
pub open spec fn hex_digit(v: int) -> char {
    if v < 10 {
        ((v + 48) as u8) as char
    } else {
        ((v + 55) as u8) as char
    }
}

/// Two hexadecimal digits of a byte.
pub open spec fn hex_byte(b: u8) -> Seq<char> {
    seq![hex_digit(b as int / 16), hex_digit(b as int % 16)]
}

fn hex_digit_of(v: u8) -> (r: char)
    requires
        v < 16,
    ensures
        r == hex_digit(v as int),
{
    if v < 10 {
        (v + 48) as char
    } else {
        (v + 55) as char
    }
}

/// The colour written as `#RRGGBB` in upper-case hexadecimal.
pub fn get_temperature_color_hex(red: u8, green: u8, blue: u8) -> (r: String)
    ensures
        r@ == seq!['#'] + hex_byte(red) + hex_byte(green) + hex_byte(blue),
{
    let mut r = String::new();
    crate::text::push_char(&mut r, '#');
    crate::text::push_char(&mut r, hex_digit_of(red / 16));
    crate::text::push_char(&mut r, hex_digit_of(red % 16));
    crate::text::push_char(&mut r, hex_digit_of(green / 16));
    crate::text::push_char(&mut r, hex_digit_of(green % 16));
    crate::text::push_char(&mut r, hex_digit_of(blue / 16));
    crate::text::push_char(&mut r, hex_digit_of(blue % 16));
    assert(r@ =~= seq!['#'] + hex_byte(red) + hex_byte(green) + hex_byte(blue));
    r
}

/// The emoji of a gradient level, from cold (0) to hot (6).
pub open spec fn gradient_symbol(level: int) -> Seq<char> {
    if level == 0 {
        "❄️"@
    } else if level == 1 {
        "🔵"@
    } else if level == 2 {
        "🫐"@
    } else if level == 3 {
        "🟢"@
    } else if level == 4 {
        "🟡"@
    } else if level == 5 {
        "🟠"@
    } else {
        "🔴"@
    }
}

/// The emoji of the levels, in order.
pub open spec fn gradient_text(levels: Seq<usize>) -> Seq<char>
    decreases levels.len(),
{
    if levels.len() == 0 {
        Seq::empty()
    } else {
        gradient_text(levels.drop_last()) + gradient_symbol(levels.last() as int)
    }
}

fn gradient_emoji(level: usize) -> (r: &'static str)
    ensures
        r@ == gradient_symbol(level as int),
{
    if level == 0 {
        "❄️"
    } else if level == 1 {
        "🔵"
    } else if level == 2 {
        "🫐"
    } else if level == 3 {
        "🟢"
    } else if level == 4 {
        "🟡"
    } else if level == 5 {
        "🟠"
    } else {
        "🔴"
    }
}

/// A temperature gradient of emoji for artistic display, one per level.
pub fn create_temp_gradient(levels: &Vec<usize>) -> (r: String)
    requires
        forall|i: int| 0 <= i < levels@.len() ==> levels@[i] < 7,
    ensures
        r@ == gradient_text(levels@),
{
    let mut r = String::new();
    let mut i: usize = 0;
    while i < levels.len()
        invariant
            i <= levels.len(),
            r@ == gradient_text(levels@.take(i as int)),
        decreases levels.len() - i,
    {
        r.append(gradient_emoji(levels[i]));
        assert(levels@.take(i as int + 1).drop_last() =~= levels@.take(i as int));
        i = i + 1;
    }
    assert(levels@.take(levels.len() as int) =~= levels@);
    r
}

/// Applies the colour of the temperature band to the text.
pub fn colorize_temp(text: &str, band: TempBand) -> (r: String)
    ensures
        painted(r@, text@, false, band_hue(band)),
        writes(r@, tinted(text@, band_hue(band))),
{
    paint(text, hue_of_band(band))
}


/// The gradient emoji from cold to hot: ❄️ 🔵 🫐 🟢 🟡 🟠 🔴, one per level
/// in order.
pub proof fn lemma_gradient_symbols(levels: Seq<usize>, more: usize)
    ensures
        gradient_symbol(0) == "❄️"@ && gradient_symbol(1) == "🔵"@ && gradient_symbol(2) == "🫐"@,
        gradient_symbol(3) == "🟢"@ && gradient_symbol(4) == "🟡"@ && gradient_symbol(5) == "🟠"@,
        gradient_symbol(6) == "🔴"@,
        gradient_text(Seq::<usize>::empty()) == Seq::<char>::empty(),
        gradient_text(levels.push(more)) == gradient_text(levels) + gradient_symbol(more as int),
{
    assert(levels.push(more).drop_last() =~= levels);
}

/// The upper-case hexadecimal digits, 0 to F, and a byte as its high digit
/// then its low digit.
pub proof fn lemma_hex_digits(b: u8)
    ensures
        hex_digit(0) == '0' && hex_digit(1) == '1' && hex_digit(2) == '2' && hex_digit(3) == '3',
        hex_digit(4) == '4' && hex_digit(5) == '5' && hex_digit(6) == '6' && hex_digit(7) == '7',
        hex_digit(8) == '8' && hex_digit(9) == '9' && hex_digit(10) == 'A' && hex_digit(11) == 'B',
        hex_digit(12) == 'C' && hex_digit(13) == 'D' && hex_digit(14) == 'E' && hex_digit(15) == 'F',
        hex_byte(b) == seq![hex_digit(b as int / 16), hex_digit(b as int % 16)],
        hex_byte(255) == seq!['F', 'F'],
        hex_byte(0) == seq!['0', '0'],
{
}

} // verus!

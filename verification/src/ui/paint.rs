//! What the panels draw: pieces of text placed on the screen, each with the
//! tone it is drawn in.  The terminal front end turns tones into colours.

use vstd::prelude::*;
use crate::date::{decimal, digit_char};

verus! {

/// The colours and emphases the panels draw with.
#[derive(Debug, Clone, Copy, PartialEq, Eq, Structural)]
pub enum Tone {
    /// The terminal's default style.
    Plain,
    /// White text.
    White,
    /// Bold white text.
    WhiteBold,
    /// Dark gray text.
    Muted,
    /// Bold dark gray text.
    MutedBold,
    /// Magenta text.
    Accent,
    /// Bold magenta text.
    AccentBold,
    /// Bold magenta text on the default background.
    AccentBoldOnReset,
    /// Yellow, bold and underlined: today.
    Today,
    /// Red text: holidays and errors.
    Alert,
    /// Green text: event markers and all-day events.
    Event,
    /// Cyan text: timed events.
    Timed,
    /// Cyan text, reversed: timed events in the selected cell.
    TimedReversed,
    /// Reversed default style: the selected empty cell.
    Reversed,
    /// The theme's text colour.
    ThemeText,
    /// The theme's muted colour.
    ThemeMuted,
    /// The theme's accent colour.
    ThemeAccent,
    /// The theme's accent colour, bold: the active tab.
    ThemeAccentBold,
    /// The theme's surface colour: borders of unfocused panels.
    ThemeSurface,
    /// The theme's accent colour, bold and underlined: the text cursor.
    ThemeCursor,
}

/// A piece of text drawn at column `x`, row `y`.
#[derive(Debug, Clone)]
pub struct Placed {
    pub x: u16,
    pub y: u16,
    pub text: String,
    pub tone: Tone,
}

/// A piece of a line of text, drawn in one tone.
#[derive(Debug, Clone)]
pub struct Piece {
    pub text: String,
    pub tone: Tone,
}

/// A line of pieces drawn from column `x` of row `y`, cut at `width` columns.
#[derive(Debug, Clone)]
pub struct Line {
    pub x: u16,
    pub y: u16,
    pub width: u16,
    pub pieces: Vec<Piece>,
}

/// The pieces of a line are the given texts in the given tones.
pub open spec fn pieces_are(p: Seq<Piece>, texts: Seq<Seq<char>>, tones: Seq<Tone>) -> bool {
    &&& p.len() == texts.len()
    &&& p.len() == tones.len()
    &&& forall|i: int| 0 <= i < p.len() ==> (#[trigger] p[i]).text@ == texts[i] && p[i].tone == tones[i]
}

/// A number below 100 right-aligned in two columns, as `{:>2}` writes it.
pub open spec fn two_wide(n: nat) -> Seq<char> {
    if n < 10 { seq![' '] + decimal(n) } else { decimal(n) }
}

/// Writes a number below 100 right-aligned in two columns.
pub fn two_wide_text(n: u32) -> (r: String)
    requires
        n < 100,
    ensures
        r@ == two_wide(n as nat),
{
    let mut s = String::new();
    let tens = n / 10;
    let ones = n % 10;
    if tens == 0 {
        crate::text::string_push(&mut s, ' ');
    } else {
        crate::text::string_push(&mut s, ((48 + tens) as u8) as char);
    }
    crate::text::string_push(&mut s, ((48 + ones) as u8) as char);
    proof {
        if n < 10 {
            assert(decimal(n as nat) == seq![digit_char(n as int)]);
            assert(s@ =~= seq![' '] + decimal(n as nat));
        } else {
            assert(decimal((n / 10) as nat) == seq![digit_char((n / 10) as int)]);
            assert(decimal(n as nat) =~= seq![digit_char((n / 10) as int), digit_char((n % 10) as int)]);
        }
    }
    s
}

/// Writes `n` in decimal after what `out` holds.
fn write_decimal(out: &mut String, n: usize)
    ensures
        final(out)@ == old(out)@ + decimal(n as nat),
    decreases n,
{
    if n >= 10 {
        write_decimal(out, n / 10);
    }
    let d = (n % 10) as u32;
    crate::text::string_push(out, ((48 + d) as u8) as char);
    proof {
        if n < 10 {
            assert(out@ =~= old(out)@ + seq![digit_char(n as int)]);
        } else {
            assert(out@ =~= old(out)@ + decimal((n / 10) as nat).push(digit_char((n % 10) as int)));
        }
    }
}

/// `n` in decimal, as `{}` writes it.
pub fn decimal_text(n: usize) -> (r: String)
    ensures
        r@ == decimal(n as nat),
{
    let mut s = String::new();
    write_decimal(&mut s, n);
    proof {
        assert(s@ =~= decimal(n as nat));
    }
    s
}

/// A signed number in decimal, as `{}` writes it.
pub open spec fn int_text(n: int) -> Seq<char> {
    if n < 0 { seq!['-'] + decimal((-n) as nat) } else { decimal(n as nat) }
}

/// `n` in decimal, with a minus sign when negative.
pub fn int_text_of(n: i32) -> (r: String)
    ensures
        r@ == int_text(n as int),
{
    let mut s = String::new();
    if n < 0 {
        crate::text::string_push(&mut s, '-');
        write_decimal(&mut s, (-(n as i64)) as usize);
    } else {
        write_decimal(&mut s, n as usize);
    }
    assert(s@ =~= int_text(n as int));
    s
}

/// The value of a hexadecimal digit, either case.
pub open spec fn hex_value(c: char) -> Option<u8> {
    if '0' <= c <= '9' {
        Some((c as u32 - '0' as u32) as u8)
    } else if 'a' <= c <= 'f' {
        Some((c as u32 - 'a' as u32 + 10) as u8)
    } else if 'A' <= c <= 'F' {
        Some((c as u32 - 'A' as u32 + 10) as u8)
    } else {
        None
    }
}

/// The byte written by two hexadecimal digits.
pub open spec fn hex_byte(hi: char, lo: char) -> Option<u8> {
    match (hex_value(hi), hex_value(lo)) {
        (Some(h), Some(l)) => Some((16 * h + l) as u8),
        _ => None,
    }
}

/// The colour that a theme writes `#rrggbb`, if the text is one.
pub open spec fn theme_color(s: Seq<char>) -> Option<(u8, u8, u8)> {
    if s.len() == 7 && s[0] == '#' {
        match (hex_byte(s[1], s[2]), hex_byte(s[3], s[4]), hex_byte(s[5], s[6])) {
            (Some(r), Some(g), Some(b)) => Some((r, g, b)),
            _ => None,
        }
    } else {
        None
    }
}

fn hex_digit(c: char) -> (r: Option<u8>)
    ensures
        r == hex_value(c),
{
    if '0' <= c && c <= '9' {
        Some((c as u32 - '0' as u32) as u8)
    } else if 'a' <= c && c <= 'f' {
        Some((c as u32 - 'a' as u32 + 10) as u8)
    } else if 'A' <= c && c <= 'F' {
        Some((c as u32 - 'A' as u32 + 10) as u8)
    } else {
        None
    }
}

fn hex_pair(hi: char, lo: char) -> (r: Option<u8>)
    ensures
        r == hex_byte(hi, lo),
{
    match (hex_digit(hi), hex_digit(lo)) {
        (Some(h), Some(l)) => Some(16 * h + l),
        _ => None,
    }
}

/// Read a theme colour written `#rrggbb`.
pub fn parse_theme_color(s: &str) -> (r: Option<(u8, u8, u8)>)
    ensures
        r == theme_color(s@),
{
    if s.unicode_len() != 7 || s.get_char(0) != '#' {
        return None;
    }
    match (hex_pair(s.get_char(1), s.get_char(2)), hex_pair(s.get_char(3), s.get_char(4)), hex_pair(s.get_char(5), s.get_char(6))) {
        (Some(r), Some(g), Some(b)) => Some((r, g, b)),
        _ => None,
    }
}

} // verus!

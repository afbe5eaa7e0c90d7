//! A line of text at a place on the screen, and the writing of numbers.

use crate::math::{clamp, half, halve, Vec2};
use crate::platform::{Color, Command, CommandView, Font};
use vstd::prelude::*;
use vstd::string::*;

verus! {

/// The width that layout reckons for one glyph of a label.
pub const GLYPH: i32 = 7500;

/// The width that layout reckons for one glyph of a title.
pub const TITLE_GLYPH: i32 = 7000;

/// The numeral for one decimal digit.
pub open spec fn digit(d: int) -> Seq<char> {
    if d == 0 {
        "0"@
    } else if d == 1 {
        "1"@
    } else if d == 2 {
        "2"@
    } else if d == 3 {
        "3"@
    } else if d == 4 {
        "4"@
    } else if d == 5 {
        "5"@
    } else if d == 6 {
        "6"@
    } else if d == 7 {
        "7"@
    } else if d == 8 {
        "8"@
    } else {
        "9"@
    }
}

/// The number `n` written in decimal, without leading zeros.
pub open spec fn decimal(n: nat) -> Seq<char>
    decreases n,
{
    if n < 10 {
        digit(n as int)
    } else {
        decimal(n / 10) + digit((n % 10) as int)
    }
}

/// The x coordinate at which a line of `glyphs` glyphs starts so that it
/// stands about the middle of a screen `width` wide: half the width, less
/// one glyph, less the glyphs of the line.
pub open spec fn line_start(width: int, glyphs: int, glyph: int) -> int {
    clamp(half(width) - glyph - glyphs * glyph)
}

/// Narrows a wide value to `i32`, stopping at the ends of the range.
pub fn saturate_wide(v: i128) -> (r: i32)
    ensures
        r as int == clamp(v as int),
{
    if v < i32::MIN as i128 {
        i32::MIN
    } else if v > i32::MAX as i128 {
        i32::MAX
    } else {
        v as i32
    }
}

/// Where a line of `glyphs` glyphs starts on a screen `width` wide.
pub fn start_of_line(width: i32, glyphs: usize, glyph: i32) -> (x: i32)
    ensures
        x as int == line_start(width as int, glyphs as int, glyph as int),
{
    assert(-0x8000_0000 * 0x1_0000_0000_0000_0000 <= (glyphs as int) * (glyph as int)
        <= 0x8000_0000 * 0x1_0000_0000_0000_0000) by (nonlinear_arith)
        requires
            0 <= glyphs as int <= 0xffff_ffff_ffff_ffff,
            -0x8000_0000 <= glyph as int <= 0x7fff_ffff,
    ;
    let line: i128 = (glyphs as i128) * (glyph as i128);
    saturate_wide(halve(width) as i128 - glyph as i128 - line)
}

fn numeral(d: usize) -> (s: &'static str)
    requires
        d < 10,
    ensures
        s@ == digit(d as int),
{
    if d == 0 {
        "0"
    } else if d == 1 {
        "1"
    } else if d == 2 {
        "2"
    } else if d == 3 {
        "3"
    } else if d == 4 {
        "4"
    } else if d == 5 {
        "5"
    } else if d == 6 {
        "6"
    } else if d == 7 {
        "7"
    } else if d == 8 {
        "8"
    } else {
        "9"
    }
}

/// Writes `n` in decimal.
pub fn decimal_string(n: usize) -> (s: String)
    ensures
        s@ == decimal(n as nat),
    decreases n,
{
    if n < 10 {
        String::from_str(numeral(n))
    } else {
        let mut s = decimal_string(n / 10);
        s.append(numeral(n % 10));
        s
    }
}

/// `prefix` followed by `n` in decimal.
pub fn numbered(prefix: &str, n: usize) -> (s: String)
    ensures
        s@ == prefix@ + decimal(n as nat),
{
    let mut s = String::from_str(prefix);
    let digits = decimal_string(n);
    s.append(digits.as_str());
    s
}

/// A line of text and where and how to draw it.
#[derive(Clone, Debug, PartialEq, Eq)]
pub struct Text {
    pub font: Font,
    pub text: String,
    pub pos: Vec2,
    pub font_size: u16,
    pub color: Color,
}

pub struct TextView {
    pub font: Font,
    pub text: Seq<char>,
    pub pos: Vec2,
    pub font_size: u16,
    pub color: Color,
}

impl View for Text {
    type V = TextView;

    open spec fn view(&self) -> TextView {
        TextView {
            font: self.font,
            text: self.text@,
            pos: self.pos,
            font_size: self.font_size,
            color: self.color,
        }
    }
}

impl TextView {
    /// The command that draws the line.
    pub open spec fn drawn(self) -> CommandView {
        CommandView::Text {
            text: self.text,
            x: self.pos.x,
            y: self.pos.y,
            font: self.font,
            font_size: self.font_size,
            color: self.color,
        }
    }
}

impl Text {
    pub fn new(pos: Vec2, font: Font, text: String, font_size: u16, color: Color) -> (t: Self)
        ensures
            t@ == (TextView { font, text: text@, pos, font_size, color }),
    {
        Self { font, text, pos, font_size, color }
    }

    /// Replaces the words and keeps the rest.
    pub fn change(&mut self, text: String)
        ensures
            final(self)@ == (TextView { text: text@, ..old(self)@ }),
    {
        self.text = text;
    }

    /// The command that draws the line.
    pub fn draw(&self) -> (c: Command)
        ensures
            c@ == self@.drawn(),
    {
        Command::Text {
            text: self.text.clone(),
            x: self.pos.x,
            y: self.pos.y,
            font: self.font,
            font_size: self.font_size,
            color: self.color,
        }
    }

    /// A copy of the line.
    pub fn duplicate(&self) -> (t: Self)
        ensures
            t@ == self@,
    {
        Self {
            font: self.font,
            text: self.text.clone(),
            pos: self.pos,
            font_size: self.font_size,
            color: self.color,
        }
    }
}

} // verus!

//! The sixteen-entry text-mode palette, packed color attributes and cells.
use vstd::prelude::*;

verus! {

/// One of the sixteen colors of the text-mode palette.
#[derive(Debug, Clone, Copy, PartialEq, Eq, Structural)]
pub enum Color {
    Black,
    Blue,
    Green,
    Cyan,
    Red,
    Magenta,
    Brown,
    LightGray,
    DarkGray,
    LightBlue,
    LightGreen,
    LightCyan,
    LightRed,
    Pink,
    Yellow,
    White,
}

/// Palette index of a color, `0..16`.
pub open spec fn color_value(c: Color) -> nat {
    match c {
        Color::Black => 0,
        Color::Blue => 1,
        Color::Green => 2,
        Color::Cyan => 3,
        Color::Red => 4,
        Color::Magenta => 5,
        Color::Brown => 6,
        Color::LightGray => 7,
        Color::DarkGray => 8,
        Color::LightBlue => 9,
        Color::LightGreen => 10,
        Color::LightCyan => 11,
        Color::LightRed => 12,
        Color::Pink => 13,
        Color::Yellow => 14,
        Color::White => 15,
    }
}

/// The color with palette index `n`, for `n < 16`.
pub open spec fn color_of(n: nat) -> Color {
    if n == 0 {
        Color::Black
    } else if n == 1 {
        Color::Blue
    } else if n == 2 {
        Color::Green
    } else if n == 3 {
        Color::Cyan
    } else if n == 4 {
        Color::Red
    } else if n == 5 {
        Color::Magenta
    } else if n == 6 {
        Color::Brown
    } else if n == 7 {
        Color::LightGray
    } else if n == 8 {
        Color::DarkGray
    } else if n == 9 {
        Color::LightBlue
    } else if n == 10 {
        Color::LightGreen
    } else if n == 11 {
        Color::LightCyan
    } else if n == 12 {
        Color::LightRed
    } else if n == 13 {
        Color::Pink
    } else if n == 14 {
        Color::Yellow
    } else {
        Color::White
    }
}

/// Successor in the color cycle `1, 2, ..., 15, 1, ...`; black enters the
/// cycle at 1.
pub open spec fn next_spec(c: Color) -> Color {
    if color_value(c) >= 15 {
        Color::Blue
    } else {
        color_of(color_value(c) + 1)
    }
}

/// Predecessor in the color cycle; below index 2 it wraps to the top
/// of the palette, never to black.
pub open spec fn previous_spec(c: Color) -> Color {
    if color_value(c) < 2 {
        Color::White
    } else {
        color_of((color_value(c) - 1) as nat)
    }
}

/// `next_spec` applied `n` times.
pub open spec fn next_n(c: Color, n: nat) -> Color
    decreases n,
{
    if n == 0 {
        c
    } else {
        next_n(next_spec(c), (n - 1) as nat)
    }
}

pub proof fn lemma_color_of_value(c: Color)
    ensures
        color_of(color_value(c)) == c,
        color_value(c) < 16,
{
}

impl Color {
    /// The color with palette index `n`.
    pub fn from_u8(n: u8) -> (c: Color)
        requires
            n < 16,
        ensures
            c == color_of(n as nat),
            color_value(c) == n,
    {
        match n {
            0 => Color::Black,
            1 => Color::Blue,
            2 => Color::Green,
            3 => Color::Cyan,
            4 => Color::Red,
            5 => Color::Magenta,
            6 => Color::Brown,
            7 => Color::LightGray,
            8 => Color::DarkGray,
            9 => Color::LightBlue,
            10 => Color::LightGreen,
            11 => Color::LightCyan,
            12 => Color::LightRed,
            13 => Color::Pink,
            14 => Color::Yellow,
            _ => Color::White,
        }
    }

    /// Palette index of this color.
    pub fn to_u8(&self) -> (n: u8)
        ensures
            n as nat == color_value(*self),
            n < 16,
    {
        match self {
            Color::Black => 0,
            Color::Blue => 1,
            Color::Green => 2,
            Color::Cyan => 3,
            Color::Red => 4,
            Color::Magenta => 5,
            Color::Brown => 6,
            Color::LightGray => 7,
            Color::DarkGray => 8,
            Color::LightBlue => 9,
            Color::LightGreen => 10,
            Color::LightCyan => 11,
            Color::LightRed => 12,
            Color::Pink => 13,
            Color::Yellow => 14,
            Color::White => 15,
        }
    }

    /// The next color of the cycle over palette entries 1 to 15.
    pub fn next_color(&self) -> (c: Color)
        ensures
            c == next_spec(*self),
            1 <= color_value(c) <= 15,
    {
        let mut val = self.to_u8();
        if val > 14 {
            val = 0;
        }
        val += 1;
        Color::from_u8(val)
    }

    /// The previous color of the cycle over palette entries 1 to 15.
    pub fn previous_color(&self) -> (c: Color)
        ensures
            c == previous_spec(*self),
            1 <= color_value(c) <= 15,
    {
        let mut val = self.to_u8();
        if val < 2 {
            val = 16;
        }
        val -= 1;
        Color::from_u8(val)
    }
}

/// Stepping back undoes stepping forward, and the reverse, on the
/// palette entries 1 to 15.
pub proof fn lemma_previous_inverts_next(c: Color)
    requires
        1 <= color_value(c) <= 15,
    ensures
        previous_spec(next_spec(c)) == c,
        next_spec(previous_spec(c)) == c,
{
}

/// Stepping forward `n` times from entry `v` lands on entry
/// `(v - 1 + n) % 15 + 1`.
pub proof fn lemma_next_n_value(c: Color, n: nat)
    requires
        1 <= color_value(c) <= 15,
    ensures
        color_value(next_n(c, n)) == (color_value(c) - 1 + n) % 15 + 1,
    decreases n,
{
    if n > 0 {
        lemma_next_n_value(next_spec(c), (n - 1) as nat);
    }
}

/// The colors 1 to 15 form a cycle of length 15: fifteen steps forward
/// lead back to the start.
pub proof fn lemma_next_cycle_length(c: Color)
    requires
        1 <= color_value(c) <= 15,
    ensures
        next_n(c, 15) == c,
{
    lemma_next_n_value(c, 15);
    lemma_color_of_value(c);
    lemma_color_of_value(next_n(c, 15));
}

/// Every entry 1 to 15 lies on the cycle from every other: stepping
/// forward `(d - v) mod 15` times from entry `v` reaches entry `d`, so the
/// cycle passes through all fifteen entries.
pub proof fn lemma_next_reaches_every_color(c: Color, d: Color)
    requires
        1 <= color_value(c) <= 15,
        1 <= color_value(d) <= 15,
    ensures
        next_n(c, ((color_value(d) + 15 - color_value(c)) % 15) as nat) == d,
        ((color_value(d) + 15 - color_value(c)) % 15) < 15,
{
    let v = color_value(c) as int;
    let w = color_value(d) as int;
    let n = (w + 15 - v) % 15;
    if w >= v {
        assert(n == w - v);
    } else {
        assert(n == w - v + 15);
    }
    lemma_next_n_value(c, n as nat);
    assert((v - 1 + n) % 15 + 1 == w);
    lemma_color_of_value(next_n(c, n as nat));
    lemma_color_of_value(d);
}

/// A packed foreground/background attribute: background in the high four
/// bits, foreground in the low four.
#[derive(Debug, Clone, Copy, PartialEq, Eq, Structural)]
pub struct ColorCode(pub u8);

impl ColorCode {
    /// Packs `foreground` over `background`.
    pub fn new(foreground: Color, background: Color) -> (code: ColorCode)
        ensures
            code.0 == 16 * color_value(background) + color_value(foreground),
    {
        let f = foreground.to_u8();
        let b = background.to_u8();
        let packed: u8 = b << 4u8 | f;
        assert(packed == 16 * b + f) by (bit_vector)
            requires
                packed == b << 4u8 | f,
                f < 16,
                b < 16,
        ;
        ColorCode(packed)
    }
}

/// One display cell: a character byte and its color attribute.
#[derive(Debug, Clone, Copy, PartialEq, Eq, Structural)]
pub struct ScreenChar {
    pub ascii_character: u8,
    pub color_code: ColorCode,
}

} // verus!

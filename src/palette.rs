//! The sixteen-colour palette and the foreground/background attribute pair.
use vstd::prelude::*;

verus! {

/// One of the sixteen colours of the text-mode palette.
#[derive(Debug, Clone, Copy, PartialEq, Eq, Structural)]
pub enum TvColor {
    Black,
    Blue,
    Green,
    Cyan,
    Red,
    Magenta,
    Brown,
    LightGray,
    DarkGray,
    LightBlue,
    LightGreen,
    LightCyan,
    LightRed,
    LightMagenta,
    Yellow,
    White,
}

/// The palette index of a colour, from 0 to 15.
pub open spec fn color_index(c: TvColor) -> u8 {
    match c {
        TvColor::Black => 0,
        TvColor::Blue => 1,
        TvColor::Green => 2,
        TvColor::Cyan => 3,
        TvColor::Red => 4,
        TvColor::Magenta => 5,
        TvColor::Brown => 6,
        TvColor::LightGray => 7,
        TvColor::DarkGray => 8,
        TvColor::LightBlue => 9,
        TvColor::LightGreen => 10,
        TvColor::LightCyan => 11,
        TvColor::LightRed => 12,
        TvColor::LightMagenta => 13,
        TvColor::Yellow => 14,
        TvColor::White => 15,
    }
}

/// The colour at a palette index; the index is taken modulo 16.
pub open spec fn color_of_index(n: u8) -> TvColor {
    match n % 16 {
        0 => TvColor::Black,
        1 => TvColor::Blue,
        2 => TvColor::Green,
        3 => TvColor::Cyan,
        4 => TvColor::Red,
        5 => TvColor::Magenta,
        6 => TvColor::Brown,
        7 => TvColor::LightGray,
        8 => TvColor::DarkGray,
        9 => TvColor::LightBlue,
        10 => TvColor::LightGreen,
        11 => TvColor::LightCyan,
        12 => TvColor::LightRed,
        13 => TvColor::LightMagenta,
        14 => TvColor::Yellow,
        15 => TvColor::White,
        _ => TvColor::LightGray,
    }
}

/// The red, green and blue components of a colour.
pub open spec fn color_rgb(c: TvColor) -> (u8, u8, u8) {
    match c {
        TvColor::Black => (0, 0, 0),
        TvColor::Blue => (0, 0, 170),
        TvColor::Green => (0, 170, 0),
        TvColor::Cyan => (0, 170, 170),
        TvColor::Red => (170, 0, 0),
        TvColor::Magenta => (170, 0, 170),
        TvColor::Brown => (170, 85, 0),
        TvColor::LightGray => (170, 170, 170),
        TvColor::DarkGray => (85, 85, 85),
        TvColor::LightBlue => (85, 85, 255),
        TvColor::LightGreen => (85, 255, 85),
        TvColor::LightCyan => (85, 255, 255),
        TvColor::LightRed => (255, 85, 85),
        TvColor::LightMagenta => (255, 85, 255),
        TvColor::Yellow => (255, 255, 85),
        TvColor::White => (255, 255, 255),
    }
}

/// The squared distance between two RGB triples.
pub open spec fn rgb_distance(a: (u8, u8, u8), b: (u8, u8, u8)) -> int {
    (a.0 - b.0) * (a.0 - b.0) + (a.1 - b.1) * (a.1 - b.1) + (a.2 - b.2) * (a.2 - b.2)
}

impl TvColor {
    /// The palette index of this colour.
    pub fn index(self) -> (r: u8)
        ensures
            r == color_index(self),
            r < 16,
    {
        match self {
            TvColor::Black => 0,
            TvColor::Blue => 1,
            TvColor::Green => 2,
            TvColor::Cyan => 3,
            TvColor::Red => 4,
            TvColor::Magenta => 5,
            TvColor::Brown => 6,
            TvColor::LightGray => 7,
            TvColor::DarkGray => 8,
            TvColor::LightBlue => 9,
            TvColor::LightGreen => 10,
            TvColor::LightCyan => 11,
            TvColor::LightRed => 12,
            TvColor::LightMagenta => 13,
            TvColor::Yellow => 14,
            TvColor::White => 15,
        }
    }

    /// The red, green and blue components of this colour.
    pub fn to_rgb(self) -> (r: (u8, u8, u8))
        ensures
            r == color_rgb(self),
    {
        match self {
            TvColor::Black => (0, 0, 0),
            TvColor::Blue => (0, 0, 170),
            TvColor::Green => (0, 170, 0),
            TvColor::Cyan => (0, 170, 170),
            TvColor::Red => (170, 0, 0),
            TvColor::Magenta => (170, 0, 170),
            TvColor::Brown => (170, 85, 0),
            TvColor::LightGray => (170, 170, 170),
            TvColor::DarkGray => (85, 85, 85),
            TvColor::LightBlue => (85, 85, 255),
            TvColor::LightGreen => (85, 255, 85),
            TvColor::LightCyan => (85, 255, 255),
            TvColor::LightRed => (255, 85, 85),
            TvColor::LightMagenta => (255, 85, 255),
            TvColor::Yellow => (255, 255, 85),
            TvColor::White => (255, 255, 255),
        }
    }

    /// The colour at palette index `n % 16`.
    pub fn from_u8(n: u8) -> (r: TvColor)
        ensures
            r == color_of_index(n),
    {
        match n % 16 {
            0 => TvColor::Black,
            1 => TvColor::Blue,
            2 => TvColor::Green,
            3 => TvColor::Cyan,
            4 => TvColor::Red,
            5 => TvColor::Magenta,
            6 => TvColor::Brown,
            7 => TvColor::LightGray,
            8 => TvColor::DarkGray,
            9 => TvColor::LightBlue,
            10 => TvColor::LightGreen,
            11 => TvColor::LightCyan,
            12 => TvColor::LightRed,
            13 => TvColor::LightMagenta,
            14 => TvColor::Yellow,
            15 => TvColor::White,
            _ => TvColor::LightGray,
        }
    }

    /// The palette colour closest to `(r, g, b)` by squared distance; of equally
    /// close colours, the one with the lowest index.
    pub fn from_rgb(r: u8, g: u8, b: u8) -> (c: TvColor)
        ensures
            forall|k: u8| k < 16 ==> rgb_distance((r, g, b), color_rgb(c)) <= rgb_distance(
                (r, g, b),
                color_rgb(#[trigger] color_of_index(k)),
            ),
            forall|k: u8|
                k < color_index(c) ==> rgb_distance((r, g, b), color_rgb(c)) < rgb_distance(
                    (r, g, b),
                    color_rgb(#[trigger] color_of_index(k)),
                ),
    {
        let mut best = TvColor::Black;
        let mut best_distance: u32 = u32::MAX;
        let mut i: u8 = 0;
        while i < 16
            invariant
                i <= 16,
                i == 0 ==> best_distance == u32::MAX && best == TvColor::Black,
                i > 0 ==> best_distance == rgb_distance((r, g, b), color_rgb(best)),
                i > 0 ==> color_index(best) < i,
                i > 0 ==> best_distance <= 195075,
                forall|k: u8| k < i ==> best_distance <= rgb_distance(
                    (r, g, b),
                    color_rgb(#[trigger] color_of_index(k)),
                ),
                forall|k: u8|
                    k < color_index(best) ==> best_distance < rgb_distance(
                        (r, g, b),
                        color_rgb(#[trigger] color_of_index(k)),
                    ),
            decreases 16 - i,
        {
            let color = TvColor::from_u8(i);
            let (cr, cg, cb) = color.to_rgb();
            let dr = r as i32 - cr as i32;
            let dg = g as i32 - cg as i32;
            let db = b as i32 - cb as i32;
            assert(0 <= dr * dr <= 65025 && 0 <= dg * dg <= 65025 && 0 <= db * db <= 65025) by (nonlinear_arith)
                requires
                    -255 <= dr <= 255,
                    -255 <= dg <= 255,
                    -255 <= db <= 255,
            ;
            let distance = (dr * dr + dg * dg + db * db) as u32;
            assert(color_index(color) == i);
            if distance < best_distance {
                best_distance = distance;
                best = color;
            }
            i = i + 1;
        }
        assert(best_distance < u32::MAX);
        best
    }
}

/// A foreground and background colour pair.
#[derive(Debug, Clone, Copy, PartialEq, Eq, Structural)]
pub struct Attr {
    pub fg: TvColor,
    pub bg: TvColor,
}

/// The packed byte of an attribute: foreground in the low four bits,
/// background in the high four.
pub open spec fn attr_byte(a: Attr) -> u8 {
    (color_index(a.fg) + 16 * color_index(a.bg)) as u8
}

/// The attribute that a packed byte stands for.
pub open spec fn attr_of_byte(b: u8) -> Attr {
    Attr { fg: color_of_index(b % 16), bg: color_of_index(b / 16) }
}

proof fn lemma_index_round_trip(c: TvColor)
    ensures
        color_of_index(color_index(c)) == c,
{
}

impl Attr {
    pub fn new(fg: TvColor, bg: TvColor) -> (r: Attr)
        ensures
            r.fg == fg && r.bg == bg,
    {
        Attr { fg, bg }
    }

    /// Decodes a packed attribute byte.
    pub fn from_u8(byte: u8) -> (r: Attr)
        ensures
            r == attr_of_byte(byte),
    {
        let lo = byte & 0x0F;
        let hi = (byte >> 4) & 0x0F;
        assert(lo == byte % 16 && hi == byte / 16) by (bit_vector)
            requires
                lo == byte & 0x0F,
                hi == (byte >> 4) & 0x0F,
        ;
        Attr { fg: TvColor::from_u8(lo), bg: TvColor::from_u8(hi) }
    }

    /// Encodes the attribute as a packed byte.
    pub fn to_u8(self) -> (r: u8)
        ensures
            r == attr_byte(self),
    {
        let f = self.fg.index();
        let b = self.bg.index();
        let r = f | (b << 4);
        assert(r == f + 16 * b) by (bit_vector)
            requires
                f < 16,
                b < 16,
                r == f | (b << 4),
        ;
        r
    }
}

/// Packing an attribute into its byte and unpacking it gives the same attribute,
/// for each of the 256 foreground/background pairs.
pub proof fn lemma_attr_round_trip(a: Attr)
    ensures
        attr_of_byte(attr_byte(a)) == a,
{
    lemma_index_round_trip(a.fg);
    lemma_index_round_trip(a.bg);
    let f = color_index(a.fg);
    let b = color_index(a.bg);
    assert((f + 16 * b) % 16 == f);
    assert((f + 16 * b) / 16 == b);
}

} // verus!

use vstd::prelude::*;

verus! {

/// An RGBA color held as the four 8-bit channel values it is built from.
///
/// The display conversion (sRGB to linear) always works on these byte values,
/// so storing the bytes keeps the quantization explicit.
#[derive(Debug, Clone, Copy, PartialEq, Eq, Structural)]
pub struct Color {
    pub r: u8,
    pub g: u8,
    pub b: u8,
    pub a: u8,
}

/// The byte found `shift` bits up in a packed `AARRGGBB` value.
pub open spec fn byte_at(hex: u32, shift: u32) -> u8 {
    ((hex >> shift) & 0xFFu32) as u8
}

/// The packed `AARRGGBB` value of four channel bytes.
pub open spec fn pack_argb(a: u8, r: u8, g: u8, b: u8) -> u32 {
    ((a as u32) << 24u32) | ((r as u32) << 16u32) | ((g as u32) << 8u32) | (b as u32)
}

impl Color {
    pub fn new(r: u8, g: u8, b: u8, a: u8) -> (c: Color)
        ensures
            c == (Color { r, g, b, a }),
    {
        Color { r, g, b, a }
    }

    /// Builds a color from a packed `AARRGGBB` value.
    pub fn from_hex(hex: u32) -> (c: Color)
        ensures
            c.a == byte_at(hex, 24),
            c.r == byte_at(hex, 16),
            c.g == byte_at(hex, 8),
            c.b == byte_at(hex, 0),
    {
        let r = (hex >> 16u32) & 0xFFu32;
        let g = (hex >> 8u32) & 0xFFu32;
        let b = hex & 0xFFu32;
        let a = (hex >> 24u32) & 0xFFu32;
        assert(r <= 0xFF && g <= 0xFF && b <= 0xFF && a <= 0xFF) by (bit_vector)
            requires
                r == (hex >> 16u32) & 0xFFu32,
                g == (hex >> 8u32) & 0xFFu32,
                b == hex & 0xFFu32,
                a == (hex >> 24u32) & 0xFFu32,
        ;
        assert(hex >> 0u32 == hex) by (bit_vector);
        Color { r: r as u8, g: g as u8, b: b as u8, a: a as u8 }
    }

    /// The packed `AARRGGBB` value of this color.
    pub fn to_hex(&self) -> (hex: u32)
        ensures
            hex == pack_argb(self.a, self.r, self.g, self.b),
    {
        ((self.a as u32) << 24u32) | ((self.r as u32) << 16u32) | ((self.g as u32) << 8u32) | (
        self.b as u32)
    }
}

/// Reading the channels of a color built from a packed value gives back the
/// packed value's bytes, and packing them again gives back the value.
pub proof fn lemma_hex_round_trip(hex: u32)
    ensures
        pack_argb(byte_at(hex, 24), byte_at(hex, 16), byte_at(hex, 8), byte_at(hex, 0)) == hex,
{
    assert(((((hex >> 24u32) & 0xFFu32) as u8 as u32) << 24u32) | ((((hex >> 16u32) & 0xFFu32) as u8 as u32) << 16u32)
        | ((((hex >> 8u32) & 0xFFu32) as u8 as u32) << 8u32) | (((hex >> 0u32) & 0xFFu32) as u8 as u32) == hex)
        by (bit_vector);
}

/// Packing four channel bytes and reading them back gives the same bytes.
pub proof fn lemma_channels_round_trip(a: u8, r: u8, g: u8, b: u8)
    ensures
        byte_at(pack_argb(a, r, g, b), 24) == a,
        byte_at(pack_argb(a, r, g, b), 16) == r,
        byte_at(pack_argb(a, r, g, b), 8) == g,
        byte_at(pack_argb(a, r, g, b), 0) == b,
{
    assert(((((((a as u32) << 24u32) | ((r as u32) << 16u32) | ((g as u32) << 8u32) | (b as u32))
        >> 24u32) & 0xFFu32) as u8) == a) by (bit_vector);
    assert(((((((a as u32) << 24u32) | ((r as u32) << 16u32) | ((g as u32) << 8u32) | (b as u32))
        >> 16u32) & 0xFFu32) as u8) == r) by (bit_vector);
    assert(((((((a as u32) << 24u32) | ((r as u32) << 16u32) | ((g as u32) << 8u32) | (b as u32))
        >> 8u32) & 0xFFu32) as u8) == g) by (bit_vector);
    assert(((((((a as u32) << 24u32) | ((r as u32) << 16u32) | ((g as u32) << 8u32) | (b as u32))
        >> 0u32) & 0xFFu32) as u8) == b) by (bit_vector);
}

/// The colors the renderer uses by default.
pub struct StandardColorPalette {}

impl StandardColorPalette {
    /// The window's clear color.
    pub fn background() -> (c: Color)
        ensures
            c == (Color { r: 15, g: 17, b: 18, a: 255 }),
    {
        Color { r: 15, g: 17, b: 18, a: 255 }
    }

    /// The background grid's lines.
    pub fn grid() -> (c: Color)
        ensures
            c == (Color { r: 51, g: 51, b: 51, a: 255 }),
    {
        Color { r: 51, g: 51, b: 51, a: 255 }
    }

    /// A warm white.
    pub fn white() -> (c: Color)
        ensures
            c == (Color { r: 255, g: 255, b: 250, a: 255 }),
    {
        Color { r: 255, g: 255, b: 250, a: 255 }
    }

    /// Blue.
    pub fn blue() -> (c: Color)
        ensures
            c == (Color { r: 1, g: 111, b: 185, a: 255 }),
    {
        Color { r: 1, g: 111, b: 185, a: 255 }
    }

    /// Green.
    pub fn green() -> (c: Color)
        ensures
            c == (Color { r: 4, g: 167, b: 119, a: 255 }),
    {
        Color { r: 4, g: 167, b: 119, a: 255 }
    }

    /// Red.
    pub fn red() -> (c: Color)
        ensures
            c == (Color { r: 236, g: 78, b: 32, a: 255 }),
    {
        Color { r: 236, g: 78, b: 32, a: 255 }
    }

    /// Opaque black.
    pub fn black() -> (c: Color)
        ensures
            c == (Color { r: 0, g: 0, b: 0, a: 255 }),
    {
        Color { r: 0, g: 0, b: 0, a: 255 }
    }

    /// Fully transparent black.
    pub fn transparent() -> (c: Color)
        ensures
            c == (Color { r: 0, g: 0, b: 0, a: 0 }),
    {
        Color { r: 0, g: 0, b: 0, a: 0 }
    }
}

} // verus!

use vstd::prelude::*;

verus! {

/// An RGB color with one byte per channel.
#[derive(Clone, Copy, Debug, PartialEq, Eq, Structural)]
pub struct Color {
    pub r: u8,
    pub g: u8,
    pub b: u8,
}

/// The packed 24-bit pixel value `r << 16 | g << 8 | b`.
pub open spec fn packed(r: u8, g: u8, b: u8) -> nat {
    (r as nat) * 65536 + (g as nat) * 256 + (b as nat)
}

impl Color {
    pub open spec fn hex_spec(self) -> nat {
        packed(self.r, self.g, self.b)
    }

    /// The color of a ray that hits nothing: flat green.
    pub open spec fn background_spec() -> Color {
        Color { r: 120, g: 180, b: 130 }
    }

    pub fn background() -> (c: Color)
        ensures
            c == Color::background_spec(),
    {
        Color { r: 120, g: 180, b: 130 }
    }

    pub fn new(r: u8, g: u8, b: u8) -> (c: Color)
        ensures
            c.r == r,
            c.g == g,
            c.b == b,
    {
        Color { r, g, b }
    }

    /// Packs the color into a framebuffer pixel.
    pub fn to_hex(&self) -> (h: u32)
        ensures
            h as nat == self.hex_spec(),
            h < 0x1000000,
    {
        let r = self.r as u32;
        let g = self.g as u32;
        let b = self.b as u32;
        assert((r << 16u32) | (g << 8u32) | b == r * 65536 + g * 256 + b) by (bit_vector)
            requires
                r < 256,
                g < 256,
                b < 256,
        ;
        (r << 16) | (g << 8) | b
    }
}

} // verus!

//! 8-bit RGBA colors and their packed 32-bit form.
use vstd::prelude::*;

verus! {

/// An RGBA color with 8 bits per channel.
#[derive(Debug, Clone, Copy, PartialEq, Eq, Structural)]
pub struct Color {
    pub r: u8,
    pub g: u8,
    pub b: u8,
    pub a: u8,
}

/// The packed form of a color: red in the lowest byte, then green, blue and
/// alpha.
pub open spec fn packed(c: Color) -> u32 {
    (c.r as u32) | ((c.g as u32) << 8u32) | ((c.b as u32) << 16u32) | ((c.a as u32) << 24u32)
}

/// The color that a packed value stands for.
pub open spec fn unpacked(p: u32) -> Color {
    Color { r: p as u8, g: (p >> 8u32) as u8, b: (p >> 16u32) as u8, a: (p >> 24u32) as u8 }
}

/// Draws one byte from `rand::random`, the thread-local generator of the
/// `rand` crate. Nothing is promised about the byte: any value can come back.
#[verifier::external_body]
fn random_byte() -> u8 {
    rand::random::<u8>()
}

impl Color {
    /// An opaque color.
    pub fn rgb(r: u8, g: u8, b: u8) -> (c: Self)
        ensures
            c == (Color { r, g, b, a: 255 }),
    {
        Color { r, g, b, a: 255 }
    }

    pub fn rgba(r: u8, g: u8, b: u8, a: u8) -> (c: Self)
        ensures
            c == (Color { r, g, b, a }),
    {
        Color { r, g, b, a }
    }

    /// An opaque color with random red, green and blue channels.
    pub fn random_rgb() -> (c: Self)
        ensures
            c.a == 255,
    {
        let r = random_byte();
        let g = random_byte();
        let b = random_byte();
        Color { r, g, b, a: 255 }
    }

    /// The color that `packed` stands for: red from the lowest byte, then
    /// green, blue and alpha.
    pub fn unpack(packed: u32) -> (c: Self)
        ensures
            c == unpacked(packed),
    {
        Self {
            r: packed as u8,
            g: (packed >> 8) as u8,
            b: (packed >> 16) as u8,
            a: (packed >> 24) as u8,
        }
    }

    /// The packed form of the color: red in the lowest byte, then green,
    /// blue and alpha.
    pub fn pack(self) -> (p: u32)
        ensures
            p == packed(self),
    {
        let mut packed = self.r as u32;
        packed = packed | (self.g as u32) << 8;
        packed = packed | (self.b as u32) << 16;
        packed = packed | (self.a as u32) << 24;
        packed
    }
}

/// Unpacking a packed color gives the color back.
pub proof fn lemma_unpack_pack(c: Color)
    ensures
        unpacked(packed(c)) == c,
{
    let (r, g, b, a) = (c.r, c.g, c.b, c.a);
    assert(((r as u32) | ((g as u32) << 8u32) | ((b as u32) << 16u32) | ((a as u32) << 24u32)) as u8 == r) by (bit_vector);
    assert((((r as u32) | ((g as u32) << 8u32) | ((b as u32) << 16u32) | ((a as u32) << 24u32)) >> 8u32) as u8 == g) by (bit_vector);
    assert((((r as u32) | ((g as u32) << 8u32) | ((b as u32) << 16u32) | ((a as u32) << 24u32)) >> 16u32) as u8 == b) by (bit_vector);
    assert((((r as u32) | ((g as u32) << 8u32) | ((b as u32) << 16u32) | ((a as u32) << 24u32)) >> 24u32) as u8 == a) by (bit_vector);
}

/// Packing an unpacked value gives the value back.
pub proof fn lemma_pack_unpack(p: u32)
    ensures
        packed(unpacked(p)) == p,
{
    assert(((p as u8) as u32) | ((((p >> 8u32) as u8) as u32) << 8u32) | ((((p >> 16u32) as u8) as u32) << 16u32) | ((((p >> 24u32) as u8) as u32) << 24u32) == p) by (bit_vector);
}

} // verus!

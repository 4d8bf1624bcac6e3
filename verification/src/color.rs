//! Packed colours and the byte order in which a pixel is stored.

use vstd::prelude::*;

verus! {

/// The four bytes of one stored pixel, in the order in which they lie in a
/// buffer: blue first, then green, red and alpha.
#[derive(Clone, Copy, Debug, PartialEq, Eq, Structural)]
pub struct Pixel {
    pub blue: u8,
    pub green: u8,
    pub red: u8,
    pub alpha: u8,
}

/// Alpha of a fully opaque pixel.
pub const OPAQUE: u8 = 0xff;

/// Blue channel of a colour packed as `0x00RRGGBB`: its lowest byte.
pub open spec fn blue_of(color: u32) -> u8 {
    (color as int % 256) as u8
}

/// Green channel of a colour packed as `0x00RRGGBB`: its second byte.
pub open spec fn green_of(color: u32) -> u8 {
    (color as int / 256 % 256) as u8
}

/// Red channel of a colour packed as `0x00RRGGBB`: its third byte.
pub open spec fn red_of(color: u32) -> u8 {
    (color as int / 65536 % 256) as u8
}

impl Pixel {
    /// The byte at position `k` of the stored pixel, for `k` in `0..4`.
    pub open spec fn byte(self, k: int) -> u8 {
        if k == 0 {
            self.blue
        } else if k == 1 {
            self.green
        } else if k == 2 {
            self.red
        } else {
            self.alpha
        }
    }

    /// The opaque pixel of a packed colour; the top byte of `color` is ignored.
    pub open spec fn opaque(color: u32) -> Pixel {
        Pixel { blue: blue_of(color), green: green_of(color), red: red_of(color), alpha: OPAQUE }
    }

    /// Unpacks a `0x00RRGGBB` colour into the opaque pixel that is stored for it.
    pub fn from_color(color: u32) -> (p: Pixel)
        ensures
            p == Pixel::opaque(color),
    {
        let blue: u32 = color & 0xff;
        let green: u32 = (color >> 8) & 0xff;
        let red: u32 = (color >> 16) & 0xff;
        assert(color & 0xff == color % 256) by (bit_vector);
        assert((color >> 8) & 0xff == color / 256 % 256) by (bit_vector);
        assert((color >> 16) & 0xff == color / 65536 % 256) by (bit_vector);
        Pixel { blue: blue as u8, green: green as u8, red: red as u8, alpha: OPAQUE }
    }
}

/// The top byte of a packed colour has no part in the pixel stored for it.
pub proof fn lemma_opaque_ignores_top_byte(color: u32)
    ensures
        Pixel::opaque(color) == Pixel::opaque((color % 0x100_0000) as u32),
{
    let low: u32 = (color % 0x100_0000) as u32;
    assert(low % 256 == color % 256 && low / 256 % 256 == color / 256 % 256 && low / 65536 % 256
        == color / 65536 % 256) by (bit_vector)
        requires
            low == color % 0x100_0000,
    ;
}

} // verus!

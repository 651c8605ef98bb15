//! Where the background reads its tile numbers and tiles.
use vstd::prelude::*;
use crate::alu::bit_of;
use crate::frame::{background_pixel, map_tile, shade, ColoredPixel};
use crate::ppu::TilePixelValue;

verus! {

// ---------------------------------------------------------------- pictures

/// The background pixel at (x, y) shows the tile whose number is stored at
/// 0x9800 + (y / 8) * 32 + x / 8 when LCDC bit 3 is clear and at 0x9C00 +
/// the same when it is set; the number picks tile n from 0x8000 when LCDC
/// bit 4 is set, else tile 256 + n as a signed byte (from 0x9000). The
/// pixel is row y % 8, column x % 8 of that tile, in the shade of its colour
/// number, 0 white to 3 black.
pub proof fn lemma_background_addressing(vram: Seq<u8>, tiles: Seq<TilePixelValue>, control: u8, x: int, y: int)
    ensures
        ({
            let map = if control & 0x08 == 0 { 0x9800int - 0x8000 } else { 0x9C00int - 0x8000 };
            let n = vram[map + (y / 8) * 32 + x / 8];
            let tile = if control & 0x10 != 0 { n as int } else if n < 128 { 256 + n } else { n as int };
            &&& map_tile(control, n) == tile
            &&& background_pixel(vram, tiles, control, x, y) == shade(tiles[tile * 64 + (y % 8) * 8 + x % 8])
        }),
        shade(TilePixelValue::Zero) == ColoredPixel::White,
        shade(TilePixelValue::One) == ColoredPixel::LightGray,
        shade(TilePixelValue::Two) == ColoredPixel::DarkGray,
        shade(TilePixelValue::Three) == ColoredPixel::Black,
{
    assert(bit_of(control, 3) == (control & 0x08 != 0) && bit_of(control, 4) == (control & 0x10 != 0)) by (bit_vector);
}

} // verus!

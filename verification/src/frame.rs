//! The pictures the emulator hands out: the screen, the tile data and the
//! whole background, as rows of shades of grey.
use vstd::prelude::*;
use crate::alu::bit_of;
use crate::lcd::{LCDControl, control_bit};
use crate::ppu::{PPU, TilePixelValue, TILE_SET_SIZE, VRAM_SIZE};

verus! {

pub const SCREEN_WIDTH: u32 = 160;
pub const SCREEN_HEIGHT: u32 = 144;
pub const BACKGROUND_WIDTH: u32 = 256;
pub const BACKGROUND_HEIGHT: u32 = 256;
pub const TILEDATA_WIDTH: u32 = 128;
pub const TILEDATA_HEIGHT: u32 = 192;

/// The four shades of the screen.
#[derive(Clone, Copy, Debug, PartialEq, Eq, Structural)]
pub enum ColoredPixel {
    White,
    LightGray,
    DarkGray,
    Black,
}

/// A picture: `buffer[x + y * width]` is the pixel at column `x`, row `y`.
#[derive(Clone, Debug)]
pub struct GameBoyFrame {
    pub width: u32,
    pub height: u32,
    pub buffer: Vec<ColoredPixel>,
}

/// The shade of a colour number: 0 white to 3 black.
pub open spec fn shade(v: TilePixelValue) -> ColoredPixel {
    match v {
        TilePixelValue::Zero => ColoredPixel::White,
        TilePixelValue::One => ColoredPixel::LightGray,
        TilePixelValue::Two => ColoredPixel::DarkGray,
        TilePixelValue::Three => ColoredPixel::Black,
    }
}

pub fn color_of(v: TilePixelValue) -> (r: ColoredPixel)
    ensures
        r == shade(v),
{
    match v {
        TilePixelValue::Zero => ColoredPixel::White,
        TilePixelValue::One => ColoredPixel::LightGray,
        TilePixelValue::Two => ColoredPixel::DarkGray,
        TilePixelValue::Three => ColoredPixel::Black,
    }
}

/// The pixel at column `x`, row `y` of the tile data picture: the 384
/// tiles laid out 16 to a row.
pub open spec fn tiledata_pixel(tiles: Seq<TilePixelValue>, x: int, y: int) -> ColoredPixel {
    shade(tiles[((y / 8) * 16 + x / 8) * 64 + (y % 8) * 8 + x % 8])
}

/// The tile that entry `n` of a background map shows: tile `n` when LCDC
/// bit 4 is set, else tile 256 plus `n` read as a signed byte.
pub open spec fn map_tile(control: u8, n: u8) -> int {
    if bit_of(control, control_bit(LCDControl::BGandWindowTileSet)) {
        n as int
    } else if n < 128 {
        256 + n
    } else {
        n as int
    }
}

/// Where the background map starts in VRAM: 0x9C00 when LCDC bit 3 is set,
/// else 0x9800.
pub open spec fn map_base(control: u8) -> int {
    if bit_of(control, control_bit(LCDControl::BGTileMap)) {
        0x1C00
    } else {
        0x1800
    }
}

/// The pixel at column `x`, row `y` of the 256 by 256 background: the tile
/// that the map entry of its 8 by 8 square shows.
pub open spec fn background_pixel(vram: Seq<u8>, tiles: Seq<TilePixelValue>, control: u8, x: int, y: int) -> ColoredPixel {
    let n = vram[map_base(control) + (y / 8) * 32 + x / 8];
    shade(tiles[map_tile(control, n) * 64 + (y % 8) * 8 + x % 8])
}

/// Whether a frame is the picture of `width` by `height` pixels that
/// `pixel` describes.
pub open spec fn frame_is(f: GameBoyFrame, width: u32, height: u32, pixel: spec_fn(int, int) -> ColoredPixel) -> bool {
    &&& f.width == width
    &&& f.height == height
    &&& f.buffer@.len() == width * height
    &&& forall|x: int, y: int|
        0 <= x < width && 0 <= y < height ==> #[trigger] f.buffer@[x + y * width] == pixel(x, y)
}

/// The tile index of a background map entry.
fn tile_of_entry(control: u8, n: u8) -> (r: usize)
    ensures
        r == map_tile(control, n),
{
    if crate::alu::get_bit_val(4, control) {
        n as usize
    } else if n < 128 {
        256 + n as usize
    } else {
        n as usize
    }
}

impl PPU {
    /// The tile data as a 128 by 192 picture.
    pub fn tiledata(&self) -> (r: GameBoyFrame)
        requires
            self.wf(),
        ensures
            frame_is(r, TILEDATA_WIDTH, TILEDATA_HEIGHT, |x: int, y: int| tiledata_pixel(self.tile_set@, x, y)),
    {
        let mut buffer: Vec<ColoredPixel> = Vec::new();
        let mut y: usize = 0;
        while y < 192
            invariant
                self.wf(),
                y <= 192,
                buffer@.len() == y * 128,
                forall|i: int, j: int| 0 <= i < 128 && 0 <= j < y ==> #[trigger] buffer@[i + j * 128] == tiledata_pixel(self.tile_set@, i, j),
            decreases 192 - y,
        {
            let mut x: usize = 0;
            while x < 128
                invariant
                    self.wf(),
                    y < 192,
                    x <= 128,
                    buffer@.len() == y * 128 + x,
                    forall|i: int, j: int| 0 <= i < 128 && 0 <= j < y ==> #[trigger] buffer@[i + j * 128] == tiledata_pixel(self.tile_set@, i, j),
                    forall|i: int| 0 <= i < x ==> #[trigger] buffer@[i + y * 128] == tiledata_pixel(self.tile_set@, i, y as int),
                decreases 128 - x,
            {
                let index = ((y / 8) * 16 + x / 8) * 64 + (y % 8) * 8 + x % 8;
                assert(index < TILE_SET_SIZE);
                let p = color_of(self.tile_set[index]);
                buffer.push(p);
                x = x + 1;
            }
            y = y + 1;
        }
        GameBoyFrame { width: TILEDATA_WIDTH, height: TILEDATA_HEIGHT, buffer }
    }

    /// The top-left `width` by `height` pixels of the background that the
    /// control register `control` selects.
    pub fn background_area(&self, control: u8, width: u32, height: u32) -> (r: GameBoyFrame)
        requires
            self.wf(),
            width <= BACKGROUND_WIDTH,
            height <= BACKGROUND_HEIGHT,
        ensures
            frame_is(r, width, height, |x: int, y: int| background_pixel(self.vram@, self.tile_set@, control, x, y)),
    {
        let mut buffer: Vec<ColoredPixel> = Vec::new();
        let w = width as usize;
        let h = height as usize;
        let base: usize = if crate::alu::get_bit_val(3, control) { 0x1C00 } else { 0x1800 };
        let mut y: usize = 0;
        while y < h
            invariant
                self.wf(),
                w == width,
                h == height,
                w <= 256,
                h <= 256,
                base == map_base(control),
                y <= h,
                buffer@.len() == y * w,
                forall|i: int, j: int| 0 <= i < w && 0 <= j < y ==> #[trigger] buffer@[i + j * w] == background_pixel(self.vram@, self.tile_set@, control, i, j) && i + j * w < y * w,
            decreases h - y,
        {
            let mut x: usize = 0;
            while x < w
                invariant
                    self.wf(),
                    w == width,
                    h == height,
                    w <= 256,
                    h <= 256,
                    base == map_base(control),
                    y < h,
                    x <= w,
                    buffer@.len() == y * w + x,
                    forall|i: int, j: int| 0 <= i < w && 0 <= j < y ==> #[trigger] buffer@[i + j * w] == background_pixel(self.vram@, self.tile_set@, control, i, j) && i + j * w < y * w,
                    forall|i: int| 0 <= i < x ==> #[trigger] buffer@[i + y * w] == background_pixel(self.vram@, self.tile_set@, control, i, y as int),
                decreases w - x,
            {
                let entry = base + (y / 8) * 32 + x / 8;
                assert(entry < VRAM_SIZE);
                let n = self.vram[entry];
                let tile = tile_of_entry(control, n);
                let index = tile * 64 + (y % 8) * 8 + x % 8;
                assert(index < TILE_SET_SIZE);
                let p = color_of(self.tile_set[index]);
                let ghost prev = buffer@;
                buffer.push(p);
                proof {
                    assert forall|i: int, j: int| 0 <= i < w && 0 <= j < y implies #[trigger] buffer@[i + j * w]
                        == background_pixel(self.vram@, self.tile_set@, control, i, j) && i + j * w < y * w by {
                        assert(prev[i + j * w] == background_pixel(self.vram@, self.tile_set@, control, i, j));
                    }
                    assert forall|i: int| 0 <= i < x + 1 implies #[trigger] buffer@[i + y * w]
                        == background_pixel(self.vram@, self.tile_set@, control, i, y as int) by {
                        if i < x {
                            assert(prev[i + y * w] == background_pixel(self.vram@, self.tile_set@, control, i, y as int));
                        }
                    }
                }
                x = x + 1;
            }
            proof {
                assert((y + 1) * w == y * w + w) by (nonlinear_arith);
                assert forall|i: int, j: int| 0 <= i < w && 0 <= j < y + 1 implies #[trigger] buffer@[i + j * w]
                    == background_pixel(self.vram@, self.tile_set@, control, i, j) && i + j * w < (y + 1) * w by {
                    if j == y {
                        assert(buffer@[i + y * w] == background_pixel(self.vram@, self.tile_set@, control, i, y as int));
                    }
                }
            }
            y = y + 1;
        }
        proof {
            assert(h * w == w * h) by (nonlinear_arith);
        }
        GameBoyFrame { width, height, buffer }
    }
}

} // verus!

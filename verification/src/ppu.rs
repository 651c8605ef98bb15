//! Video memory, object attribute memory and the decoded tile set.
use vstd::prelude::*;
use crate::alu::{bit_of, get_bit_val};

verus! {

pub const VRAM_BEGIN: u16 = 0x8000;
pub const VRAM_END: u16 = 0x9FFF;
pub const VRAM_SIZE: usize = 0x2000;
pub const OAM_BEGIN: u16 = 0xFE00;
pub const OAM_END: u16 = 0xFE9F;
pub const OAM_SIZE: usize = 0xA0;
pub const BGMAP0_ADDRESS: u16 = 0x9800;
pub const BGMAP1_ADDRESS: u16 = 0x9C00;
/// The tile data area holds 384 tiles of 16 bytes.
pub const TILE_DATA_SIZE: usize = 0x1800;
pub const TILE_COUNT: usize = 384;
/// 384 tiles of 8 by 8 pixels.
pub const TILE_SET_SIZE: usize = 24576;

/// The colour number of a tile pixel.
#[derive(Clone, Copy, Debug, PartialEq, Eq, Structural)]
pub enum TilePixelValue {
    Zero,
    One,
    Two,
    Three,
}

/// Pixel `col` (0 is the leftmost) of a tile row encoded by the bytes `lo`
/// and `hi`: bit 7 - col of `lo` gives the low bit of the colour number and
/// the same bit of `hi` the high bit.
pub open spec fn pixel_value(lo: u8, hi: u8, col: int) -> TilePixelValue {
    let l = bit_of(lo, (7 - col) as u8);
    let h = bit_of(hi, (7 - col) as u8);
    if l && h {
        TilePixelValue::Three
    } else if h {
        TilePixelValue::Two
    } else if l {
        TilePixelValue::One
    } else {
        TilePixelValue::Zero
    }
}

/// Entry `i` of the tile set decoded from `vram`: tile `i / 64`, row
/// `(i % 64) / 8`, column `i % 8`. Row `i / 8` of the tile data is stored in
/// the two bytes at `2 * (i / 8)`.
pub open spec fn tile_pixel(vram: Seq<u8>, i: int) -> TilePixelValue {
    pixel_value(vram[2 * (i / 8)], vram[2 * (i / 8) + 1], i % 8)
}

/// The tile set that `vram` encodes.
pub open spec fn tiles_of(vram: Seq<u8>) -> Seq<TilePixelValue> {
    Seq::new(TILE_SET_SIZE as nat, |i: int| tile_pixel(vram, i))
}

/// The text that `pretty_hex::pretty_hex` makes of `bytes`: a header with
/// the length, then rows of sixteen bytes with their offset, in hex, and
/// their ASCII column.
pub uninterp spec fn hex_dump_text(bytes: Seq<u8>) -> Seq<char>;

/// Calls `pretty_hex::pretty_hex`. Claimed of it: the text depends on the
/// bytes alone (its layout is left to that crate and not stated here).
#[verifier::external_body]
pub(crate) fn hex_dump(bytes: &Vec<u8>) -> (r: String)
    ensures
        r@ == hex_dump_text(bytes@),
{
    pretty_hex::pretty_hex(bytes)
}

pub struct PPU {
    pub vram: Vec<u8>,
    pub oam: Vec<u8>,
    /// The tile set decoded from the tile data in VRAM, kept up to date on
    /// every write.
    pub tile_set: Vec<TilePixelValue>,
}

proof fn lemma_zero_bits()
    ensures
        forall|k: u8| #![auto] !bit_of(0u8, k),
{
    assert(forall|k: u8| #![auto] !((0u8 >> k) & 1 == 1)) by (bit_vector);
}

impl PPU {
    /// The sizes of the memories, and a tile set that agrees with VRAM.
    pub open spec fn wf(&self) -> bool {
        &&& self.vram@.len() == VRAM_SIZE
        &&& self.oam@.len() == OAM_SIZE
        &&& self.tile_set@ == tiles_of(self.vram@)
    }

    pub fn new() -> (r: PPU)
        ensures
            r.wf(),
            r.vram@ == Seq::new(VRAM_SIZE as nat, |i: int| 0u8),
            r.oam@ == Seq::new(OAM_SIZE as nat, |i: int| 0u8),
    {
        let vram = vec![0u8; VRAM_SIZE];
        let oam = vec![0u8; OAM_SIZE];
        let tile_set = vec![TilePixelValue::Zero; TILE_SET_SIZE];
        proof {
            lemma_zero_bits();
            assert(tile_set@ =~= tiles_of(vram@));
        }
        PPU { vram, oam, tile_set }
    }

    /// A title line with the address range of VRAM, then its hex dump.
    pub fn vram_dump(&self) -> (r: String)
        ensures
            r@ == "PPU 8000-9fff\n"@ + hex_dump_text(self.vram@),
    {
        let dump = hex_dump(&self.vram);
        String::from_str("PPU 8000-9fff\n").concat(dump.as_str())
    }

    pub fn read_vram(&self, address: u16) -> (r: u8)
        requires
            self.wf(),
            VRAM_BEGIN <= address <= VRAM_END,
        ensures
            r == self.vram@[address - VRAM_BEGIN],
    {
        self.vram[(address - VRAM_BEGIN) as usize]
    }

    /// Reads of the object attribute memory read VRAM at the same offset.
    pub fn read_oam(&self, address: u16) -> (r: u8)
        requires
            self.wf(),
            OAM_BEGIN <= address <= OAM_END,
        ensures
            r == self.vram@[address - OAM_BEGIN],
    {
        self.vram[(address - OAM_BEGIN) as usize]
    }

    pub fn write_oam(&mut self, address: u16, value: u8)
        requires
            old(self).wf(),
            OAM_BEGIN <= address <= OAM_END,
        ensures
            final(self).wf(),
            final(self).vram@ == old(self).vram@,
            final(self).oam@ == old(self).oam@.update(address - OAM_BEGIN, value),
    {
        self.oam.set((address - OAM_BEGIN) as usize, value);
    }

    /// Writes VRAM and, within the tile data, decodes again the tile row
    /// that holds the written byte.
    pub fn write_vram(&mut self, address: u16, value: u8)
        requires
            old(self).wf(),
            VRAM_BEGIN <= address <= VRAM_END,
        ensures
            final(self).wf(),
            final(self).oam@ == old(self).oam@,
            final(self).vram@ == old(self).vram@.update(address - VRAM_BEGIN, value),
    {
        let index: usize = (address - VRAM_BEGIN) as usize;
        self.vram.set(index, value);
        // Past 0x1800 we are not writing to the tile set storage.
        if index >= TILE_DATA_SIZE {
            proof {
                assert forall|j: int| 0 <= j < TILE_SET_SIZE implies self.tile_set@[j] == tile_pixel(
                    self.vram@,
                    j,
                ) by {
                    assert(tile_pixel(old(self).vram@, j) == old(self).tile_set@[j]);
                }
                assert(self.tile_set@ =~= tiles_of(self.vram@));
            }
            return;
        }
        // A tile row is encoded in two bytes, the first at an even address.
        let normalized_index: usize = index / 2 * 2;
        let byte1 = self.vram[normalized_index];
        let byte2 = self.vram[normalized_index + 1];
        // A tile is 16 bytes; every two bytes is a new row.
        let tile_index: usize = index / 16;
        let row_index: usize = (index % 16) / 2;
        let base: usize = tile_index * 64 + row_index * 8;
        assert(base == 8 * (index / 2));
        let ghost vram = self.vram@;
        proof {
            assert forall|j: int|
                0 <= j < TILE_SET_SIZE && !(base <= j < base + 8) implies self.tile_set@[j]
                == tile_pixel(vram, j) by {
                assert(tiles_of(old(self).vram@)[j] == tile_pixel(old(self).vram@, j));
                assert(j / 8 != index / 2);
                assert(2 * (j / 8) != index && 2 * (j / 8) + 1 != index);
            }
        }
        let mut pixel_index: usize = 0;
        while pixel_index < 8
            invariant
                0 <= pixel_index <= 8,
                index < TILE_DATA_SIZE,
                base == 8 * (index / 2),
                normalized_index == 2 * (index / 2),
                self.vram@ == vram,
                vram.len() == VRAM_SIZE,
                byte1 == vram[normalized_index as int],
                byte2 == vram[normalized_index + 1],
                vram == old(self).vram@.update(index as int, value),
                self.oam@ == old(self).oam@,
                self.tile_set@.len() == TILE_SET_SIZE,
                forall|j: int|
                    0 <= j < TILE_SET_SIZE && !(base + pixel_index <= j < base + 8) ==> self.tile_set@[j]
                        == tile_pixel(vram, j),
                forall|j: int|
                    0 <= j < TILE_SET_SIZE && base + pixel_index <= j < base + 8 ==> self.tile_set@[j]
                        == old(self).tile_set@[j],
                old(self).tile_set@ == tiles_of(old(self).vram@),
            decreases 8 - pixel_index,
        {
            // The pixel's bit is counted from the left: pixel 0 is bit 7.
            let lsb = get_bit_val(7 - pixel_index, byte1);
            let msb = get_bit_val(7 - pixel_index, byte2);
            let value = if lsb && msb {
                TilePixelValue::Three
            } else if msb {
                TilePixelValue::Two
            } else if lsb {
                TilePixelValue::One
            } else {
                TilePixelValue::Zero
            };
            assert((base + pixel_index) / 8 == index / 2 && (base + pixel_index) % 8 == pixel_index);
            self.tile_set.set(base + pixel_index, value);
            pixel_index = pixel_index + 1;
        }
        proof {
            assert(self.tile_set@ =~= tiles_of(self.vram@));
        }
    }
}

} // verus!

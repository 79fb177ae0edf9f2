//! The PPU's 15-bit internal VRAM address, laid out `yyy NN YYYYY XXXXX`:
//! fine Y scroll, nametable select, coarse Y scroll, coarse X scroll.

use vstd::prelude::*;

use crate::types::lemma_and_le_mask16;

verus! {

/// A current or temporary VRAM address (`v` or `t`).
#[derive(Debug, Copy, Clone, PartialEq, Eq, Structural)]
pub struct VRAMAddress(pub u16);

impl VRAMAddress {
    pub fn new(value: u16) -> (r: VRAMAddress)
        ensures
            r.0 == value,
    {
        VRAMAddress(value)
    }

    pub fn value(&self) -> (r: u16)
        ensures
            r == self.0,
    {
        self.0
    }

    /// Coarse X scroll: the low five bits.
    pub fn coarse_x_scroll(&self) -> (r: u16)
        ensures
            r == self.0 & 0x1F,
            r <= 0x1F,
    {
        proof {
            lemma_and_le_mask16(self.0, 0x1F);
        }
        self.0 & 0x1F
    }

    /// Coarse Y scroll: bits 5 through 9.
    pub fn coarse_y_scroll(&self) -> (r: u16)
        ensures
            r == (self.0 >> 5) & 0x1F,
            r <= 0x1F,
    {
        proof {
            lemma_and_le_mask16(self.0 >> 5, 0x1F);
        }
        (self.0 >> 5) & 0x1F
    }

    /// Fine Y scroll: bits 12 through 14.
    pub fn fine_y_scroll(&self) -> (r: u8)
        ensures
            r == ((self.0 >> 12) & 0x07) as u8,
            r <= 7,
    {
        proof {
            lemma_and_le_mask16(self.0 >> 12, 0x07);
        }
        ((self.0 >> 12) & 0x07) as u8
    }

    /// Offset of the nametable entry this address selects: the low 12 bits.
    pub fn name_table_address_index(&self) -> (r: u16)
        ensures
            r == self.0 & 0x0FFF,
    {
        self.0 & 0x0FFF
    }

    /// Offset of the attribute entry: nametable select, then the high three
    /// bits of coarse Y and of coarse X.
    pub fn attribute_address_index(&self) -> (r: u16)
        ensures
            r == ((self.0 & 0x0C00) | ((self.0 >> 4) & 0x38) | ((self.0 >> 2) & 0x07)),
    {
        (self.0 & 0x0C00) | ((self.0 >> 4) & 0x38) | ((self.0 >> 2) & 0x07)
    }
}

} // verus!

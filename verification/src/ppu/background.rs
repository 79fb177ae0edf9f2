//! Background pipeline latches: the pattern and attribute shift registers
//! and the freshly fetched tile data they are reloaded from.

use vstd::prelude::*;

use crate::types::{lemma_and_le_mask16, lemma_and_le_mask8, lemma_two_bits16};

verus! {

/// First nametable byte address.
pub const NAME_TABLE_FIRST: u16 = 0x2000;

/// First attribute table byte address.
pub const ATTRIBUTE_TABLE_FIRST: u16 = 0x23C0;

/// Height of a background tile in pixels.
pub const TILE_HEIGHT: u8 = 8;

/// A background pixel candidate: whether the pattern bits were non-zero,
/// and the palette color read for them.
#[derive(Debug, Copy, Clone, PartialEq, Eq, Structural)]
pub struct Pixel {
    pub enabled: bool,
    pub color: u16,
}

impl Pixel {
    /// The transparent pixel.
    pub fn zero() -> (r: Pixel)
        ensures
            !r.enabled,
            r.color == 0,
    {
        Pixel { enabled: false, color: 0x00 }
    }
}

/// The two 16-bit pattern shift registers and the attribute shift registers
/// with their 1-bit latches.
#[derive(Debug, Copy, Clone, PartialEq, Eq, Structural)]
pub struct Tile {
    pub pattern: TilePattern,
    pub attr: TileAttribute,
}

/// A fetched pattern pair before it is loaded into the shifters.
#[derive(Debug, Copy, Clone, PartialEq, Eq, Structural)]
pub struct TilePattern {
    pub low: u16,
    pub high: u16,
}

#[derive(Debug, Copy, Clone, PartialEq, Eq, Structural)]
pub struct TileAttribute {
    pub low: u8,
    pub high: u8,
    /// One quadrant bit of the attribute entry, fed into `low` on shifts.
    pub low_latch: bool,
    pub high_latch: bool,
}

/// Bit `n` of `v`, as 0 or 1.
pub open spec fn spec_nth16(v: u16, n: u8) -> u16 {
    v.wrapping_shr(n as u32) & 1
}

/// Bit `n` of `v`, as 0 or 1.
pub fn nth16(v: u16, n: u8) -> (r: u16)
    ensures
        r == spec_nth16(v, n),
        r <= 1,
{
    let w = v.wrapping_shr(n as u32);
    proof {
        lemma_and_le_mask16(w, 1);
    }
    w & 1
}

/// Bit `n` of `v`, as 0 or 1.
pub open spec fn spec_nth8(v: u8, n: u8) -> u8 {
    v.wrapping_shr(n as u32) & 1
}

/// Bit `n` of `v`, as 0 or 1.
pub fn nth8(v: u8, n: u8) -> (r: u8)
    ensures
        r == spec_nth8(v, n),
        r <= 1,
{
    let w = v.wrapping_shr(n as u32);
    proof {
        lemma_and_le_mask8(w, 1);
    }
    w & 1
}

/// A tile's shift registers advanced one bit, the attribute latches fed in.
pub open spec fn spec_shifted(t: Tile) -> Tile {
    Tile {
        pattern: TilePattern { low: t.pattern.low << 1, high: t.pattern.high << 1 },
        attr: TileAttribute {
            low: (t.attr.low << 1) | (if t.attr.low_latch {
                1u8
            } else {
                0u8
            }),
            high: (t.attr.high << 1) | (if t.attr.high_latch {
                1u8
            } else {
                0u8
            }),
            low_latch: t.attr.low_latch,
            high_latch: t.attr.high_latch,
        },
    }
}

/// A tile after its reload: the fetched pattern pair enters the low bytes
/// of the shifters and the attribute quadrant bits are latched.
pub open spec fn spec_reloaded(t: Tile, ptn: TilePattern, attr: u8) -> Tile {
    Tile {
        pattern: TilePattern {
            low: (t.pattern.low & 0xFF00) | (ptn.low & 0xFF),
            high: (t.pattern.high & 0xFF00) | (ptn.high & 0xFF),
        },
        attr: TileAttribute {
            low: t.attr.low,
            high: t.attr.high,
            low_latch: attr & 1 == 1,
            high_latch: attr & 2 == 2,
        },
    }
}

/// The 2-bit pattern pixel a tile yields at fine-X offset `x`.
pub open spec fn spec_tile_pixel(t: Tile, x: u8) -> u16 {
    let p = (15 - x % 16) as u8;
    (spec_nth16(t.pattern.high, p) << 1) | spec_nth16(t.pattern.low, p)
}

/// The 2-bit palette select a tile yields at fine-X offset `x`.
pub open spec fn spec_tile_pallete(t: Tile, x: u8) -> u16 {
    let p = (15 - x % 16) as u8;
    ((spec_nth8(t.attr.high, p) as u16) << 1) | (spec_nth8(t.attr.low, p) as u16)
}

impl Tile {
    /// The 2-bit pattern pixel and 2-bit palette select at fine-X offset
    /// `x`, sampled from bit 15 - x of each shift register.
    pub fn pixel_pallete(&self, x: u8) -> (r: (u16, u16))
        ensures
            r.0 == spec_tile_pixel(*self, x),
            r.1 == spec_tile_pallete(*self, x),
            r.0 <= 3,
            r.1 <= 3,
    {
        let p = (15 - x % 16) as u8;
        let ph = nth16(self.pattern.high, p);
        let pl = nth16(self.pattern.low, p);
        let pixel = (ph << 1) | pl;
        let ah = nth8(self.attr.high, p) as u16;
        let al = nth8(self.attr.low, p) as u16;
        let attr = (ah << 1) | al;
        proof {
            lemma_two_bits16(ph, pl);
            lemma_two_bits16(ah, al);
        }
        (pixel, attr)
    }

    /// Advance every shift register one bit; the attribute registers shift
    /// their latches in.
    pub fn shift(&mut self)
        ensures
            *final(self) == spec_shifted(*old(self)),
    {
        self.pattern.low = self.pattern.low << 1;
        self.pattern.high = self.pattern.high << 1;
        self.attr.low = (self.attr.low << 1) | (if self.attr.low_latch {
            1u8
        } else {
            0u8
        });
        self.attr.high = (self.attr.high << 1) | (if self.attr.high_latch {
            1u8
        } else {
            0u8
        });
    }

    /// Load the fetched pattern pair into the low bytes of the shifters and
    /// latch the attribute quadrant bits.
    pub fn reload(&mut self, next_ptn: TilePattern, next_attr: u8)
        ensures
            *final(self) == spec_reloaded(*old(self), next_ptn, next_attr),
    {
        self.pattern.low = (self.pattern.low & 0xFF00) | (next_ptn.low & 0xFF);
        self.pattern.high = (self.pattern.high & 0xFF00) | (next_ptn.high & 0xFF);
        self.attr.low_latch = next_attr & 1 == 1;
        self.attr.high_latch = next_attr & 2 == 2;
    }
}

} // verus!

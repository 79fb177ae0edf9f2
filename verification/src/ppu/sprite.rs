//! Sprite data: OAM entry layout, per-sprite attribute bits, and the pixel
//! candidate the sprite pipeline produces.

use vstd::prelude::*;

use crate::types::lemma_and_le_mask8;

verus! {

/// Number of sprites in primary OAM.
pub const SPRITE_COUNT: usize = 64;

/// At most eight sprites are fetched for a line.
pub const SPRITE_LIMIT: usize = 8;

/// Primary OAM size in bytes: four per sprite.
pub const OAM_SIZE: usize = 4 * SPRITE_COUNT;

/// Flip the sprite vertically.
pub const SPR_FLIP_VERTICALLY: u8 = 0x80;

/// Flip the sprite horizontally.
pub const SPR_FLIP_HORIZONTALLY: u8 = 0x40;

/// Priority: the sprite is drawn behind the background.
pub const SPR_BEHIND_BACKGROUND: u8 = 0x20;

/// A sprite pixel candidate.
#[derive(Debug, Copy, Clone, PartialEq, Eq, Structural)]
pub struct Pixel {
    pub enabled: bool,
    pub color: u16,
    pub behide_background: bool,
}

impl Pixel {
    /// The transparent sprite pixel.
    pub fn zero() -> (r: Pixel)
        ensures
            !r.enabled,
            r.color == 0,
            r.behide_background,
    {
        Pixel { enabled: false, color: 0x00, behide_background: true }
    }
}

/// Per-sprite attribute byte: palette bits, priority and the two flips.
#[derive(Debug, Copy, Clone, PartialEq, Eq, Structural)]
pub struct SpriteAttribute(pub u8);

impl SpriteAttribute {
    pub fn new(value: u8) -> (r: SpriteAttribute)
        ensures
            r.0 == value,
    {
        SpriteAttribute(value)
    }

    /// The sprite's 2-bit palette select.
    pub fn pallete(&self) -> (r: u8)
        ensures
            r == self.0 & 0x03,
            r <= 3,
    {
        proof {
            lemma_and_le_mask8(self.0, 0x03);
        }
        self.0 & 0x03
    }

    pub fn is_set(&self, mask: u8) -> (r: bool)
        ensures
            r == (self.0 & mask == mask),
    {
        self.0 & mask == mask
    }
}

/// One sprite as fetched from secondary OAM.
#[derive(Debug, Copy, Clone, PartialEq, Eq, Structural)]
pub struct Sprite {
    /// Y position of the top edge.
    pub y: u8,
    /// Tile index number.
    pub tile_index: u8,
    /// Attributes.
    pub attr: SpriteAttribute,
    /// X position of the left edge.
    pub x: u8,
}

impl Sprite {
    pub fn zero() -> (r: Sprite)
        ensures
            r.y == 0 && r.tile_index == 0 && r.attr.0 == 0 && r.x == 0,
    {
        Sprite { y: 0, tile_index: 0, attr: SpriteAttribute(0), x: 0 }
    }

    /// A sprite slot is valid unless all four of its bytes are 0xFF.
    pub fn valid(&self) -> (r: bool)
        ensures
            r == !(self.x == 0xFF && self.y == 0xFF && self.tile_index == 0xFF && self.attr.0
                == 0xFF),
    {
        !(self.x == 0xFF && self.y == 0xFF && self.tile_index == 0xFF && self.attr.0 == 0xFF)
    }

    /// The pattern row of this sprite on scanline `line`, honoring the
    /// vertical flip over a sprite of height `sprite_height`.
    pub fn row(&self, line: u16, sprite_height: u8) -> (r: u16)
        ensures
            ({
                let base = line.wrapping_sub(self.y as u16).wrapping_sub(1);
                if self.attr.0 & SPR_FLIP_VERTICALLY == SPR_FLIP_VERTICALLY {
                    r == (sprite_height as u16).wrapping_sub(1).wrapping_sub(base)
                } else {
                    r == base
                }
            }),
    {
        let base = line.wrapping_sub(self.y as u16).wrapping_sub(1);
        if self.attr.is_set(SPR_FLIP_VERTICALLY) {
            (sprite_height as u16).wrapping_sub(1).wrapping_sub(base)
        } else {
            base
        }
    }

    /// The pattern column of this sprite at screen column `x`, honoring the
    /// horizontal flip.
    pub fn col(&self, x: u16) -> (r: u8)
        ensures
            ({
                let base = 7u16.wrapping_sub(x.wrapping_sub(self.x as u16));
                if self.attr.0 & SPR_FLIP_HORIZONTALLY == SPR_FLIP_HORIZONTALLY {
                    r == (7u16.wrapping_sub(base) % 0x100) as u8
                } else {
                    r == (base % 0x100) as u8
                }
            }),
    {
        let base = 7u16.wrapping_sub(x.wrapping_sub(self.x as u16));
        if self.attr.is_set(SPR_FLIP_HORIZONTALLY) {
            (7u16.wrapping_sub(base) % 0x100) as u8
        } else {
            (base % 0x100) as u8
        }
    }
}

} // verus!

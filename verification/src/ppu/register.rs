//! The PPU register file: PPUCTRL, PPUMASK, PPUSTATUS, OAMADDR, the $2007
//! read buffer, and the internal scroll state `v`, `t`, fine X and the
//! write toggle `w`.

use vstd::prelude::*;

use super::vram_address::VRAMAddress;
use crate::types::{lemma_and_le_mask16, lemma_and_le_mask8};

verus! {

/// PPUCTRL: NMI enable at V-blank.
pub const CTRL_NMI: u8 = 0x80;

/// PPUCTRL: 8x16 sprite size.
pub const CTRL_SPRITE_SIZE: u8 = 0x20;

/// PPUCTRL: background pattern table at 0x1000.
pub const CTRL_BG_TABLE_ADDR: u8 = 0x10;

/// PPUCTRL: sprite pattern table at 0x1000 for 8x8 sprites.
pub const CTRL_SPRITE_TABLE_ADDR: u8 = 0x08;

/// PPUCTRL: increment the VRAM address by 32 instead of 1.
pub const CTRL_VRAM_ADDR_INCR: u8 = 0x04;

/// PPUMASK: show sprites.
pub const MASK_SPRITE: u8 = 0x10;

/// PPUMASK: show background.
pub const MASK_BACKGROUND: u8 = 0x08;

/// PPUMASK: show sprites in the leftmost eight columns.
pub const MASK_SPRITE_LEFT: u8 = 0x04;

/// PPUMASK: show the background in the leftmost eight columns.
pub const MASK_BACKGROUND_LEFT: u8 = 0x02;

/// PPUSTATUS: in V-blank.
pub const STATUS_VBLANK: u8 = 0x80;

/// PPUSTATUS: sprite 0 hit.
pub const STATUS_SPRITE_ZERO_HIT: u8 = 0x40;

/// PPUSTATUS: sprite overflow.
pub const STATUS_SPRITE_OVERFLOW: u8 = 0x20;

/// PPUCTRL latch.
#[derive(Debug, Copy, Clone, PartialEq, Eq, Structural)]
pub struct Controller(pub u8);

impl Controller {
    pub fn is_set(&self, mask: u8) -> (r: bool)
        ensures
            r == (self.0 & mask == mask),
    {
        self.0 & mask == mask
    }

    /// The two nametable-select bits.
    pub fn name_table_select(&self) -> (r: u16)
        ensures
            r == (self.0 & 0x03) as u16,
            r <= 3,
    {
        proof {
            lemma_and_le_mask8(self.0, 0x03);
        }
        (self.0 & 0x03) as u16
    }

    /// Base address of the selected nametable.
    pub fn base_name_table_addr(&self) -> (r: u16)
        ensures
            r == 0x2000 + ((self.0 & 0x03) as u16) * 0x400,
    {
        proof {
            lemma_and_le_mask8(self.0, 0x03);
        }
        0x2000 + ((self.0 & 0x03) as u16) * 0x400
    }

    /// Base address of the 8x8 sprite pattern table.
    pub fn base_sprite_table_addr(&self) -> (r: u16)
        ensures
            r == (if self.0 & CTRL_SPRITE_TABLE_ADDR == CTRL_SPRITE_TABLE_ADDR {
                0x1000u16
            } else {
                0x0000u16
            }),
    {
        if self.is_set(CTRL_SPRITE_TABLE_ADDR) {
            0x1000
        } else {
            0x0000
        }
    }

    /// Whether sprites are 8x16 pixels.
    pub fn sprite_8x16_pixels(&self) -> (r: bool)
        ensures
            r == (self.0 & CTRL_SPRITE_SIZE == CTRL_SPRITE_SIZE),
    {
        self.is_set(CTRL_SPRITE_SIZE)
    }

    /// The $2007 address increment: 32 down a column, or 1 across.
    pub fn vram_increment(&self) -> (r: u16)
        ensures
            r == spec_vram_increment(*self),
    {
        if self.is_set(CTRL_VRAM_ADDR_INCR) {
            32
        } else {
            1
        }
    }
}

/// The $2007 address increment selected by PPUCTRL bit 2.
pub open spec fn spec_vram_increment(c: Controller) -> u16 {
    if c.0 & CTRL_VRAM_ADDR_INCR == CTRL_VRAM_ADDR_INCR {
        32
    } else {
        1
    }
}

/// PPUMASK latch.
#[derive(Debug, Copy, Clone, PartialEq, Eq, Structural)]
pub struct Mask(pub u8);

impl Mask {
    pub fn new(value: u8) -> (r: Mask)
        ensures
            r.0 == value,
    {
        Mask(value)
    }

    pub fn is_set(&self, mask: u8) -> (r: bool)
        ensures
            r == (self.0 & mask == mask),
    {
        self.0 & mask == mask
    }
}

/// PPUSTATUS.
#[derive(Debug, Copy, Clone, PartialEq, Eq, Structural)]
pub struct Status(pub u8);

impl Status {
    pub fn is_set(&self, mask: u8) -> (r: bool)
        ensures
            r == (self.0 & mask == mask),
    {
        self.0 & mask == mask
    }

    pub fn set(&mut self, mask: u8)
        ensures
            final(self).0 == old(self).0 | mask,
    {
        self.0 = self.0 | mask;
    }

    pub fn unset(&mut self, mask: u8)
        ensures
            final(self).0 == old(self).0 & !mask,
    {
        self.0 = self.0 & !mask;
    }
}

/// The register file.
#[derive(Debug, Copy, Clone, PartialEq, Eq, Structural)]
pub struct Register {
    /// PPUCTRL.
    pub controller: Controller,
    /// PPUMASK.
    pub mask: Mask,
    /// PPUSTATUS.
    pub status: Status,
    /// The $2007 delayed-read buffer.
    pub data: u8,
    /// OAMADDR.
    pub object_attribute_memory_address: u8,
    /// Current VRAM address.
    pub v: VRAMAddress,
    /// Temporary VRAM address.
    pub t: VRAMAddress,
    /// Fine X scroll (3 bits).
    pub fine_x: u8,
    /// The shared $2005/$2006 write toggle `w`.
    pub write_toggle: bool,
}

/// `reg` after a RESET: control, mask, status and the read buffer cleared.
pub open spec fn spec_reg_reset(reg: Register) -> Register {
    Register {
        controller: Controller(0),
        mask: Mask(0),
        status: Status(0),
        data: 0,
        ..reg
    }
}

/// `reg` after a $2000 write: the control latch and the nametable bits of `t`.
pub open spec fn spec_write_controller(reg: Register, value: u8) -> Register {
    Register {
        controller: Controller(value),
        t: VRAMAddress((reg.t.0 & !0x0C00) | (((value & 0x03) as u16) << 10)),
        ..reg
    }
}

/// `reg` after a $2002 read: V-blank cleared and `w` reset.
pub open spec fn spec_read_status(reg: Register) -> Register {
    Register { status: Status(reg.status.0 & !STATUS_VBLANK), write_toggle: false, ..reg }
}

/// `reg` after a $2005 write: coarse/fine X on the first write, coarse/fine
/// Y on the second, toggling `w`.
pub open spec fn spec_write_scroll(reg: Register, p: u8) -> Register {
    if !reg.write_toggle {
        Register {
            t: VRAMAddress((reg.t.0 & !0x001F) | (((p & 0xF8) as u16) >> 3)),
            fine_x: p & 0x07,
            write_toggle: true,
            ..reg
        }
    } else {
        Register {
            t: VRAMAddress(
                (reg.t.0 & !0x73E0) | (((p & 0x07) as u16) << 12) | (((p & 0xF8) as u16) << 2),
            ),
            write_toggle: false,
            ..reg
        }
    }
}

/// `reg` after a $2006 write: the high six bits of `t` on the first write
/// (bit 14 cleared), the low byte and the `t` to `v` copy on the second.
pub open spec fn spec_write_vram_address(reg: Register, d: u8) -> Register {
    if !reg.write_toggle {
        Register {
            t: VRAMAddress((reg.t.0 & !0x7F00) | (((d & 0x3F) as u16) << 8)),
            write_toggle: true,
            ..reg
        }
    } else {
        let t1 = (reg.t.0 & !0x00FF) | (d as u16);
        Register { t: VRAMAddress(t1), v: VRAMAddress(t1), write_toggle: false, ..reg }
    }
}

/// `reg` after the $2007 address increment.
pub open spec fn spec_incr_v(reg: Register) -> Register {
    Register {
        v: VRAMAddress(reg.v.0.wrapping_add(spec_vram_increment(reg.controller))),
        ..reg
    }
}

/// `v` after the coarse-X increment: wraps at 31 and toggles the horizontal
/// nametable bit.
pub open spec fn spec_incr_coarse_x(v: u16) -> u16 {
    if v & 0x1F == 0x1F {
        (v & !0x1F) ^ 0x0400
    } else {
        v.wrapping_add(1)
    }
}

/// `v` after the Y increment at dot 256: fine Y then coarse Y, with the
/// 29-wrap that toggles the vertical nametable and the 31-wrap that does not.
pub open spec fn spec_incr_y(v: u16) -> u16 {
    if (v >> 12) & 0x07 < 7 {
        v.wrapping_add(0x1000)
    } else {
        let v1 = v & !0x7000;
        let y = (v1 >> 5) & 0x1F;
        if y == 29 {
            ((v1 ^ 0x0800) & !0x03E0)
        } else if y == 31 {
            (v1 & !0x03E0)
        } else {
            (v1 & !0x03E0) | ((y + 1) as u16) << 5
        }
    }
}

/// `v` after copying the horizontal bits from `t` at dot 257.
pub open spec fn spec_copy_x(v: u16, t: u16) -> u16 {
    (v & !0x041F) | (t & 0x041F)
}

/// `v` after copying the vertical bits from `t` on the pre-render line.
pub open spec fn spec_copy_y(v: u16, t: u16) -> u16 {
    (v & !0x7BE0) | (t & 0x7BE0)
}

impl Register {
    pub fn reset(&mut self)
        ensures
            *final(self) == spec_reg_reset(*old(self)),
    {
        self.controller = Controller(0);
        self.mask = Mask(0);
        self.status = Status(0);
        self.data = 0x00;
    }

    /// Sprite height in pixels: 16 when PPUCTRL selects 8x16 sprites.
    pub fn sprite_size(&self) -> (r: u8)
        ensures
            r == (if self.controller.0 & CTRL_SPRITE_SIZE == CTRL_SPRITE_SIZE {
                16u8
            } else {
                8u8
            }),
    {
        if self.controller.is_set(CTRL_SPRITE_SIZE) {
            16
        } else {
            8
        }
    }

    /// Rendering is enabled when either layer is shown.
    pub fn rendering_enabled(&self) -> (r: bool)
        ensures
            r == spec_rendering_enabled(*self),
    {
        self.mask.is_set(MASK_SPRITE) || self.mask.is_set(MASK_BACKGROUND)
    }

    /// The background contributes at column `x`: it is shown, and not
    /// blanked in the leftmost eight columns.
    pub fn is_enabled_background(&self, x: u16) -> (r: bool)
        ensures
            r == (self.mask.0 & MASK_BACKGROUND == MASK_BACKGROUND && !(x < 8 && self.mask.0
                & MASK_BACKGROUND_LEFT != MASK_BACKGROUND_LEFT)),
    {
        self.mask.is_set(MASK_BACKGROUND) && !(x < 8 && !self.mask.is_set(MASK_BACKGROUND_LEFT))
    }

    /// Sprites contribute at column `x`: they are shown, and not blanked in
    /// the leftmost eight columns.
    pub fn is_enabled_sprite(&self, x: i32) -> (r: bool)
        ensures
            r == (self.mask.0 & MASK_SPRITE == MASK_SPRITE && !(x < 8 && self.mask.0
                & MASK_SPRITE_LEFT != MASK_SPRITE_LEFT)),
    {
        self.mask.is_set(MASK_SPRITE) && !(x < 8 && !self.mask.is_set(MASK_SPRITE_LEFT))
    }

    /// Advance `v` after a $2007 access.
    pub fn incr_v(&mut self)
        ensures
            *final(self) == spec_incr_v(*old(self)),
    {
        let incr = self.controller.vram_increment();
        self.v = VRAMAddress(self.v.0.wrapping_add(incr));
    }

    /// $2000 write: latch PPUCTRL and set the nametable bits of `t`.
    pub fn write_controller(&mut self, value: u8)
        ensures
            *final(self) == spec_write_controller(*old(self), value),
    {
        self.controller = Controller(value);
        self.t = VRAMAddress((self.t.0 & !0x0C00) | (((value & 0x03) as u16) << 10));
    }

    /// $2002 read: returns the status bits; clears V-blank and resets `w`.
    pub fn read_status(&mut self) -> (r: u8)
        ensures
            r == old(self).status.0,
            *final(self) == spec_read_status(*old(self)),
    {
        let s = self.status.0;
        self.status.unset(STATUS_VBLANK);
        self.write_toggle = false;
        s
    }

    /// $2005 write, toggled by `w`.
    pub fn write_scroll(&mut self, position: u8)
        ensures
            *final(self) == spec_write_scroll(*old(self), position),
    {
        if !self.write_toggle {
            self.t = VRAMAddress((self.t.0 & !0x001F) | (((position & 0xF8) as u16) >> 3));
            self.fine_x = position & 0x07;
            self.write_toggle = true;
        } else {
            self.t = VRAMAddress(
                (self.t.0 & !0x73E0) | (((position & 0x07) as u16) << 12) | (((position
                    & 0xF8) as u16) << 2),
            );
            self.write_toggle = false;
        }
    }

    /// $2006 write, toggled by `w`.
    pub fn write_vram_address(&mut self, addr: u8)
        ensures
            *final(self) == spec_write_vram_address(*old(self), addr),
    {
        if !self.write_toggle {
            self.t = VRAMAddress((self.t.0 & !0x7F00) | (((addr & 0x3F) as u16) << 8));
            self.write_toggle = true;
        } else {
            let t1 = (self.t.0 & !0x00FF) | (addr as u16);
            self.t = VRAMAddress(t1);
            self.v = VRAMAddress(t1);
            self.write_toggle = false;
        }
    }

    /// Coarse-X increment at the end of each background fetch.
    pub fn incr_coarse_x(&mut self)
        ensures
            final(self).v.0 == spec_incr_coarse_x(old(self).v.0),
            final(self).controller == old(self).controller,
            final(self).mask == old(self).mask,
            final(self).status == old(self).status,
            final(self).data == old(self).data,
            final(self).object_attribute_memory_address == old(
                self,
            ).object_attribute_memory_address,
            final(self).t == old(self).t,
            final(self).fine_x == old(self).fine_x,
            final(self).write_toggle == old(self).write_toggle,
    {
        if self.v.0 & 0x1F == 0x1F {
            self.v = VRAMAddress((self.v.0 & !0x1F) ^ 0x0400);
        } else {
            self.v = VRAMAddress(self.v.0.wrapping_add(1));
        }
    }

    /// Y increment at dot 256.
    pub fn incr_y(&mut self)
        ensures
            final(self).v.0 == spec_incr_y(old(self).v.0),
            final(self).controller == old(self).controller,
            final(self).mask == old(self).mask,
            final(self).status == old(self).status,
            final(self).data == old(self).data,
            final(self).object_attribute_memory_address == old(
                self,
            ).object_attribute_memory_address,
            final(self).t == old(self).t,
            final(self).fine_x == old(self).fine_x,
            final(self).write_toggle == old(self).write_toggle,
    {
        if (self.v.0 >> 12) & 0x07 < 7 {
            self.v = VRAMAddress(self.v.0.wrapping_add(0x1000));
        } else {
            let v1 = self.v.0 & !0x7000;
            let y: u16 = (v1 >> 5) & 0x1F;
            proof {
                lemma_and_le_mask16(v1 >> 5, 0x1F);
            }
            if y == 29 {
                self.v = VRAMAddress((v1 ^ 0x0800) & !0x03E0);
            } else if y == 31 {
                self.v = VRAMAddress(v1 & !0x03E0);
            } else {
                self.v = VRAMAddress((v1 & !0x03E0) | ((y + 1) << 5));
            }
        }
    }

    /// Copy the horizontal scroll bits from `t` into `v` at dot 257.
    pub fn copy_x(&mut self)
        ensures
            final(self).v.0 == spec_copy_x(old(self).v.0, old(self).t.0),
            final(self).controller == old(self).controller,
            final(self).mask == old(self).mask,
            final(self).status == old(self).status,
            final(self).data == old(self).data,
            final(self).object_attribute_memory_address == old(
                self,
            ).object_attribute_memory_address,
            final(self).t == old(self).t,
            final(self).fine_x == old(self).fine_x,
            final(self).write_toggle == old(self).write_toggle,
    {
        self.v = VRAMAddress((self.v.0 & !0x041F) | (self.t.0 & 0x041F));
    }

    /// Copy the vertical scroll bits from `t` into `v` during pre-render.
    pub fn copy_y(&mut self)
        ensures
            final(self).v.0 == spec_copy_y(old(self).v.0, old(self).t.0),
            final(self).controller == old(self).controller,
            final(self).mask == old(self).mask,
            final(self).status == old(self).status,
            final(self).data == old(self).data,
            final(self).object_attribute_memory_address == old(
                self,
            ).object_attribute_memory_address,
            final(self).t == old(self).t,
            final(self).fine_x == old(self).fine_x,
            final(self).write_toggle == old(self).write_toggle,
    {
        self.v = VRAMAddress((self.v.0 & !0x7BE0) | (self.t.0 & 0x7BE0));
    }
}

/// Rendering is enabled when either the sprite or the background layer is
/// shown.
pub open spec fn spec_rendering_enabled(reg: Register) -> bool {
    reg.mask.0 & MASK_SPRITE == MASK_SPRITE || reg.mask.0 & MASK_BACKGROUND == MASK_BACKGROUND
}

} // verus!

//! The PPU core: scan state, background and sprite pipelines, register
//! ports, and the dot-stepped state machine that emits pixels and raises
//! NMI at V-blank.

pub mod background;
pub mod register;
pub mod sprite;
pub mod vram_address;

use vstd::prelude::*;

use crate::interrupt::{Interrupt, INT_NMI};
use crate::memory_map::{spec_ppu_bus_read, spec_ppu_bus_write, PPUBus, PPUBusView};
use background::{
    spec_reloaded, spec_shifted, spec_tile_pallete, spec_tile_pixel, Tile, TilePattern,
    ATTRIBUTE_TABLE_FIRST, NAME_TABLE_FIRST, TILE_HEIGHT,
};
use register::{
    spec_copy_x, spec_copy_y, spec_incr_coarse_x, spec_incr_v, spec_incr_y, spec_read_status,
    spec_reg_reset, spec_rendering_enabled, spec_write_controller, spec_write_scroll,
    spec_write_vram_address, Mask, Register, CTRL_BG_TABLE_ADDR, CTRL_NMI, CTRL_SPRITE_SIZE,
    CTRL_SPRITE_TABLE_ADDR, STATUS_SPRITE_OVERFLOW, STATUS_SPRITE_ZERO_HIT, STATUS_VBLANK,
};
use sprite::{
    Sprite, SpriteAttribute, SPR_BEHIND_BACKGROUND, SPR_FLIP_HORIZONTALLY, SPR_FLIP_VERTICALLY,
};

verus! {

/// Last dot of a line.
pub const MAX_DOT: u16 = 340;

/// Last line of a frame (the pre-render line).
pub const MAX_LINE: u16 = 261;

/// Visible width in pixels.
pub const WIDTH: u16 = 256;

/// Where the scan position sits: dot in [0, 340], line in [0, 261].
#[derive(Debug, Copy, Clone, PartialEq, Eq, Structural)]
pub struct Scan {
    pub dot: u16,
    pub line: u16,
}

/// What a scan advance crossed: nothing, a line end, or the frame end.
#[derive(Debug, Copy, Clone, PartialEq, Eq, Structural)]
pub enum ScanUpdate {
    Dot,
    Line,
    Frame,
}

/// The scan position after one dot: dot advances modulo 341 and the line
/// wraps from 261 back to 0.
pub open spec fn spec_next_scan(s: Scan) -> Scan {
    if s.dot < MAX_DOT {
        Scan { dot: (s.dot + 1) as u16, line: s.line }
    } else {
        if s.line < MAX_LINE {
            Scan { dot: 0, line: (s.line + 1) as u16 }
        } else {
            Scan { dot: 0, line: 0 }
        }
    }
}

/// Position of a scan point within the 341 x 262 frame grid.
pub open spec fn spec_scan_index(s: Scan) -> int {
    s.line * 341 + s.dot
}

impl Scan {
    pub fn clear(&mut self)
        ensures
            final(self).dot == 0,
            final(self).line == 0,
    {
        self.dot = 0;
        self.line = 0;
    }

    /// Advance one dot; reports when a line or the frame wrapped.
    pub fn next_dot(&mut self) -> (r: ScanUpdate)
        ensures
            *final(self) == spec_next_scan(*old(self)),
            r == (if old(self).dot < MAX_DOT {
                ScanUpdate::Dot
            } else if old(self).line < MAX_LINE {
                ScanUpdate::Line
            } else {
                ScanUpdate::Frame
            }),
    {
        if self.dot < MAX_DOT {
            self.dot = self.dot + 1;
            ScanUpdate::Dot
        } else {
            self.dot = 0;
            if self.line < MAX_LINE {
                self.line = self.line + 1;
                ScanUpdate::Line
            } else {
                self.line = 0;
                ScanUpdate::Frame
            }
        }
    }
}

/// One PPU dot's effect on the frame counter and scan position: the scan
/// advances one dot, the counter advances when the line wraps, and on an
/// odd rendering frame the pre-render dot 340 is skipped.
pub open spec fn spec_scan_step(f: u64, s: Scan, rendering: bool) -> (u64, Scan) {
    if s.line == 261 && s.dot == 339 && rendering && f % 2 == 1 {
        (f.wrapping_add(1), Scan { dot: 0, line: 0 })
    } else if s.line == 261 && s.dot == 340 {
        (f.wrapping_add(1), spec_next_scan(s))
    } else {
        (f, spec_next_scan(s))
    }
}

/// `spec_scan_step` iterated `n` times.
pub open spec fn spec_scan_advance(f: u64, s: Scan, rendering: bool, n: nat) -> (u64, Scan)
    decreases n,
{
    if n == 0 {
        (f, s)
    } else {
        let r = spec_scan_step(f, s, rendering);
        spec_scan_advance(r.0, r.1, rendering, (n - 1) as nat)
    }
}

/// Iterating one more dot is one more `spec_scan_step` at the tail.
pub proof fn lemma_scan_advance_snoc(f: u64, s: Scan, rendering: bool, n: nat)
    ensures
        spec_scan_advance(f, s, rendering, n + 1) == ({
            let a = spec_scan_advance(f, s, rendering, n);
            spec_scan_step(a.0, a.1, rendering)
        }),
    decreases n,
{
    let r = spec_scan_step(f, s, rendering);
    if n == 0 {
        assert(spec_scan_advance(f, s, rendering, 1) == spec_scan_advance(r.0, r.1, rendering, 0));
        assert(spec_scan_advance(r.0, r.1, rendering, 0) == (r.0, r.1));
    } else {
        lemma_scan_advance_snoc(r.0, r.1, rendering, (n - 1) as nat);
    }
}

/// Advancing the scan by one dot advances its position in the 89342-dot
/// frame grid by exactly one, modulo the frame length.
pub proof fn lemma_scan_advances_one_dot(s: Scan)
    requires
        s.dot <= MAX_DOT,
        s.line <= MAX_LINE,
    ensures
        0 <= spec_scan_index(s) < 89342,
        spec_scan_index(spec_next_scan(s)) == (spec_scan_index(s) + 1) % 89342,
{
    assert(spec_scan_index(s) <= 261 * 341 + 340);
    if s.dot < MAX_DOT {
        assert(spec_scan_index(spec_next_scan(s)) == spec_scan_index(s) + 1);
    } else if s.line < MAX_LINE {
        assert(spec_scan_index(spec_next_scan(s)) == spec_scan_index(s) + 1) by (nonlinear_arith)
            requires
                s.dot == 340,
                s.line < 261,
                spec_next_scan(s) == (Scan { dot: 0, line: (s.line + 1) as u16 }),
        ;
    } else {
        assert(spec_scan_index(s) == 89341);
    }
}

/// Abstract state of the PPU: the register file, the OAMs, the pipeline
/// latches, the scan position and the bus contents.
pub struct PPUView {
    pub reg: Register,
    pub name_table_entry: u8,
    pub attr_table_entry: u8,
    pub bg_temp_addr: u16,
    pub tile: Tile,
    pub next_pattern: TilePattern,
    pub primary_oam: Seq<u8>,
    pub secondary_oam: Seq<u8>,
    pub sprites: Seq<Sprite>,
    pub sprite_zero_on_line: bool,
    pub internal_data_bus: u8,
    pub vblank_suppressed: bool,
    pub last_pixel: u16,
    pub frames: u64,
    pub scan: Scan,
    pub bus: PPUBusView,
}

/// The PPU.
pub struct PPU {
    pub reg: Register,
    pub bus: PPUBus,
    /// Latched nametable byte of the background fetch in progress.
    pub name_table_entry: u8,
    /// Latched attribute byte, already shifted to its quadrant.
    pub attr_table_entry: u8,
    /// Address latch of the background fetch in progress.
    pub bg_temp_addr: u16,
    /// The background shift registers.
    pub tile: Tile,
    /// The pattern pair fetched for the next tile.
    pub next_pattern: TilePattern,
    pub primary_oam: Vec<u8>,
    pub secondary_oam: Vec<u8>,
    /// The up to eight sprites fetched for the next line.
    pub sprites: Vec<Sprite>,
    pub sprite_zero_on_line: bool,
    /// The five low bits feed PPUSTATUS open-bus reads.
    pub internal_data_bus: u8,
    /// A $2002 read on the dot V-blank would be set suppresses that set
    /// (and with it the NMI) until consumed at line 241 dot 1.
    pub vblank_suppressed: bool,
    /// The pixel emitted for the most recent visible dot: a 6-bit NES
    /// palette index.
    pub last_pixel: u16,
    pub frames: u64,
    pub scan: Scan,
}

impl View for PPU {
    type V = PPUView;

    open spec fn view(&self) -> PPUView {
        PPUView {
            reg: self.reg,
            name_table_entry: self.name_table_entry,
            attr_table_entry: self.attr_table_entry,
            bg_temp_addr: self.bg_temp_addr,
            tile: self.tile,
            next_pattern: self.next_pattern,
            primary_oam: self.primary_oam@,
            secondary_oam: self.secondary_oam@,
            sprites: self.sprites@,
            sprite_zero_on_line: self.sprite_zero_on_line,
            internal_data_bus: self.internal_data_bus,
            vblank_suppressed: self.vblank_suppressed,
            last_pixel: self.last_pixel,
            frames: self.frames,
            scan: self.scan,
            bus: self.bus@,
        }
    }
}

/// What a register-port read returns, before it is latched on the internal
/// data bus.
pub open spec fn spec_reg_read_result(v: PPUView, addr: u16) -> u8 {
    if addr == 0x2002 {
        let base = v.reg.status.0 | (v.internal_data_bus & 0x1F);
        if v.scan.line == 241 && v.scan.dot < 2 {
            base & !STATUS_VBLANK
        } else {
            base
        }
    } else if addr == 0x2004 {
        if v.scan.line < 240 && 1 <= v.scan.dot && v.scan.dot <= 64 {
            0xFF
        } else {
            v.primary_oam[v.reg.object_attribute_memory_address as int]
        }
    } else if addr == 0x2007 {
        if v.reg.v.0 <= 0x3EFF {
            v.reg.data
        } else {
            spec_ppu_bus_read(v.bus, v.reg.v.0)
        }
    } else {
        0
    }
}

/// The PPU after a register-port read: $2002 clears V-blank and `w`,
/// $2007 refills the read buffer and advances `v`; every read drives the
/// internal data bus.
pub open spec fn spec_post_reg_read(v: PPUView, addr: u16) -> PPUView {
    let result = spec_reg_read_result(v, addr);
    if addr == 0x2002 {
        PPUView {
            reg: spec_read_status(v.reg),
            internal_data_bus: result,
            vblank_suppressed: v.scan.line == 241 && v.scan.dot < 2,
            ..v
        }
    } else if addr == 0x2007 {
        let reg1 = if v.reg.v.0 <= 0x3EFF {
            Register { data: spec_ppu_bus_read(v.bus, v.reg.v.0), ..v.reg }
        } else {
            v.reg
        };
        PPUView { reg: spec_incr_v(reg1), internal_data_bus: result, ..v }
    } else {
        PPUView { internal_data_bus: result, ..v }
    }
}

/// The PPU after a register-port write.
pub open spec fn spec_post_reg_write(v: PPUView, addr: u16, value: u8) -> PPUView {
    if addr == 0x2000 {
        PPUView { reg: spec_write_controller(v.reg, value), ..v }
    } else if addr == 0x2001 {
        PPUView { reg: Register { mask: Mask(value), ..v.reg }, ..v }
    } else if addr == 0x2003 {
        PPUView { reg: Register { object_attribute_memory_address: value, ..v.reg }, ..v }
    } else if addr == 0x2004 {
        PPUView {
            primary_oam: v.primary_oam.update(
                v.reg.object_attribute_memory_address as int,
                value,
            ),
            reg: Register {
                object_attribute_memory_address: v.reg.object_attribute_memory_address.wrapping_add(
                    1,
                ),
                ..v.reg
            },
            ..v
        }
    } else if addr == 0x2005 {
        PPUView { reg: spec_write_scroll(v.reg, value), ..v }
    } else if addr == 0x2006 {
        PPUView { reg: spec_write_vram_address(v.reg, value), ..v }
    } else if addr == 0x2007 {
        PPUView { bus: spec_ppu_bus_write(v.bus, v.reg.v.0, value), reg: spec_incr_v(v.reg), ..v }
    } else {
        v
    }
}

impl PPU {
    /// Sizes every reachable PPU state keeps.
    pub open spec fn wf(&self) -> bool {
        &&& self.bus.wf()
        &&& self.primary_oam@.len() == 256
        &&& self.secondary_oam@.len() == 32
        &&& self.sprites@.len() == 8
        &&& self.scan.dot <= MAX_DOT
        &&& self.scan.line <= MAX_LINE
    }

    pub fn new(ppu_bus: PPUBus) -> (r: PPU)
        requires
            ppu_bus.wf(),
        ensures
            r.wf(),
            r.bus@ == ppu_bus@,
            r.frames == 0,
            r.scan.dot == 0 && r.scan.line == 0,
            r.reg.status.0 == 0,
            r.reg.controller.0 == 0,
            r.reg.mask.0 == 0,
            r.reg.write_toggle == false,
            r.reg.v.0 == 0 && r.reg.t.0 == 0,
    {
        let mut sprites: Vec<Sprite> = Vec::new();
        let mut i: usize = 0;
        while i < 8
            invariant
                i <= 8,
                sprites@.len() == i,
            decreases 8 - i,
        {
            sprites.push(Sprite::zero());
            i = i + 1;
        }
        PPU {
            reg: Register {
                controller: register::Controller(0),
                mask: Mask(0),
                status: register::Status(0),
                data: 0,
                object_attribute_memory_address: 0,
                v: vram_address::VRAMAddress(0),
                t: vram_address::VRAMAddress(0),
                fine_x: 0,
                write_toggle: false,
            },
            bus: ppu_bus,
            name_table_entry: 0,
            attr_table_entry: 0,
            bg_temp_addr: 0,
            tile: Tile {
                pattern: TilePattern { low: 0, high: 0 },
                attr: background::TileAttribute {
                    low: 0,
                    high: 0,
                    low_latch: false,
                    high_latch: false,
                },
            },
            next_pattern: TilePattern { low: 0, high: 0 },
            primary_oam: crate::types::zero_vec(256),
            secondary_oam: crate::types::zero_vec(32),
            sprites,
            sprite_zero_on_line: false,
            internal_data_bus: 0,
            vblank_suppressed: false,
            last_pixel: 0,
            frames: 0,
            scan: Scan { dot: 0, line: 0 },
        }
    }

    /// Reset: clears the control registers, the scan position and the frame
    /// counter.
    pub fn reset(&mut self)
        requires
            old(self).wf(),
        ensures
            final(self).wf(),
            final(self).reg == spec_reg_reset(old(self).reg),
            final(self).scan.dot == 0 && final(self).scan.line == 0,
            final(self).frames == 0,
            final(self).vblank_suppressed == false,
            final(self).bus@ == old(self).bus@,
            final(self).primary_oam@ == old(self).primary_oam@,
            final(self).secondary_oam@ == old(self).secondary_oam@,
            final(self).sprites@ == old(self).sprites@,
            final(self).sprite_zero_on_line == old(self).sprite_zero_on_line,
            final(self).internal_data_bus == old(self).internal_data_bus,
            final(self).tile == old(self).tile,
            final(self).next_pattern == old(self).next_pattern,
            final(self).name_table_entry == old(self).name_table_entry,
            final(self).attr_table_entry == old(self).attr_table_entry,
            final(self).bg_temp_addr == old(self).bg_temp_addr,
    {
        self.reg.reset();
        self.scan.clear();
        self.frames = 0;
        self.vblank_suppressed = false;
    }

    pub fn current_line(&self) -> (r: u16)
        ensures
            r == self.scan.line,
    {
        self.scan.line
    }

    /// A CPU-visible register read at a port address 0x2000-0x2007.
    pub fn read_register(&mut self, addr: u16) -> (r: u8)
        requires
            old(self).wf(),
        ensures
            final(self).wf(),
            r == spec_reg_read_result(old(self)@, addr),
            final(self)@ == spec_post_reg_read(old(self)@, addr),
    {
        let result: u8 = if addr == 0x2002 {
            let base = self.reg.read_status() | (self.internal_data_bus & 0x1F);
            self.vblank_suppressed = self.scan.line == 241 && self.scan.dot < 2;
            if self.scan.line == 241 && self.scan.dot < 2 {
                base & !STATUS_VBLANK
            } else {
                base
            }
        } else if addr == 0x2004 {
            if self.scan.line < 240 && 1 <= self.scan.dot && self.scan.dot <= 64 {
                0xFF
            } else {
                self.primary_oam[self.reg.object_attribute_memory_address as usize]
            }
        } else if addr == 0x2007 {
            let va = self.reg.v.0;
            let result = if va <= 0x3EFF {
                let data = self.reg.data;
                self.reg.data = self.bus.read(va);
                data
            } else {
                self.bus.read(va)
            };
            self.reg.incr_v();
            result
        } else {
            0
        };
        self.internal_data_bus = result;
        result
    }

    /// A side-effect-free register read, for the trace formatter: what
    /// `read_register` would return, with no state change.
    pub fn peek_register(&self, addr: u16) -> (r: u8)
        requires
            self.wf(),
        ensures
            r == spec_reg_read_result(self@, addr),
    {
        if addr == 0x2002 {
            let base = self.reg.status.0 | (self.internal_data_bus & 0x1F);
            if self.scan.line == 241 && self.scan.dot < 2 {
                base & !STATUS_VBLANK
            } else {
                base
            }
        } else if addr == 0x2004 {
            if self.scan.line < 240 && 1 <= self.scan.dot && self.scan.dot <= 64 {
                0xFF
            } else {
                self.primary_oam[self.reg.object_attribute_memory_address as usize]
            }
        } else if addr == 0x2007 {
            let va = self.reg.v.0;
            if va <= 0x3EFF {
                self.reg.data
            } else {
                self.bus.read(va)
            }
        } else {
            0
        }
    }

    /// A CPU-visible register write at a port address 0x2000-0x2007.
    pub fn write_register(&mut self, addr: u16, value: u8)
        requires
            old(self).wf(),
        ensures
            final(self).wf(),
            final(self)@ == spec_post_reg_write(old(self)@, addr, value),
    {
        if addr == 0x2000 {
            self.reg.write_controller(value);
        } else if addr == 0x2001 {
            self.reg.mask = Mask::new(value);
        } else if addr == 0x2003 {
            self.reg.object_attribute_memory_address = value;
        } else if addr == 0x2004 {
            let i = self.reg.object_attribute_memory_address as usize;
            self.primary_oam[i] = value;
            self.reg.object_attribute_memory_address =
                self.reg.object_attribute_memory_address.wrapping_add(1);
        } else if addr == 0x2005 {
            self.reg.write_scroll(value);
        } else if addr == 0x2006 {
            self.reg.write_vram_address(value);
        } else if addr == 0x2007 {
            let va = self.reg.v.0;
            self.bus.write(va, value);
            self.reg.incr_v();
        }
    }
}


/// One dot of the background fetch sequence as a state transition.
#[verifier::opaque]
pub open spec fn spec_fetch_background(v: PPUView) -> PPUView {
    let dot = v.scan.dot;
    let rendering = spec_rendering_enabled(v.reg);
    let nt_addr = NAME_TABLE_FIRST | (v.reg.v.0 & 0x0FFF);
    if dot == 321 {
        PPUView { bg_temp_addr: nt_addr, ..v }
    } else if (1 <= dot && dot <= 255) || (322 <= dot && dot <= 336) {
        let phase = dot % 8;
        if phase == 1 {
            PPUView {
                bg_temp_addr: nt_addr,
                tile: spec_reloaded(v.tile, v.next_pattern, v.attr_table_entry),
                ..v
            }
        } else if phase == 2 {
            PPUView { name_table_entry: spec_ppu_bus_read(v.bus, v.bg_temp_addr), ..v }
        } else if phase == 3 {
            PPUView {
                bg_temp_addr: ATTRIBUTE_TABLE_FIRST | ((v.reg.v.0 & 0x0C00) | ((v.reg.v.0 >> 4)
                    & 0x38) | ((v.reg.v.0 >> 2) & 0x07)),
                ..v
            }
        } else if phase == 4 {
            let a0 = spec_ppu_bus_read(v.bus, v.bg_temp_addr);
            let a1 = if (v.reg.v.0 & 0x1F) & 0x02 == 0x02 {
                a0 >> 2
            } else {
                a0
            };
            let a2 = if ((v.reg.v.0 >> 5) & 0x1F) & 0x02 == 0x02 {
                a1 >> 4
            } else {
                a1
            };
            PPUView { attr_table_entry: a2, ..v }
        } else if phase == 5 {
            let base: u16 = if v.reg.controller.0 & CTRL_BG_TABLE_ADDR == CTRL_BG_TABLE_ADDR {
                0x1000
            } else {
                0x0000
            };
            PPUView {
                bg_temp_addr: ((base + (v.name_table_entry as u16) * 16 + ((((v.reg.v.0 >> 12)
                    & 0x07) as u8) as u16)) as u16),
                ..v
            }
        } else if phase == 6 {
            PPUView {
                next_pattern: TilePattern {
                    low: spec_ppu_bus_read(v.bus, v.bg_temp_addr) as u16,
                    high: v.next_pattern.high,
                },
                ..v
            }
        } else if phase == 7 {
            PPUView { bg_temp_addr: v.bg_temp_addr.wrapping_add(TILE_HEIGHT as u16), ..v }
        } else {
            let fetched = PPUView {
                next_pattern: TilePattern {
                    low: v.next_pattern.low,
                    high: spec_ppu_bus_read(v.bus, v.bg_temp_addr) as u16,
                },
                ..v
            };
            if rendering {
                PPUView {
                    reg: Register {
                        v: vram_address::VRAMAddress(spec_incr_coarse_x(v.reg.v.0)),
                        ..v.reg
                    },
                    ..fetched
                }
            } else {
                fetched
            }
        }
    } else if dot == 256 {
        let fetched = PPUView {
            next_pattern: TilePattern {
                low: v.next_pattern.low,
                high: spec_ppu_bus_read(v.bus, v.bg_temp_addr) as u16,
            },
            ..v
        };
        if rendering {
            PPUView {
                reg: Register { v: vram_address::VRAMAddress(spec_incr_y(v.reg.v.0)), ..v.reg },
                ..fetched
            }
        } else {
            fetched
        }
    } else if dot == 257 {
        let reloaded = PPUView {
            tile: spec_reloaded(v.tile, v.next_pattern, v.attr_table_entry),
            ..v
        };
        if rendering {
            PPUView {
                reg: Register {
                    v: vram_address::VRAMAddress(spec_copy_x(v.reg.v.0, v.reg.t.0)),
                    ..v.reg
                },
                ..reloaded
            }
        } else {
            reloaded
        }
    } else if 280 <= dot && dot <= 304 {
        if v.scan.line == 261 && rendering {
            PPUView {
                reg: Register {
                    v: vram_address::VRAMAddress(spec_copy_y(v.reg.v.0, v.reg.t.0)),
                    ..v.reg
                },
                ..v
            }
        } else {
            v
        }
    } else if dot == 337 || dot == 339 {
        PPUView { bg_temp_addr: nt_addr, ..v }
    } else if dot == 338 || dot == 340 {
        PPUView { name_table_entry: spec_ppu_bus_read(v.bus, v.bg_temp_addr), ..v }
    } else {
        v
    }
}

// The background pipeline.
impl PPU {
    /// One dot of the background fetch sequence: the nametable, attribute
    /// and pattern fetches, the shifter reloads, and the `v` updates at
    /// dots 256, 257 and (on pre-render) 280-304.
    pub fn fetch_background_pixel(&mut self)
        requires
            old(self).wf(),
        ensures
            final(self).wf(),
            final(self)@ == spec_fetch_background(old(self)@),
            final(self).bus@ == old(self).bus@,
            final(self).primary_oam@ == old(self).primary_oam@,
            final(self).secondary_oam@ == old(self).secondary_oam@,
            final(self).sprites@ == old(self).sprites@,
            final(self).sprite_zero_on_line == old(self).sprite_zero_on_line,
            final(self).internal_data_bus == old(self).internal_data_bus,
            final(self).vblank_suppressed == old(self).vblank_suppressed,
            final(self).last_pixel == old(self).last_pixel,
            final(self).frames == old(self).frames,
            final(self).scan == old(self).scan,
            final(self).reg.controller == old(self).reg.controller,
            final(self).reg.mask == old(self).reg.mask,
            final(self).reg.status == old(self).reg.status,
            final(self).reg.data == old(self).reg.data,
            final(self).reg.object_attribute_memory_address == old(
                self,
            ).reg.object_attribute_memory_address,
            final(self).reg.t == old(self).reg.t,
            final(self).reg.fine_x == old(self).reg.fine_x,
            final(self).reg.write_toggle == old(self).reg.write_toggle,
            ({
                let dot = old(self).scan.dot;
                let v0 = old(self).reg.v.0;
                let rendering = spec_rendering_enabled(old(self).reg);
                let v1 = final(self).reg.v.0;
                if dot == 256 {
                    v1 == (if rendering {
                        spec_incr_y(v0)
                    } else {
                        v0
                    })
                } else if dot == 257 {
                    v1 == (if rendering {
                        spec_copy_x(v0, old(self).reg.t.0)
                    } else {
                        v0
                    })
                } else if 280 <= dot && dot <= 304 {
                    v1 == (if old(self).scan.line == 261 && rendering {
                        spec_copy_y(v0, old(self).reg.t.0)
                    } else {
                        v0
                    })
                } else if (1 <= dot && dot <= 255) || (322 <= dot && dot <= 336) {
                    v1 == (if dot % 8 == 0 && rendering {
                        spec_incr_coarse_x(v0)
                    } else {
                        v0
                    })
                } else {
                    v1 == v0
                }
            }),
    {
        proof {
            reveal(spec_fetch_background);
        }
        let dot = self.scan.dot;
        if dot == 321 {
            self.bg_temp_addr = NAME_TABLE_FIRST | self.reg.v.name_table_address_index();
        } else if (1 <= dot && dot <= 255) || (322 <= dot && dot <= 336) {
            let phase = dot % 8;
            if phase == 1 {
                self.bg_temp_addr = NAME_TABLE_FIRST | self.reg.v.name_table_address_index();
                let next = self.next_pattern;
                let attr = self.attr_table_entry;
                self.tile.reload(next, attr);
            } else if phase == 2 {
                self.name_table_entry = self.bus.read(self.bg_temp_addr);
            } else if phase == 3 {
                self.bg_temp_addr = ATTRIBUTE_TABLE_FIRST | self.reg.v.attribute_address_index();
            } else if phase == 4 {
                let mut attr = self.bus.read(self.bg_temp_addr);
                if self.reg.v.coarse_x_scroll() & 0x02 == 0x02 {
                    attr = attr >> 2;
                }
                if self.reg.v.coarse_y_scroll() & 0x02 == 0x02 {
                    attr = attr >> 4;
                }
                self.attr_table_entry = attr;
            } else if phase == 5 {
                let base: u16 = if self.reg.controller.is_set(CTRL_BG_TABLE_ADDR) {
                    0x1000
                } else {
                    0x0000
                };
                // two planes of TILE_HEIGHT bytes per tile: 16 bytes each
                let index: u16 = (self.name_table_entry as u16) * 16;
                self.bg_temp_addr = base + index + self.reg.v.fine_y_scroll() as u16;
            } else if phase == 6 {
                self.next_pattern.low = self.bus.read(self.bg_temp_addr) as u16;
            } else if phase == 7 {
                self.bg_temp_addr = self.bg_temp_addr.wrapping_add(TILE_HEIGHT as u16);
            } else {
                self.next_pattern.high = self.bus.read(self.bg_temp_addr) as u16;
                if self.reg.rendering_enabled() {
                    self.reg.incr_coarse_x();
                }
            }
        } else if dot == 256 {
            self.next_pattern.high = self.bus.read(self.bg_temp_addr) as u16;
            if self.reg.rendering_enabled() {
                self.reg.incr_y();
            }
        } else if dot == 257 {
            let next = self.next_pattern;
            let attr = self.attr_table_entry;
            self.tile.reload(next, attr);
            if self.reg.rendering_enabled() {
                self.reg.copy_x();
            }
        } else if 280 <= dot && dot <= 304 {
            if self.scan.line == 261 && self.reg.rendering_enabled() {
                self.reg.copy_y();
            }
        } else if dot == 337 || dot == 339 {
            self.bg_temp_addr = NAME_TABLE_FIRST | self.reg.v.name_table_address_index();
        } else if dot == 338 || dot == 340 {
            self.name_table_entry = self.bus.read(self.bg_temp_addr);
        }
    }

    /// The background pixel candidate for column `x`: samples the shifters
    /// at fine X, advances them during the shift windows, and reads the
    /// palette.  The color is a 6-bit NES palette index.
    pub fn get_background_pixel(&mut self, x: u16) -> (r: background::Pixel)
        requires
            old(self).wf(),
        ensures
            final(self).wf(),
            r.color <= 63,
            final(self).bus@ == old(self).bus@,
            final(self).reg == old(self).reg,
            final(self).scan == old(self).scan,
            final(self).primary_oam@ == old(self).primary_oam@,
            final(self).secondary_oam@ == old(self).secondary_oam@,
            final(self).sprites@ == old(self).sprites@,
            final(self).sprite_zero_on_line == old(self).sprite_zero_on_line,
            final(self).internal_data_bus == old(self).internal_data_bus,
            final(self).vblank_suppressed == old(self).vblank_suppressed,
            final(self).last_pixel == old(self).last_pixel,
            final(self).frames == old(self).frames,
            final(self).name_table_entry == old(self).name_table_entry,
            final(self).attr_table_entry == old(self).attr_table_entry,
            final(self).bg_temp_addr == old(self).bg_temp_addr,
            final(self).next_pattern == old(self).next_pattern,
            r == spec_background_pixel(old(self)@, x),
            final(self)@ == spec_post_background_sample(old(self)@),
            ({
                let dot = old(self).scan.dot;
                let shift_window = (1 <= dot && dot <= 256) || (321 <= dot && dot <= 336);
                final(self).tile == (if shift_window {
                    spec_shifted(old(self).tile)
                } else {
                    old(self).tile
                })
            }),
            ({
                let mask = old(self).reg.mask.0;
                let enabled_bg = mask & register::MASK_BACKGROUND == register::MASK_BACKGROUND && !(
                x < 8 && mask & register::MASK_BACKGROUND_LEFT != register::MASK_BACKGROUND_LEFT);
                let px = spec_tile_pixel(old(self).tile, old(self).reg.fine_x);
                let pal = spec_tile_pallete(old(self).tile, old(self).reg.fine_x);
                if enabled_bg {
                    r.enabled == (px != 0) && r.color == spec_ppu_bus_read(
                        old(self).bus@,
                        (0x3F00 + pal * 4 + px) as u16,
                    ) as u16
                } else {
                    !r.enabled && r.color == 0
                }
            }),
    {
        let (pixel, pallete) = self.tile.pixel_pallete(self.reg.fine_x);
        let dot = self.scan.dot;
        if (1 <= dot && dot <= 256) || (321 <= dot && dot <= 336) {
            self.tile.shift();
        }
        if self.reg.is_enabled_background(x) {
            let addr: u16 = 0x3F00 + pallete * 4 + pixel;
            let color = self.bus.read(addr) as u16;
            proof {
                crate::types::lemma_and_le_mask8(
                    old(self).bus@.pallete[crate::memory_map::spec_palette_index(addr)],
                    0x3F,
                );
            }
            background::Pixel { enabled: pixel != 0, color }
        } else {
            background::Pixel::zero()
        }
    }
}

/// The sprite pattern row, column, pixel and palette color sprite `spr`
/// contributes at column `x` of the current line, per the fetch rules
/// (including the 8x16 table select from tile bit 0).
pub open spec fn spec_sprite_pixel_value(v: PPUView, spr: Sprite, x: int) -> (u16, u16) {
    let height: u16 = if v.reg.controller.0 & CTRL_SPRITE_SIZE == CTRL_SPRITE_SIZE {
        16
    } else {
        8
    };
    let base_row = v.scan.line.wrapping_sub(spr.y as u16).wrapping_sub(1);
    let row0 = if spr.attr.0 & SPR_FLIP_VERTICALLY == SPR_FLIP_VERTICALLY {
        height.wrapping_sub(1).wrapping_sub(base_row)
    } else {
        base_row
    };
    let colbase = 7u16.wrapping_sub((x as u16).wrapping_sub(spr.x as u16));
    let col = if spr.attr.0 & SPR_FLIP_HORIZONTALLY == SPR_FLIP_HORIZONTALLY {
        (7u16.wrapping_sub(colbase) % 0x100) as u8
    } else {
        (colbase % 0x100) as u8
    };
    let eight_by_sixteen = v.reg.controller.0 & CTRL_SPRITE_SIZE == CTRL_SPRITE_SIZE;
    let table: u16 = if eight_by_sixteen {
        ((((spr.tile_index as u16) & 1) * 0x1000) as u16)
    } else if v.reg.controller.0 & CTRL_SPRITE_TABLE_ADDR == CTRL_SPRITE_TABLE_ADDR {
        0x1000
    } else {
        0x0000
    };
    let masked = (spr.tile_index as u16) & 0xFE;
    let tile_idx: u16 = if eight_by_sixteen {
        if 7 < row0 {
            ((masked + 1) as u16)
        } else {
            masked
        }
    } else {
        spr.tile_index as u16
    };
    let row1: u16 = if eight_by_sixteen && 7 < row0 {
        row0.wrapping_sub(8)
    } else {
        row0
    };
    let tile_addr = table.wrapping_add(tile_idx.wrapping_mul(16)).wrapping_add(row1);
    let low = spec_ppu_bus_read(v.bus, tile_addr);
    let high = spec_ppu_bus_read(v.bus, tile_addr.wrapping_add(8));
    let pixel = (background::spec_nth8(low, col) + background::spec_nth8(high, col) * 2) as u16;
    let color = spec_ppu_bus_read(
        v.bus,
        (0x3F10 + ((spr.attr.0 & 0x03) as u16) * 4 + pixel) as u16,
    ) as u16;
    (pixel, color)
}

/// Sprite height in pixels under controller `c`.
pub open spec fn spec_sprite_height(c: register::Controller) -> u16 {
    if c.0 & CTRL_SPRITE_SIZE == CTRL_SPRITE_SIZE {
        16
    } else {
        8
    }
}

/// Sprite evaluation from primary-OAM slot `j` up, carrying the secondary
/// OAM built so far, the sprite-0 flag, the count of sprites copied, and
/// whether a ninth in-range sprite was seen.
#[verifier::opaque]
pub open spec fn spec_sprite_evaluation(
    oam: Seq<u8>,
    line: u16,
    height: u16,
    sec: Seq<u8>,
    szol: bool,
    n: int,
    overflowed: bool,
    j: int,
) -> (Seq<u8>, bool, int, bool)
    decreases 64 - j,
{
    if j < 0 || j >= 64 {
        (sec, szol, n, overflowed)
    } else {
        let y = oam[4 * j];
        let row = line.wrapping_sub(y as u16);
        if row < height {
            if n < 8 {
                let sec1 = sec.update(4 * n, y).update(4 * n + 1, oam[4 * j + 1]).update(
                    4 * n + 2,
                    oam[4 * j + 2],
                ).update(4 * n + 3, oam[4 * j + 3]);
                spec_sprite_evaluation(
                    oam,
                    line,
                    height,
                    sec1,
                    szol || j == 0,
                    n + 1,
                    overflowed,
                    j + 1,
                )
            } else {
                spec_sprite_evaluation(oam, line, height, sec, szol, n, true, j + 1)
            }
        } else {
            spec_sprite_evaluation(oam, line, height, sec, szol, n, overflowed, j + 1)
        }
    }
}

/// The whole sprite evaluation for a line: up to eight in-range sprites
/// copied into a secondary OAM initialized to 0xFF.
pub open spec fn spec_evaluated_sprites(oam: Seq<u8>, line: u16, height: u16) -> (
    Seq<u8>,
    bool,
    int,
    bool,
) {
    spec_sprite_evaluation(oam, line, height, Seq::new(32, |i: int| 0xFFu8), false, 0, false, 0)
}

/// The sprite pipeline's scan from slot `i` up: the pixel candidate of the
/// first valid, in-range sprite with a non-zero pattern pixel, and whether
/// that find triggers the sprite-0 hit (slot 0, sprite 0 on the line, hit
/// not yet set, sprite x and screen x below 255, opaque background).
#[verifier::opaque]
pub open spec fn spec_sprite_scan(v: PPUView, x: int, bg_enabled: bool, i: int) -> (
    sprite::Pixel,
    bool,
)
    decreases 8 - i,
{
    if i < 0 || i >= 8 {
        (sprite::Pixel { enabled: false, color: 0, behide_background: true }, false)
    } else {
        let spr = v.sprites[i];
        if spr.x == 0xFF && spr.y == 0xFF && spr.tile_index == 0xFF && spr.attr.0 == 0xFF {
            (sprite::Pixel { enabled: false, color: 0, behide_background: true }, false)
        } else if (spr.x as int) < x - 7 || x < spr.x as int {
            spec_sprite_scan(v, x, bg_enabled, i + 1)
        } else {
            let pv = spec_sprite_pixel_value(v, spr, x);
            if pv.0 == 0 {
                spec_sprite_scan(v, x, bg_enabled, i + 1)
            } else {
                let hit = i == 0 && v.sprite_zero_on_line && v.reg.status.0 & STATUS_SPRITE_ZERO_HIT
                    != STATUS_SPRITE_ZERO_HIT && spr.x != 0xFF && x < 0xFF && bg_enabled;
                (
                    sprite::Pixel {
                        enabled: true,
                        color: pv.1,
                        behide_background: spr.attr.0 & SPR_BEHIND_BACKGROUND
                            == SPR_BEHIND_BACKGROUND,
                    },
                    hit,
                )
            }
        }
    }
}

// The sprite pipeline.
impl PPU {
    /// One dot of the sprite sequence.  At dot 0, secondary OAM is cleared
    /// to 0xFF and sprite evaluation copies up to eight sprites in range of
    /// this line, setting the overflow bit on a ninth; during dots 257-320
    /// the fetched sprites are latched for the next line.
    pub fn fetch_sprite_pixel(&mut self)
        requires
            old(self).wf(),
        ensures
            final(self).wf(),
            final(self).bus@ == old(self).bus@,
            final(self).primary_oam@ == old(self).primary_oam@,
            final(self).internal_data_bus == old(self).internal_data_bus,
            final(self).vblank_suppressed == old(self).vblank_suppressed,
            final(self).last_pixel == old(self).last_pixel,
            final(self).frames == old(self).frames,
            final(self).scan == old(self).scan,
            final(self).reg.controller == old(self).reg.controller,
            final(self).reg.mask == old(self).reg.mask,
            final(self).reg.v == old(self).reg.v,
            final(self).reg.t == old(self).reg.t,
            final(self).reg.data == old(self).reg.data,
            final(self).reg.fine_x == old(self).reg.fine_x,
            final(self).reg.write_toggle == old(self).reg.write_toggle,
            final(self).reg.object_attribute_memory_address == old(
                self,
            ).reg.object_attribute_memory_address,
            final(self).tile == old(self).tile,
            final(self).next_pattern == old(self).next_pattern,
            final(self).name_table_entry == old(self).name_table_entry,
            final(self).attr_table_entry == old(self).attr_table_entry,
            final(self).reg.status.0 == old(self).reg.status.0 || final(self).reg.status.0 == (old(
                self,
            ).reg.status.0 | STATUS_SPRITE_OVERFLOW),
            final(self)@ == spec_fetch_sprites(old(self)@),
            ({
                let dot = old(self).scan.dot;
                if 257 <= dot && dot <= 320 {
                    let i = (dot - 257) as int / 8;
                    let n = i * 4;
                    final(self).sprites@ == old(self).sprites@.update(
                        i,
                        Sprite {
                            y: old(self).secondary_oam@[n],
                            tile_index: old(self).secondary_oam@[n + 1],
                            attr: SpriteAttribute(old(self).secondary_oam@[n + 2]),
                            x: old(self).secondary_oam@[n + 3],
                        },
                    ) && final(self).secondary_oam@ == old(self).secondary_oam@
                        && final(self).sprite_zero_on_line == old(self).sprite_zero_on_line
                        && final(self).reg.status == old(self).reg.status
                } else if dot != 0 {
                    final(self).sprites@ == old(self).sprites@
                        && final(self).secondary_oam@ == old(self).secondary_oam@
                        && final(self).sprite_zero_on_line == old(self).sprite_zero_on_line
                        && final(self).reg.status == old(self).reg.status
                } else {
                    let e = spec_evaluated_sprites(
                        old(self).primary_oam@,
                        old(self).scan.line,
                        spec_sprite_height(old(self).reg.controller),
                    );
                    final(self).sprites@ == old(self).sprites@ && final(self).secondary_oam@ == e.0
                        && final(self).sprite_zero_on_line == e.1 && final(self).reg.status.0 == (
                    if e.3 && spec_rendering_enabled(old(self).reg) {
                        old(self).reg.status.0 | STATUS_SPRITE_OVERFLOW
                    } else {
                        old(self).reg.status.0
                    })
                }
            }),
    {
        let dot = self.scan.dot;
        if dot == 0 {
            let mut i: usize = 0;
            while i < 32
                invariant
                    old(self).wf(),
                    i <= 32,
                    self.secondary_oam@.len() == 32,
                    forall|k: int| 0 <= k < i ==> self.secondary_oam@[k] == 0xFFu8,
                    self.sprite_zero_on_line == old(self).sprite_zero_on_line,
                    self.vblank_suppressed == old(self).vblank_suppressed,
                    self.last_pixel == old(self).last_pixel,
                    self.bus@ == old(self).bus@,
                    self.primary_oam@ == old(self).primary_oam@,
                    self.sprites@ == old(self).sprites@,
                    self.internal_data_bus == old(self).internal_data_bus,
                    self.frames == old(self).frames,
                    self.scan == old(self).scan,
                    self.reg == old(self).reg,
                    self.tile == old(self).tile,
                    self.next_pattern == old(self).next_pattern,
                    self.name_table_entry == old(self).name_table_entry,
                    self.attr_table_entry == old(self).attr_table_entry,
                    self.bg_temp_addr == old(self).bg_temp_addr,
                decreases 32 - i,
            {
                self.secondary_oam[i] = 0xFF;
                i = i + 1;
            }
            proof {
                assert(self.secondary_oam@ =~= Seq::new(32, |k: int| 0xFFu8));
            }
            self.sprite_zero_on_line = false;
            let sprite_size: u16 = self.reg.sprite_size() as u16;
            let line = self.scan.line;
            let mut n: usize = 0;
            let mut overflowed = false;
            let mut j: usize = 0;
            while j < 64
                invariant
                    old(self).wf(),
                    j <= 64,
                    n <= 8,
                    self.secondary_oam@.len() == 32,
                    line == old(self).scan.line,
                    sprite_size == spec_sprite_height(old(self).reg.controller),
                    spec_evaluated_sprites(
                        old(self).primary_oam@,
                        old(self).scan.line,
                        spec_sprite_height(old(self).reg.controller),
                    ) == spec_sprite_evaluation(
                        old(self).primary_oam@,
                        old(self).scan.line,
                        spec_sprite_height(old(self).reg.controller),
                        self.secondary_oam@,
                        self.sprite_zero_on_line,
                        n as int,
                        overflowed,
                        j as int,
                    ),
                    self.vblank_suppressed == old(self).vblank_suppressed,
                    self.last_pixel == old(self).last_pixel,
                    self.bus@ == old(self).bus@,
                    self.primary_oam@ == old(self).primary_oam@,
                    self.sprites@ == old(self).sprites@,
                    self.internal_data_bus == old(self).internal_data_bus,
                    self.frames == old(self).frames,
                    self.scan == old(self).scan,
                    self.reg == old(self).reg,
                    self.tile == old(self).tile,
                    self.next_pattern == old(self).next_pattern,
                    self.name_table_entry == old(self).name_table_entry,
                    self.attr_table_entry == old(self).attr_table_entry,
                    self.bg_temp_addr == old(self).bg_temp_addr,
                decreases 64 - j,
            {
                proof {
                    reveal(spec_sprite_evaluation);
                }
                let first = j * 4;
                let y = self.primary_oam[first];
                let row = line.wrapping_sub(y as u16);
                if row < sprite_size {
                    if n < 8 {
                        if j == 0 {
                            self.sprite_zero_on_line = true;
                        }
                        self.secondary_oam[n * 4] = y;
                        self.secondary_oam[n * 4 + 1] = self.primary_oam[first + 1];
                        self.secondary_oam[n * 4 + 2] = self.primary_oam[first + 2];
                        self.secondary_oam[n * 4 + 3] = self.primary_oam[first + 3];
                        n = n + 1;
                    } else {
                        overflowed = true;
                    }
                }
                j = j + 1;
            }
            proof {
                reveal(spec_sprite_evaluation);
            }
            if overflowed && self.reg.rendering_enabled() {
                self.reg.status.set(STATUS_SPRITE_OVERFLOW);
            }
        } else if 257 <= dot && dot <= 320 {
            let i = ((dot - 257) / 8) as usize;
            let n = i * 4;
            let fetched = Sprite {
                y: self.secondary_oam[n],
                tile_index: self.secondary_oam[n + 1],
                attr: SpriteAttribute::new(self.secondary_oam[n + 2]),
                x: self.secondary_oam[n + 3],
            };
            self.sprites[i] = fetched;
        }
    }

    /// The sprite pixel candidate for column `x`: the first opaque pixel
    /// of an in-range fetched sprite, with the sprite-0-hit side effect.
    /// The color is a 6-bit NES palette index.
    /// The pattern pixel and palette color one sprite contributes at
    /// column `x` of the current line.
    #[verifier::rlimit(60)]
    fn sprite_pixel_value(&self, spr: Sprite, x: u16) -> (r: (u16, u16))
        requires
            self.wf(),
        ensures
            r == spec_sprite_pixel_value(self@, spr, x as int),
            r.1 <= 63,
    {
        proof {
            reveal(spec_sprite_scan);
        }
        let y = self.scan.line;
        let mut row = spr.row(y, self.reg.sprite_size());
        let col = spr.col(x);
        let mut tile_idx = spr.tile_index as u16;
        let base: u16 = if self.reg.controller.sprite_8x16_pixels() {
            proof {
                crate::types::lemma_and_le_mask16(tile_idx, 1);
                crate::types::lemma_and_le_mask16(tile_idx, 0xFE);
            }
            let table = (tile_idx & 1) * 0x1000;
            tile_idx = tile_idx & 0xFE;
            if 7 < row {
                tile_idx = tile_idx + 1;
                row = row.wrapping_sub(8);
            }
            table
        } else {
            self.reg.controller.base_sprite_table_addr()
        };
        let tile_addr = base.wrapping_add(tile_idx.wrapping_mul(16)).wrapping_add(row);
        let low = self.bus.read(tile_addr);
        let high = self.bus.read(tile_addr.wrapping_add(8));
        let pixel: u16 = (background::nth8(low, col) as u16) + (background::nth8(
            high,
            col,
        ) as u16) * 2;
        let addr: u16 = 0x3F10 + (spr.attr.pallete() as u16) * 4 + pixel;
        let color = self.bus.read(addr) as u16;
        proof {
            crate::types::lemma_and_le_mask8(
                self.bus@.pallete[crate::memory_map::spec_palette_index(addr)],
                0x3F,
            );
        }
        (pixel, color)
    }

    #[verifier::rlimit(100)]
    pub fn get_sprite_pixel(&mut self, x: i32, bg: background::Pixel) -> (r: sprite::Pixel)
        requires
            old(self).wf(),
            0 <= x <= 0xFFFF,
        ensures
            final(self).wf(),
            r.color <= 63,
            final(self).bus@ == old(self).bus@,
            final(self).primary_oam@ == old(self).primary_oam@,
            final(self).secondary_oam@ == old(self).secondary_oam@,
            final(self).sprites@ == old(self).sprites@,
            final(self).sprite_zero_on_line == old(self).sprite_zero_on_line,
            final(self).internal_data_bus == old(self).internal_data_bus,
            final(self).vblank_suppressed == old(self).vblank_suppressed,
            final(self).last_pixel == old(self).last_pixel,
            final(self).frames == old(self).frames,
            final(self).scan == old(self).scan,
            final(self).tile == old(self).tile,
            final(self).next_pattern == old(self).next_pattern,
            final(self).name_table_entry == old(self).name_table_entry,
            final(self).attr_table_entry == old(self).attr_table_entry,
            final(self).bg_temp_addr == old(self).bg_temp_addr,
            final(self).reg.controller == old(self).reg.controller,
            final(self).reg.mask == old(self).reg.mask,
            final(self).reg.v == old(self).reg.v,
            final(self).reg.t == old(self).reg.t,
            final(self).reg.data == old(self).reg.data,
            final(self).reg.fine_x == old(self).reg.fine_x,
            final(self).reg.write_toggle == old(self).reg.write_toggle,
            final(self).reg.object_attribute_memory_address == old(
                self,
            ).reg.object_attribute_memory_address,
            final(self).reg.status.0 == old(self).reg.status.0 || final(self).reg.status.0 == (old(
                self,
            ).reg.status.0 | STATUS_SPRITE_ZERO_HIT),
            ({
                let mask = old(self).reg.mask.0;
                let enabled_spr = mask & register::MASK_SPRITE == register::MASK_SPRITE && !(x < 8
                    && mask & register::MASK_SPRITE_LEFT != register::MASK_SPRITE_LEFT);
                let found = spec_sprite_scan(old(self)@, x as int, bg.enabled, 0);
                &&& !enabled_spr ==> (!r.enabled && *final(self) == *old(self))
                &&& enabled_spr ==> r == found.0 && final(self).reg.status.0 == (if found.1 {
                    old(self).reg.status.0 | STATUS_SPRITE_ZERO_HIT
                } else {
                    old(self).reg.status.0
                })
            }),
            r == spec_sprite_step(old(self)@, x as int, bg.enabled).0,
            final(self)@ == spec_sprite_step(old(self)@, x as int, bg.enabled).1,
    {
        proof {
            reveal(spec_sprite_scan);
        }
        if !self.reg.is_enabled_sprite(x) {
            return sprite::Pixel::zero();
        }
        let mut result = sprite::Pixel::zero();
        let mut done = false;
        let mut i: usize = 0;
        while i < 8 && !done
            invariant
                old(self).wf(),
                i <= 8,
                0 <= x <= 0xFFFF,
                self.bus@ == old(self).bus@,
                self.primary_oam@ == old(self).primary_oam@,
                self.secondary_oam@ == old(self).secondary_oam@,
                self.sprites@ == old(self).sprites@,
                self.sprite_zero_on_line == old(self).sprite_zero_on_line,
                self.internal_data_bus == old(self).internal_data_bus,
                self.vblank_suppressed == old(self).vblank_suppressed,
                self.last_pixel == old(self).last_pixel,
                self.frames == old(self).frames,
                self.scan == old(self).scan,
                self.tile == old(self).tile,
                self.next_pattern == old(self).next_pattern,
                self.name_table_entry == old(self).name_table_entry,
                self.attr_table_entry == old(self).attr_table_entry,
                self.bg_temp_addr == old(self).bg_temp_addr,
                self.reg.controller == old(self).reg.controller,
                self.reg.mask == old(self).reg.mask,
                self.reg.v == old(self).reg.v,
                self.reg.t == old(self).reg.t,
                self.reg.data == old(self).reg.data,
                self.reg.fine_x == old(self).reg.fine_x,
                self.reg.write_toggle == old(self).reg.write_toggle,
                self.reg.object_attribute_memory_address == old(
                    self,
                ).reg.object_attribute_memory_address,
                self.reg.status.0 == old(self).reg.status.0 || self.reg.status.0 == (old(
                    self,
                ).reg.status.0 | STATUS_SPRITE_ZERO_HIT),
                result.color <= 63,
                ({
                    let found = spec_sprite_scan(old(self)@, x as int, bg.enabled, 0);
                    if done {
                        result == found.0 && self.reg.status.0 == (if found.1 {
                            old(self).reg.status.0 | STATUS_SPRITE_ZERO_HIT
                        } else {
                            old(self).reg.status.0
                        })
                    } else {
                        found == spec_sprite_scan(old(self)@, x as int, bg.enabled, i as int)
                            && result == (sprite::Pixel {
                            enabled: false,
                            color: 0,
                            behide_background: true,
                        }) && self.reg.status == old(self).reg.status
                    }
                }),
            decreases 8 - i,
        {
            proof {
                reveal(spec_sprite_scan);
            }
            let sprite = self.sprites[i];
            if !sprite.valid() {
                done = true;
            } else if (sprite.x as i32) < x - 7 || x < sprite.x as i32 {
                // this sprite does not cover column x
            } else {
                let pv = self.sprite_pixel_value(sprite, x as u16);
                if pv.0 != 0 {
                    if i == 0 && self.sprite_zero_on_line && !self.reg.status.is_set(
                        STATUS_SPRITE_ZERO_HIT,
                    ) && sprite.x != 0xFF && x < 0xFF && bg.enabled {
                        proof {
                            let a = old(self).reg.status.0;
                            assert((a | 0x40u8) & 0x40u8 == 0x40u8) by (bit_vector);
                        }
                        self.reg.status.set(STATUS_SPRITE_ZERO_HIT);
                    }
                    result = sprite::Pixel {
                        enabled: true,
                        color: pv.1,
                        behide_background: sprite.attr.is_set(SPR_BEHIND_BACKGROUND),
                    };
                    done = true;
                }
            }
            i = i + 1;
        }
        proof {
            reveal(spec_sprite_scan);
        }
        result
    }

    /// Choose the final pixel from the two candidates: a transparent layer
    /// yields to the other; two opaque layers resolve by sprite priority;
    /// with both transparent the backdrop color at 0x3F00 shows.
    pub fn select_pixel(&self, bg: background::Pixel, sprite: sprite::Pixel) -> (r: u16)
        requires
            self.wf(),
            bg.color <= 63,
            sprite.color <= 63,
        ensures
            r == spec_select_pixel(self.bus@, bg, sprite),
            r <= 63,
            (!bg.enabled && !sprite.enabled) ==> r == spec_ppu_bus_read(self.bus@, 0x3F00) as u16,
            (!bg.enabled && sprite.enabled) ==> r == sprite.color,
            (bg.enabled && !sprite.enabled) ==> r == bg.color,
            (bg.enabled && sprite.enabled) ==> r == (if sprite.behide_background {
                bg.color
            } else {
                sprite.color
            }),
    {
        if !bg.enabled && !sprite.enabled {
            let c = self.bus.read(0x3F00) as u16;
            proof {
                crate::types::lemma_and_le_mask8(
                    self.bus@.pallete[crate::memory_map::spec_palette_index(0x3F00)],
                    0x3F,
                );
            }
            c
        } else if !bg.enabled {
            sprite.color
        } else if !sprite.enabled {
            bg.color
        } else {
            if sprite.behide_background {
                bg.color
            } else {
                sprite.color
            }
        }
    }
}



/// The final pixel from the two layer candidates.
pub open spec fn spec_select_pixel(
    bus: PPUBusView,
    bg: background::Pixel,
    sprite: sprite::Pixel,
) -> u16 {
    if !bg.enabled && !sprite.enabled {
        spec_ppu_bus_read(bus, 0x3F00) as u16
    } else if !bg.enabled {
        sprite.color
    } else if !sprite.enabled {
        bg.color
    } else if sprite.behide_background {
        bg.color
    } else {
        sprite.color
    }
}

/// The background sample at column `x`: the shifters' pixel and palette
/// bits, gated by the mask, with the palette color read for them.
pub open spec fn spec_background_pixel(v: PPUView, x: u16) -> background::Pixel {
    let mask = v.reg.mask.0;
    let enabled = mask & register::MASK_BACKGROUND == register::MASK_BACKGROUND && !(x < 8 && mask
        & register::MASK_BACKGROUND_LEFT != register::MASK_BACKGROUND_LEFT);
    let px = spec_tile_pixel(v.tile, v.reg.fine_x);
    let pal = spec_tile_pallete(v.tile, v.reg.fine_x);
    if enabled {
        background::Pixel {
            enabled: px != 0,
            color: spec_ppu_bus_read(v.bus, (0x3F00 + pal * 4 + px) as u16) as u16,
        }
    } else {
        background::Pixel { enabled: false, color: 0 }
    }
}

/// The PPU after the background sample: the shifters advance one bit
/// during the shift windows.
pub open spec fn spec_post_background_sample(v: PPUView) -> PPUView {
    let dot = v.scan.dot;
    let shift_window = (1 <= dot && dot <= 256) || (321 <= dot && dot <= 336);
    PPUView {
        tile: if shift_window {
            spec_shifted(v.tile)
        } else {
            v.tile
        },
        ..v
    }
}

/// The sprite sample at column `x`: the scanned pixel candidate and the
/// PPU after it, with the sprite-0-hit bit set when the scan demands it.
pub open spec fn spec_sprite_step(v: PPUView, x: int, bg_enabled: bool) -> (
    sprite::Pixel,
    PPUView,
) {
    let mask = v.reg.mask.0;
    let enabled = mask & register::MASK_SPRITE == register::MASK_SPRITE && !(x < 8 && mask
        & register::MASK_SPRITE_LEFT != register::MASK_SPRITE_LEFT);
    if !enabled {
        (sprite::Pixel { enabled: false, color: 0, behide_background: true }, v)
    } else {
        let found = spec_sprite_scan(v, x, bg_enabled, 0);
        (
            found.0,
            PPUView {
                reg: Register {
                    status: register::Status(
                        if found.1 {
                            v.reg.status.0 | STATUS_SPRITE_ZERO_HIT
                        } else {
                            v.reg.status.0
                        },
                    ),
                    ..v.reg
                },
                ..v
            },
        )
    }
}

/// One dot of the sprite sequence as a state transition: the dot-0
/// evaluation, the dot 257-320 latch, or nothing.
pub open spec fn spec_fetch_sprites(v: PPUView) -> PPUView {
    let dot = v.scan.dot;
    if dot == 0 {
        let e = spec_evaluated_sprites(
            v.primary_oam,
            v.scan.line,
            spec_sprite_height(v.reg.controller),
        );
        PPUView {
            secondary_oam: e.0,
            sprite_zero_on_line: e.1,
            reg: Register {
                status: register::Status(
                    if e.3 && spec_rendering_enabled(v.reg) {
                        v.reg.status.0 | STATUS_SPRITE_OVERFLOW
                    } else {
                        v.reg.status.0
                    },
                ),
                ..v.reg
            },
            ..v
        }
    } else if 257 <= dot && dot <= 320 {
        let i = (dot - 257) as int / 8;
        let n = i * 4;
        PPUView {
            sprites: v.sprites.update(
                i,
                Sprite {
                    y: v.secondary_oam[n],
                    tile_index: v.secondary_oam[n + 1],
                    attr: SpriteAttribute(v.secondary_oam[n + 2]),
                    x: v.secondary_oam[n + 3],
                },
            ),
            ..v
        }
    } else {
        v
    }
}

/// A whole visible-line dot: sample both layers, run both fetch pipelines
/// when rendering is enabled, emit the selected pixel for columns 0-255,
/// and advance the scan.
pub open spec fn spec_visible_dot(v: PPUView) -> PPUView {
    let x = v.scan.dot.wrapping_sub(2);
    let bg = spec_background_pixel(v, x);
    let v1 = spec_post_background_sample(v);
    let sr = spec_sprite_step(v1, x as int, bg.enabled);
    let rendering = spec_rendering_enabled(v.reg);
    let v3 = if rendering {
        spec_fetch_sprites(spec_fetch_background(sr.1))
    } else {
        sr.1
    };
    let v4 = if x < WIDTH {
        PPUView { last_pixel: spec_select_pixel(v3.bus, bg, sr.0), ..v3 }
    } else {
        v3
    };
    let fs = spec_scan_step(v4.frames, v4.scan, rendering);
    PPUView { frames: fs.0, scan: fs.1, ..v4 }
}

/// A pre-render-line dot: the fetch pipelines prime line 0 when rendering
/// is enabled, dot 1 clears the status bits, and the scan advances (with
/// the odd-frame skip at dot 339).
pub open spec fn spec_prerender_dot(v: PPUView) -> PPUView {
    let rendering = spec_rendering_enabled(v.reg);
    let v1 = if rendering {
        spec_fetch_sprites(spec_fetch_background(v))
    } else {
        v
    };
    let v2 = if v.scan.dot == 1 {
        PPUView {
            reg: Register {
                status: register::Status(
                    v1.reg.status.0 & !(STATUS_VBLANK | STATUS_SPRITE_ZERO_HIT
                        | STATUS_SPRITE_OVERFLOW),
                ),
                ..v1.reg
            },
            ..v1
        }
    } else {
        v1
    };
    let fs = spec_scan_step(v2.frames, v2.scan, rendering);
    PPUView { frames: fs.0, scan: fs.1, ..v2 }
}

/// A dot on the post-render and V-blank lines: V-blank is set at line 241
/// dot 1 unless a $2002 read suppressed it, and the scan advances.
pub open spec fn spec_blank_dot(v: PPUView) -> PPUView {
    let rendering = spec_rendering_enabled(v.reg);
    let v1 = if v.scan.line == 241 && v.scan.dot == 1 {
        PPUView {
            reg: Register {
                status: register::Status(
                    if v.vblank_suppressed {
                        v.reg.status.0
                    } else {
                        v.reg.status.0 | STATUS_VBLANK
                    },
                ),
                ..v.reg
            },
            vblank_suppressed: false,
            ..v
        }
    } else {
        v
    };
    let fs = spec_scan_step(v1.frames, v1.scan, rendering);
    PPUView { frames: fs.0, scan: fs.1, ..v1 }
}

/// One whole PPU dot as a state transition.
pub open spec fn spec_ppu_dot(v: PPUView) -> PPUView {
    if v.scan.line <= 239 {
        spec_visible_dot(v)
    } else if v.scan.line == 261 {
        spec_prerender_dot(v)
    } else {
        spec_blank_dot(v)
    }
}

// The dot-stepped state machine.
impl PPU {
    /// Run one PPU dot.
    ///
    /// Lines 0-239 are visible: the pipelines run and a pixel is selected
    /// for columns 0-255.  Line 241 dot 1 sets V-blank and yields NMI when
    /// enabled.  Line 261 is pre-render: dot 1 clears V-blank, sprite-0-hit
    /// and overflow, and on an odd rendering frame dot 340 is skipped, so
    /// that frame is one dot short.  The scan advances one dot modulo the
    /// 341 x 262 grid, and the frame counter advances when the line wraps.
    pub fn step(&mut self) -> (r: Option<Interrupt>)
        requires
            old(self).wf(),
        ensures
            final(self).wf(),
            final(self).bus@ == old(self).bus@,
            final(self).primary_oam@ == old(self).primary_oam@,
            final(self).reg.controller == old(self).reg.controller,
            final(self).reg.mask == old(self).reg.mask,
            (r is Some) <==> (old(self).scan.line == 241 && old(self).scan.dot == 1 && old(
                self,
            ).reg.controller.0 & CTRL_NMI == CTRL_NMI && !old(self).vblank_suppressed),
            r is Some ==> r == Some(Interrupt(INT_NMI)),
            old(self).scan.line == 241 && old(self).scan.dot == 1 ==> final(self).reg.status.0 == (
            if old(self).vblank_suppressed {
                old(self).reg.status.0
            } else {
                old(self).reg.status.0 | STATUS_VBLANK
            }) && final(self).vblank_suppressed == false,
            !(old(self).scan.line == 241 && old(self).scan.dot == 1)
                ==> final(self).vblank_suppressed == old(self).vblank_suppressed,
            old(self).scan.line == 261 && old(self).scan.dot == 1 ==> final(self).reg.status.0 == (
            old(self).reg.status.0 & !(STATUS_VBLANK | STATUS_SPRITE_ZERO_HIT
                | STATUS_SPRITE_OVERFLOW)),
            (final(self).frames, final(self).scan) == spec_scan_step(
                old(self).frames,
                old(self).scan,
                spec_rendering_enabled(old(self).reg),
            ),
            final(self)@ == spec_ppu_dot(old(self)@),
            ({
                let visible = old(self).scan.line <= 239 && old(self).scan.dot.wrapping_sub(2)
                    < WIDTH;
                &&& (visible ==> final(self).last_pixel <= 63)
                &&& (visible && !spec_rendering_enabled(old(self).reg) ==> final(self).last_pixel
                    == spec_ppu_bus_read(old(self).bus@, 0x3F00) as u16)
                &&& (!visible ==> final(self).last_pixel == old(self).last_pixel)
            }),
            ({
                let skipped = old(self).scan.line == 261 && old(self).scan.dot == 339
                    && spec_rendering_enabled(old(self).reg) && old(self).frames % 2 == 1;
                if skipped {
                    final(self).scan == (Scan { dot: 0, line: 0 }) && final(self).frames == old(
                        self,
                    ).frames.wrapping_add(1)
                } else {
                    final(self).scan == spec_next_scan(old(self).scan) && final(self).frames == (
                    if old(self).scan.line == 261 && old(self).scan.dot == 340 {
                        old(self).frames.wrapping_add(1)
                    } else {
                        old(self).frames
                    })
                }
            }),
    {
        let mut interrupt: Option<Interrupt> = None;
        let line = self.scan.line;
        let dot = self.scan.dot;

        if line <= 239 {
            // Visible line: sample both pipelines, advance the fetches, and
            // select the pixel for columns 0-255.
            let x = dot.wrapping_sub(2);
            let bg = self.get_background_pixel(x);
            let sprite = self.get_sprite_pixel(x as i32, bg);

            if self.reg.rendering_enabled() {
                self.fetch_background_pixel();
                self.fetch_sprite_pixel();
            }
            if x < WIDTH {
                self.last_pixel = self.select_pixel(bg, sprite);
            }
        } else if line == 261 {
            // Pre-render line: prime the pipelines for line 0.
            if self.reg.rendering_enabled() {
                self.fetch_background_pixel();
                self.fetch_sprite_pixel();
            }
            if dot == 1 {
                proof {
                    let a = old(self).reg.status.0;
                    assert(0x80u8 | 0x40u8 | 0x20u8 == 0xE0u8) by (bit_vector);
                    assert((a | 0x20u8) & !0xE0u8 == a & !0xE0u8) by (bit_vector);
                }
                self.reg.status.unset(
                    STATUS_VBLANK | STATUS_SPRITE_ZERO_HIT | STATUS_SPRITE_OVERFLOW,
                );
            }
        } else if line == 241 {
            if dot == 1 {
                if !self.vblank_suppressed {
                    self.reg.status.set(STATUS_VBLANK);
                    if self.reg.controller.is_set(CTRL_NMI) {
                        interrupt = Some(Interrupt::new(INT_NMI));
                    }
                }
                self.vblank_suppressed = false;
            }
        }
        let skip = line == 261 && dot == 339 && self.reg.rendering_enabled() && self.frames % 2
            == 1;
        if skip {
            let _u = self.scan.next_dot();
            let _u2 = self.scan.next_dot();
            self.frames = self.frames.wrapping_add(1);
        } else {
            match self.scan.next_dot() {
                ScanUpdate::Frame => {
                    self.frames = self.frames.wrapping_add(1);
                },
                _ => {},
            }
        }
        interrupt
    }
}


} // verus!

//! The two bus fabrics: the PPU's address space (pattern tables, nametables
//! with mirroring, palette RAM with its aliasing quirk), and the CPU's
//! (work RAM mirrors, the PPU register window, the cartridge).

use vstd::prelude::*;

use crate::ppu::{
    spec_post_reg_read, spec_post_reg_write, spec_reg_read_result, spec_scan_index, PPUView, PPU,
};
use crate::rom::mapper_0::{spec_prg_addr, Mapper0};
use crate::types::{Memory, Mirroring};

verus! {

/// Abstract contents of the PPU address space.
pub struct PPUBusView {
    pub name_table: Seq<u8>,
    pub pallete: Seq<u8>,
    pub chr: Seq<u8>,
    pub prg: Seq<u8>,
    pub mirroring: Mirroring,
    pub mirrored: bool,
}

/// The PPU-side bus: 2 KiB of nametable RAM behind the cartridge-declared
/// mirroring, 32 bytes of palette RAM, and the cartridge pattern tables.
pub struct PPUBus {
    pub name_table: Vec<u8>,
    pub pallete_ram_idx: Vec<u8>,
    pub mapper: Mapper0,
    pub mirroring: Mirroring,
}

impl View for PPUBus {
    type V = PPUBusView;

    open spec fn view(&self) -> PPUBusView {
        PPUBusView {
            name_table: self.name_table@,
            pallete: self.pallete_ram_idx@,
            chr: self.mapper.chr@,
            prg: self.mapper.prg@,
            mirroring: self.mirroring,
            mirrored: self.mapper.mirrored,
        }
    }
}

/// The nametable RAM cell a PPU address in 0x2000-0x2FFF selects, after
/// mirroring: vertical folds bit 11 away, horizontal folds bit 10 away.
pub open spec fn spec_nt_index(mirroring: Mirroring, addr: u16) -> int {
    match mirroring {
        Mirroring::Vertical => (addr % 0x800) as int,
        Mirroring::Horizontal => (addr % 0x400) + (if addr & 0x800 == 0x800 {
            0x400int
        } else {
            0int
        }),
    }
}

/// The palette RAM cell a PPU address in 0x3F00-0x3FFF selects: 32 bytes,
/// with every fourth entry aliased into the 0x10-0x1F half so that writes
/// to 0x3F10/14/18/1C land on 0x3F00/04/08/0C's cell.
pub open spec fn spec_palette_index(addr: u16) -> int {
    let a = (addr % 32) as int;
    if a % 4 == 0 {
        if a < 16 {
            a + 16
        } else {
            a
        }
    } else {
        a
    }
}

/// What a PPU bus read returns.  Palette reads are 6-bit.
pub open spec fn spec_ppu_bus_read(v: PPUBusView, addr: u16) -> u8 {
    if addr <= 0x1FFF {
        v.chr[addr as int]
    } else if addr <= 0x2FFF {
        v.name_table[spec_nt_index(v.mirroring, addr)]
    } else if addr <= 0x3EFF {
        v.name_table[spec_nt_index(v.mirroring, (addr - 0x1000) as u16)]
    } else if addr <= 0x3FFF {
        v.pallete[spec_palette_index(addr)] & 0x3F
    } else {
        0
    }
}

/// The PPU bus contents after a write.
pub open spec fn spec_ppu_bus_write(v: PPUBusView, addr: u16, value: u8) -> PPUBusView {
    if addr <= 0x1FFF {
        PPUBusView { chr: if addr <= 0x1FFF {
            v.chr.update(addr as int, value)
        } else {
            v.chr
        }, ..v }
    } else if addr <= 0x2FFF {
        PPUBusView { name_table: v.name_table.update(spec_nt_index(v.mirroring, addr), value), ..v }
    } else if addr <= 0x3EFF {
        PPUBusView {
            name_table: v.name_table.update(
                spec_nt_index(v.mirroring, (addr - 0x1000) as u16),
                value,
            ),
            ..v
        }
    } else if addr <= 0x3FFF {
        PPUBusView { pallete: v.pallete.update(spec_palette_index(addr), value), ..v }
    } else {
        v
    }
}

impl PPUBus {
    pub open spec fn wf(&self) -> bool {
        &&& self.name_table@.len() == 0x800
        &&& self.pallete_ram_idx@.len() == 0x20
        &&& self.mapper.wf()
    }

    pub fn new(mapper: Mapper0) -> (r: PPUBus)
        requires
            mapper.wf(),
        ensures
            r.wf(),
            r.mapper.prg@ == mapper.prg@,
            r.mapper.chr@ == mapper.chr@,
            r.mirroring == mapper.mirroring,
            forall|i: int| 0 <= i < 0x800 ==> r.name_table@[i] == 0u8,
            forall|i: int| 0 <= i < 0x20 ==> r.pallete_ram_idx@[i] == 0u8,
    {
        let mirroring = mapper.mirroring();
        PPUBus {
            name_table: crate::types::zero_vec(0x800),
            pallete_ram_idx: crate::types::zero_vec(0x20),
            mapper,
            mirroring,
        }
    }

    /// The nametable cell `addr` selects under this cartridge's mirroring.
    pub fn to_name_table_address(&self, base: u16) -> (r: usize)
        ensures
            r == spec_nt_index(self.mirroring, base),
            r < 0x800,
    {
        match self.mirroring {
            Mirroring::Vertical => (base % 0x800) as usize,
            Mirroring::Horizontal => {
                let low = (base % 0x400) as usize;
                if base & 0x800 == 0x800 {
                    low + 0x400
                } else {
                    low
                }
            },
        }
    }

    /// The palette cell `addr` selects, honoring the aliasing quirk.
    pub fn to_pallete_address(&self, base: u16) -> (r: usize)
        ensures
            r == spec_palette_index(base),
            r < 0x20,
    {
        let a = (base % 32) as usize;
        if a % 4 == 0 {
            if a < 16 {
                a + 16
            } else {
                a
            }
        } else {
            a
        }
    }

    /// A PPU bus read; it has no side effects.
    pub fn read(&self, addr: u16) -> (r: u8)
        requires
            self.wf(),
        ensures
            r == spec_ppu_bus_read(self@, addr),
    {
        if addr <= 0x1FFF {
            self.mapper.read(addr)
        } else if addr <= 0x2FFF {
            self.name_table[self.to_name_table_address(addr)]
        } else if addr <= 0x3EFF {
            self.name_table[self.to_name_table_address(addr - 0x1000)]
        } else if addr <= 0x3FFF {
            self.pallete_ram_idx[self.to_pallete_address(addr)] & 0x3F
        } else {
            0
        }
    }

    pub fn write(&mut self, addr: u16, value: u8)
        requires
            old(self).wf(),
        ensures
            final(self).wf(),
            final(self)@ == spec_ppu_bus_write(old(self)@, addr, value),
            final(self).mirroring == old(self).mirroring,
            final(self).mapper.mirrored == old(self).mapper.mirrored,
            final(self).mapper.prg@ == old(self).mapper.prg@,
    {
        if addr <= 0x1FFF {
            self.mapper.write(addr, value);
        } else if addr <= 0x2FFF {
            let i = self.to_name_table_address(addr);
            self.name_table[i] = value;
        } else if addr <= 0x3EFF {
            let i = self.to_name_table_address(addr - 0x1000);
            self.name_table[i] = value;
        } else if addr <= 0x3FFF {
            let i = self.to_pallete_address(addr);
            self.pallete_ram_idx[i] = value;
        }
    }
}


/// Abstract contents of the CPU address space.
pub struct CPUBusView {
    pub wram: Seq<u8>,
    pub prg: Seq<u8>,
    pub chr: Seq<u8>,
    pub prg_mirrored: bool,
    pub ppu: PPUView,
}

/// The CPU-side bus: 2 KiB of work RAM mirrored through 0x1FFF, the PPU
/// register window mirrored through 0x3FFF, the OAM DMA port at 0x4014,
/// and the cartridge from 0x4020 up.
pub struct CPUBus {
    pub wram: Vec<u8>,
    pub mapper: Mapper0,
    pub ppu: PPU,
}

impl View for CPUBus {
    type V = CPUBusView;

    open spec fn view(&self) -> CPUBusView {
        CPUBusView {
            wram: self.wram@,
            prg: self.mapper.prg@,
            chr: self.mapper.chr@,
            prg_mirrored: self.mapper.mirrored,
            ppu: self.ppu@,
        }
    }
}

/// The PPU register port an address in 0x2000-0x3FFF selects.
pub open spec fn spec_to_ppu_addr(addr: u16) -> u16 {
    (0x2000 + addr % 8) as u16
}

/// The PPU register port an address in 0x2000-0x3FFF selects: the window
/// repeats every eight bytes.
pub fn to_ppu_addr(addr: u16) -> (r: u16)
    ensures
        r == spec_to_ppu_addr(addr),
{
    0x2000 + addr % 8
}

/// The byte the page `page` of the CPU address space holds at offset `i`,
/// as OAM DMA reads it (without register side effects).
pub open spec fn spec_cpu_bus_peek(m: CPUBusView, addr: u16) -> u8 {
    if addr <= 0x1FFF {
        m.wram[(addr % 0x800) as int]
    } else if addr <= 0x3FFF {
        spec_reg_read_result(m.ppu, spec_to_ppu_addr(addr))
    } else if 0x8000 <= addr {
        m.prg[spec_prg_addr(m.prg_mirrored, addr) as int]
    } else {
        0
    }
}

/// Primary OAM after a DMA from CPU page `page`: 256 bytes copied from
/// `page << 8` upward.
pub open spec fn spec_dma_oam(m: CPUBusView, page: u8) -> Seq<u8> {
    Seq::new(256, |i: int| spec_cpu_bus_peek(m, (((page as int) * 256) + i) as u16))
}

impl CPUBus {
    pub fn new(mapper: Mapper0, ppu: PPU) -> (r: CPUBus)
        requires
            mapper.wf(),
            ppu.wf(),
        ensures
            r.inv(),
            r.mapper.prg@ == mapper.prg@,
            r.mapper.mirrored == mapper.mirrored,
            r.ppu@ == ppu@,
            forall|i: int| 0 <= i < 0x800 ==> r.wram@[i] == 0u8,
    {
        CPUBus { wram: crate::types::zero_vec(0x800), mapper, ppu }
    }
}

impl Memory for CPUBus {
    open spec fn inv(&self) -> bool {
        &&& self.wram@.len() == 0x800
        &&& self.mapper.wf()
        &&& self.ppu.wf()
    }

    open spec fn v_read_result(m: CPUBusView, addr: u16) -> u8 {
        spec_cpu_bus_peek(m, addr)
    }

    open spec fn v_post_read(m: CPUBusView, addr: u16) -> CPUBusView {
        if 0x2000 <= addr && addr <= 0x3FFF {
            CPUBusView { ppu: spec_post_reg_read(m.ppu, spec_to_ppu_addr(addr)), ..m }
        } else {
            m
        }
    }

    open spec fn v_post_write(m: CPUBusView, addr: u16, value: u8) -> CPUBusView {
        if addr <= 0x1FFF {
            CPUBusView { wram: m.wram.update((addr % 0x800) as int, value), ..m }
        } else if addr <= 0x3FFF {
            CPUBusView { ppu: spec_post_reg_write(m.ppu, spec_to_ppu_addr(addr), value), ..m }
        } else if addr == 0x4014 {
            CPUBusView { ppu: PPUView { primary_oam: spec_dma_oam(m, value), ..m.ppu }, ..m }
        } else {
            m
        }
    }

    open spec fn v_clock(m: CPUBusView) -> int {
        m.ppu.frames * 89342 + spec_scan_index(m.ppu.scan)
    }

    proof fn clock_stable(m: CPUBusView, addr: u16, value: u8) {
    }

    fn read(&mut self, addr: u16) -> (r: u8) {
        if addr <= 0x1FFF {
            self.wram[(addr % 0x800) as usize]
        } else if addr <= 0x3FFF {
            self.ppu.read_register(to_ppu_addr(addr))
        } else if 0x4020 <= addr {
            self.mapper.read(addr)
        } else {
            0
        }
    }

    fn write(&mut self, addr: u16, value: u8) {
        if addr <= 0x1FFF {
            let i = (addr % 0x800) as usize;
            self.wram[i] = value;
        } else if addr <= 0x3FFF {
            self.ppu.write_register(to_ppu_addr(addr), value);
        } else if addr == 0x4014 {
            // OAM DMA: copy the 256-byte CPU page into primary OAM.  The
            // source is snapshotted first, so a page that aliases the PPU
            // registers reads the pre-transfer state.
            let base: u16 = (value as u16) * 256;
            let mut buf: Vec<u8> = Vec::new();
            let mut i: usize = 0;
            while i < 256
                invariant
                    self.inv(),
                    self == old(self),
                    i <= 256,
                    base == (value as int) * 256,
                    buf@.len() == i,
                    forall|j: int|
                        0 <= j < i ==> buf@[j] == spec_cpu_bus_peek(
                            old(self)@,
                            ((value as int) * 256 + j) as u16,
                        ),
                decreases 256 - i,
            {
                let byte = self.peek(base + i as u16);
                buf.push(byte);
                i = i + 1;
            }
            let mut k: usize = 0;
            while k < 256
                invariant
                    old(self).inv(),
                    k <= 256,
                    buf@.len() == 256,
                    forall|j: int|
                        0 <= j < 256 ==> buf@[j] == spec_cpu_bus_peek(
                            old(self)@,
                            ((value as int) * 256 + j) as u16,
                        ),
                    self.wram@ == old(self).wram@,
                    self.mapper.prg@ == old(self).mapper.prg@,
                    self.mapper.chr@ == old(self).mapper.chr@,
                    self.mapper.mirrored == old(self).mapper.mirrored,
                    self.mapper.mirroring == old(self).mapper.mirroring,
                    self.ppu@ == (PPUView { primary_oam: self.ppu@.primary_oam, ..old(self).ppu@ }),
                    self.ppu.primary_oam@.len() == 256,
                    forall|j: int| 0 <= j < k ==> self.ppu.primary_oam@[j] == buf@[j],
                    forall|j: int|
                        k <= j < 256 ==> self.ppu.primary_oam@[j] == old(self).ppu.primary_oam@[j],
                decreases 256 - k,
            {
                self.ppu.primary_oam[k] = buf[k];
                k = k + 1;
            }
            proof {
                assert forall|j: int| 0 <= j < 256 implies self.ppu.primary_oam@[j] == spec_dma_oam(
                    old(self)@,
                    value,
                )[j] by {
                    assert(self.ppu.primary_oam@[j] == buf@[j]);
                    assert(buf@[j] == spec_cpu_bus_peek(
                        old(self)@,
                        ((value as int) * 256 + j) as u16,
                    ));
                    assert(spec_dma_oam(old(self)@, value)[j] == spec_cpu_bus_peek(
                        old(self)@,
                        (((value as int) * 256) + j) as u16,
                    ));
                }
                assert(self.ppu@.primary_oam =~= spec_dma_oam(old(self)@, value));
                assert(self@ =~= Self::v_post_write(old(self)@, addr, value));
            }
        } else if 0x4020 <= addr {
            self.mapper.write(addr, value);
        }
    }

    fn peek(&self, addr: u16) -> (r: u8) {
        if addr <= 0x1FFF {
            self.wram[(addr % 0x800) as usize]
        } else if addr <= 0x3FFF {
            self.ppu.peek_register(to_ppu_addr(addr))
        } else if 0x8000 <= addr {
            self.mapper.read(addr)
        } else {
            0
        }
    }
}

/// A value pushed at stack pointer `s` is read back by the following pull,
/// and the stack pointer returns to its pre-sequence value: the stack page
/// lives in work RAM, where a read returns the last write.
pub proof fn lemma_push_pull_round_trip(m: CPUBusView, s: u8, v: u8)
    requires
        m.wram.len() == 0x800,
    ensures
        ({
            let pushed = <CPUBus as Memory>::v_post_write(m, crate::cpu::spec_stack_addr(s), v);
            let s_after_push = s.wrapping_sub(1);
            let s_after_pull = s_after_push.wrapping_add(1);
            <CPUBus as Memory>::v_read_result(
                pushed,
                crate::cpu::spec_stack_addr(s_after_pull),
            ) == v && s_after_pull == s
        }),
{
}


} // verus!

verus! {

/// PHP then PLP through the real stack: the byte PHP pushes is the byte
/// PLP pulls back, and the restored status keeps every flag except B, which
/// comes back cleared, and R, which comes back set.
pub proof fn lemma_php_plp_through_stack(m: CPUBusView, s: u8, p: u8)
    requires
        m.wram.len() == 0x800,
    ensures
        ({
            let pushed_bus = <CPUBus as Memory>::v_post_write(
                m,
                crate::cpu::spec_stack_addr(s),
                crate::cpu::status::spec_php_pushed(p),
            );
            let pulled = <CPUBus as Memory>::v_read_result(
                pushed_bus,
                crate::cpu::spec_stack_addr(s.wrapping_sub(1).wrapping_add(1)),
            );
            let restored = crate::cpu::status::spec_plp_restored(pulled);
            &&& restored & crate::cpu::status::FLAG_N == p & crate::cpu::status::FLAG_N
            &&& restored & crate::cpu::status::FLAG_V == p & crate::cpu::status::FLAG_V
            &&& restored & crate::cpu::status::FLAG_D == p & crate::cpu::status::FLAG_D
            &&& restored & crate::cpu::status::FLAG_I == p & crate::cpu::status::FLAG_I
            &&& restored & crate::cpu::status::FLAG_Z == p & crate::cpu::status::FLAG_Z
            &&& restored & crate::cpu::status::FLAG_C == p & crate::cpu::status::FLAG_C
            &&& restored & crate::cpu::status::FLAG_B == 0
            &&& restored & crate::cpu::status::FLAG_R == crate::cpu::status::FLAG_R
        }),
{
    lemma_push_pull_round_trip(m, s, crate::cpu::status::spec_php_pushed(p));
    crate::cpu::status::lemma_php_plp_preserves_flags(p);
}

/// The CPU bus clock determines the PPU's frame counter and scan position:
/// two bus states with equal clocks agree on both.
pub proof fn lemma_clock_components(f1: u64, s1: crate::ppu::Scan, f2: u64, s2: crate::ppu::Scan)
    requires
        s1.dot <= 340 && s1.line <= 261,
        s2.dot <= 340 && s2.line <= 261,
        f1 * 89342 + spec_scan_index(s1) == f2 * 89342 + spec_scan_index(s2),
    ensures
        f1 == f2,
        s1 == s2,
{
    assert(0 <= spec_scan_index(s1) < 89342 && 0 <= spec_scan_index(s2) < 89342) by {
        crate::ppu::lemma_scan_advances_one_dot(s1);
        crate::ppu::lemma_scan_advances_one_dot(s2);
    }
    assert(f1 == f2 && spec_scan_index(s1) == spec_scan_index(s2)) by (nonlinear_arith)
        requires
            0 <= spec_scan_index(s1) < 89342,
            0 <= spec_scan_index(s2) < 89342,
            f1 * 89342 + spec_scan_index(s1) == f2 * 89342 + spec_scan_index(s2),
    ;
    assert(s1.line == s2.line && s1.dot == s2.dot) by (nonlinear_arith)
        requires
            s1.dot <= 340 && s2.dot <= 340,
            spec_scan_index(s1) == spec_scan_index(s2),
            spec_scan_index(s1) == s1.line * 341 + s1.dot,
            spec_scan_index(s2) == s2.line * 341 + s2.dot,
    ;
}

} // verus!

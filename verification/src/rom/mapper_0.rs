//! Mapper 0 (NROM): 16 or 32 KiB of PRG ROM mirrored from 0x8000, and
//! 8 KiB of CHR ROM or RAM.

use vstd::prelude::*;

use super::nesfile::{NESFile, NESFileHeader, CHR_BANK_SIZE, PRG_BANK_SIZE};
use crate::types::{zero_vec, Mirroring};

verus! {

/// The NROM cartridge: PRG, CHR, and the header-declared mirroring.
pub struct Mapper0 {
    pub prg: Vec<u8>,
    pub chr: Vec<u8>,
    pub mirroring: Mirroring,
    /// 16 KiB PRG is mirrored across 0x8000-0xFFFF.
    pub mirrored: bool,
}

impl Mapper0 {
    /// Sizes a loaded cartridge always has.
    pub open spec fn wf(&self) -> bool {
        &&& self.chr@.len() >= CHR_BANK_SIZE
        &&& if self.mirrored {
            self.prg@.len() == PRG_BANK_SIZE
        } else {
            self.prg@.len() >= 2 * PRG_BANK_SIZE
        }
    }

    pub fn new(rom: NESFile) -> (r: Mapper0)
        requires
            rom.wf(),
        ensures
            r.wf(),
            r.prg@ == rom.row_data@.subrange(
                16,
                16 + rom.header.prg_size_of_unit * PRG_BANK_SIZE,
            ),
            r.mirroring == (if rom.header.flags6 & 1 == 0 {
                Mirroring::Horizontal
            } else {
                Mirroring::Vertical
            }),
            r.mirrored == (rom.header.prg_size_of_unit == 1),
            ({
                let first = 16 + rom.header.prg_size_of_unit * PRG_BANK_SIZE;
                if rom.header.chr_size_of_unit > 0 {
                    r.chr@ == rom.row_data@.subrange(
                        first as int,
                        first + rom.header.chr_size_of_unit * CHR_BANK_SIZE,
                    )
                } else {
                    r.chr@.len() == CHR_BANK_SIZE && (forall|i: int|
                        0 <= i < CHR_BANK_SIZE ==> r.chr@[i] == 0u8)
                }
            }),
    {
        let (prg, next) = rom.read_prg_rom(NESFileHeader::size(), PRG_BANK_SIZE);
        let chr = match rom.read_chr_rom(next, CHR_BANK_SIZE) {
            Some((chr, _)) => chr,
            None => zero_vec(CHR_BANK_SIZE),
        };
        let mirrored = prg.len() == PRG_BANK_SIZE;
        let mirroring = rom.mirroring();
        Mapper0 { prg, chr, mirroring, mirrored }
    }

    /// The PRG index a CPU address in 0x8000-0xFFFF selects.
    pub fn prg_addr(&self, base: u16) -> (r: usize)
        ensures
            r == spec_prg_addr(self.mirrored, base),
    {
        let addr: u16 = if self.mirrored {
            base % 0x4000
        } else {
            base.wrapping_sub(0x8000)
        };
        addr as usize
    }

    /// What the cartridge drives for a read: CHR at 0x0000-0x1FFF, PRG at
    /// 0x8000-0xFFFF, zero elsewhere.
    pub fn read(&self, addr: u16) -> (r: u8)
        requires
            self.wf(),
        ensures
            r == spec_mapper_read(self, addr),
    {
        if addr <= 0x1FFF {
            self.chr[addr as usize]
        } else if 0x8000 <= addr {
            self.prg[self.prg_addr(addr)]
        } else {
            0
        }
    }

    /// Writes reach only CHR RAM; everything else is dropped.
    pub fn write(&mut self, addr: u16, value: u8)
        requires
            old(self).wf(),
        ensures
            final(self).wf(),
            final(self).chr@ == spec_mapper_write_chr(old(self), addr, value),
            final(self).prg == old(self).prg,
            final(self).mirroring == old(self).mirroring,
            final(self).mirrored == old(self).mirrored,
    {
        if addr <= 0x1FFF {
            self.chr[addr as usize] = value;
        }
    }

    pub fn mirroring(&self) -> (r: Mirroring)
        ensures
            r == self.mirroring,
    {
        self.mirroring
    }
}

/// The PRG index a CPU address selects: modulo one bank when mirrored,
/// offset from 0x8000 otherwise.
pub open spec fn spec_prg_addr(mirrored: bool, base: u16) -> usize {
    if mirrored {
        (base % 0x4000) as usize
    } else {
        base.wrapping_sub(0x8000) as usize
    }
}

/// The byte a cartridge read returns.
pub open spec fn spec_mapper_read(m: &Mapper0, addr: u16) -> u8 {
    if addr <= 0x1FFF {
        m.chr@[addr as int]
    } else if 0x8000 <= addr {
        m.prg@[spec_prg_addr(m.mirrored, addr) as int]
    } else {
        0
    }
}

/// The CHR contents after a cartridge write.
pub open spec fn spec_mapper_write_chr(m: &Mapper0, addr: u16, value: u8) -> Seq<u8> {
    if addr <= 0x1FFF {
        m.chr@.update(addr as int, value)
    } else {
        m.chr@
    }
}

} // verus!

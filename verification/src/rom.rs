//! Cartridge loading: the iNES container, the mapper contract, and the one
//! required mapper (NROM).

pub mod mapper_0;
pub mod nesfile;

use vstd::prelude::*;

use crate::types::Mirroring;
use mapper_0::{spec_mapper_read, spec_mapper_write_chr, Mapper0};
use nesfile::NESFile;

verus! {

/// Why a cartridge image was rejected at load time.
#[derive(Debug, Copy, Clone, PartialEq, Eq, Structural)]
pub enum LoadError {
    /// The iNES header is malformed or the file is truncated.
    InvalidHeader,
    /// The image selects a mapper this core does not implement.
    UnsupportedMapper(u8),
}

/// The cartridge-side decoder the core drives: CPU 0x4020-0xFFFF and PPU
/// 0x0000-0x1FFF are handed to it.
pub trait Mapper: Sized {
    /// Invariant all states of the mapper satisfy.
    spec fn minv(&self) -> bool;

    /// The byte a read returns.
    spec fn spec_read(&self, addr: u16) -> u8;

    /// The nametable arrangement the cartridge declares.
    spec fn spec_mirroring(&self) -> Mirroring;

    /// How a write relates the old state to the new.
    spec fn spec_written(&self, post: &Self, addr: u16, value: u8) -> bool;

    fn read(&self, addr: u16) -> (r: u8)
        requires
            self.minv(),
        ensures
            r == self.spec_read(addr),
    ;

    fn write(&mut self, addr: u16, value: u8)
        requires
            old(self).minv(),
        ensures
            final(self).minv(),
            old(self).spec_written(final(self), addr, value),
    ;

    fn mirroring(&self) -> (r: Mirroring)
        requires
            self.minv(),
        ensures
            r == self.spec_mirroring(),
    ;
}

impl Mapper for Mapper0 {
    open spec fn minv(&self) -> bool {
        self.wf()
    }

    open spec fn spec_read(&self, addr: u16) -> u8 {
        spec_mapper_read(self, addr)
    }

    open spec fn spec_mirroring(&self) -> Mirroring {
        self.mirroring
    }

    /// Writes reach only CHR RAM; PRG and the mirroring are fixed.
    open spec fn spec_written(&self, post: &Self, addr: u16, value: u8) -> bool {
        &&& post.chr@ == spec_mapper_write_chr(self, addr, value)
        &&& post.prg@ == self.prg@
        &&& post.mirroring == self.mirroring
        &&& post.mirrored == self.mirrored
    }

    fn read(&self, addr: u16) -> (r: u8) {
        Mapper0::read(self, addr)
    }

    fn write(&mut self, addr: u16, value: u8) {
        Mapper0::write(self, addr, value);
    }

    fn mirroring(&self) -> (r: Mirroring) {
        Mapper0::mirroring(self)
    }
}

/// A loaded cartridge.
pub struct ROM {
    pub mapper: Mapper0,
}

impl ROM {
    /// Build a cartridge from a raw iNES image.  Returns `InvalidHeader`
    /// for a malformed or truncated image, `UnsupportedMapper(n)` when the
    /// image selects any mapper but 0; otherwise the cartridge holds the
    /// image's PRG banks, its CHR banks (or 8 KiB of zeroed CHR RAM), and
    /// the mirroring flags 6 bit 0 declares.
    pub fn load(data: Vec<u8>) -> (r: Result<ROM, LoadError>)
        ensures
            r is Ok ==> r.unwrap().mapper.wf(),
            r is Ok ==> ({
                let m = r.unwrap().mapper;
                let units = data@[4] as int;
                let chr_units = data@[5] as int;
                let prg_end = 16 + units * nesfile::PRG_BANK_SIZE;
                &&& m.prg@ == data@.subrange(16, prg_end)
                &&& m.mirrored == (data@[4] == 1)
                &&& m.mirroring == (if data@[6] & 1 == 0 {
                    Mirroring::Horizontal
                } else {
                    Mirroring::Vertical
                })
                &&& (chr_units > 0 ==> m.chr@ == data@.subrange(
                    prg_end,
                    prg_end + chr_units * nesfile::CHR_BANK_SIZE,
                ))
                &&& (chr_units == 0 ==> m.chr@.len() == nesfile::CHR_BANK_SIZE && (forall|i: int|
                    0 <= i < nesfile::CHR_BANK_SIZE ==> m.chr@[i] == 0u8))
            }),
            data@.len() >= 16 ==> ({
                let valid = data@[0] == 0x4E && data@[1] == 0x45 && data@[2] == 0x53 && data@[3]
                    == 0x1A && data@[11] == 0 && data@[12] == 0 && data@[13] == 0 && data@[14] == 0
                    && data@[15] == 0 && data@[4] != 0 && 16 + data@[4]
                    * nesfile::PRG_BANK_SIZE + data@[5] * nesfile::CHR_BANK_SIZE <= data@.len();
                let mapper_no = (data@[7] & 0xF0) | (data@[6] as u8 >> 4);
                if !valid {
                    r == Result::<ROM, LoadError>::Err(LoadError::InvalidHeader)
                } else if mapper_no != 0 {
                    r == Result::<ROM, LoadError>::Err(LoadError::UnsupportedMapper(mapper_no))
                } else {
                    r is Ok
                }
            }),
            data@.len() < 16 ==> r == Result::<ROM, LoadError>::Err(LoadError::InvalidHeader),
    {
        let f = match NESFile::from_bytes(data) {
            Ok(f) => f,
            Err(e) => {
                return Err(e);
            },
        };
        let mapper_no = f.mapper_no();
        if mapper_no == 0 {
            Ok(ROM { mapper: Mapper0::new(f) })
        } else {
            Err(LoadError::UnsupportedMapper(mapper_no))
        }
    }
}

} // verus!

//! The iNES container: a 16-byte header followed by PRG banks of 16 KiB
//! and CHR banks of 8 KiB.

use vstd::prelude::*;

use crate::rom::LoadError;
use crate::types::{lemma_and_le_mask8, Mirroring};

verus! {

/// Size of a PRG bank in bytes.
pub const PRG_BANK_SIZE: usize = 0x4000;

/// Size of a CHR bank in bytes.
pub const CHR_BANK_SIZE: usize = 0x2000;

/// The parsed 16-byte iNES header.
#[derive(Debug)]
pub struct NESFileHeader {
    pub magic: [u8; 4],
    pub prg_size_of_unit: usize,
    pub chr_size_of_unit: usize,
    pub flags6: u8,
    pub flags7: u8,
    pub _flags8: u8,
    pub _flags9: u8,
    pub _flags10: u8,
    pub padding: [u8; 5],
}

impl NESFileHeader {
    /// Byte count of the header.
    pub fn size() -> (r: usize)
        ensures
            r == 16,
    {
        16
    }

    pub fn parse(bytes: &[u8; 16]) -> (r: NESFileHeader)
        ensures
            r.magic@ =~= bytes@.subrange(0, 4),
            r.prg_size_of_unit == bytes@[4],
            r.chr_size_of_unit == bytes@[5],
            r.flags6 == bytes@[6],
            r.flags7 == bytes@[7],
            r._flags8 == bytes@[8],
            r._flags9 == bytes@[9],
            r._flags10 == bytes@[10],
            r.padding@ =~= bytes@.subrange(11, 16),
    {
        NESFileHeader {
            magic: [bytes[0], bytes[1], bytes[2], bytes[3]],
            prg_size_of_unit: bytes[4] as usize,
            chr_size_of_unit: bytes[5] as usize,
            flags6: bytes[6],
            flags7: bytes[7],
            _flags8: bytes[8],
            _flags9: bytes[9],
            _flags10: bytes[10],
            padding: [bytes[11], bytes[12], bytes[13], bytes[14], bytes[15]],
        }
    }

    /// The header is valid: the magic `NES\x1A` and five zero padding bytes.
    pub fn valid(&self) -> (r: bool)
        ensures
            r == self.spec_valid(),
    {
        self.magic[0] == 0x4E && self.magic[1] == 0x45 && self.magic[2] == 0x53 && self.magic[3]
            == 0x1A && self.padding[0] == 0 && self.padding[1] == 0 && self.padding[2] == 0
            && self.padding[3] == 0 && self.padding[4] == 0
    }

    pub open spec fn spec_valid(&self) -> bool {
        self.magic@[0] == 0x4E && self.magic@[1] == 0x45 && self.magic@[2] == 0x53 && self.magic@[3]
            == 0x1A && self.padding@[0] == 0 && self.padding@[1] == 0 && self.padding@[2] == 0
            && self.padding@[3] == 0 && self.padding@[4] == 0
    }
}

/// A whole iNES image held in memory.
#[derive(Debug)]
pub struct NESFile {
    pub header: NESFileHeader,
    pub row_data: Vec<u8>,
}

impl NESFile {
    /// The file is long enough for the banks its header declares.
    pub open spec fn wf(&self) -> bool {
        &&& self.header.spec_valid()
        &&& self.header.prg_size_of_unit <= 255
        &&& self.header.chr_size_of_unit <= 255
        &&& 1 <= self.header.prg_size_of_unit
        &&& 16 + self.header.prg_size_of_unit * PRG_BANK_SIZE + self.header.chr_size_of_unit
            * CHR_BANK_SIZE <= self.row_data@.len()
    }

    /// Parse an image from raw bytes.  Returns `InvalidHeader` when the
    /// magic or padding is wrong, the PRG bank count is zero, or the file is
    /// shorter than the banks the header declares.
    pub fn from_bytes(data: Vec<u8>) -> (r: Result<NESFile, LoadError>)
        ensures
            r is Ok ==> r.unwrap().wf() && r.unwrap().row_data@ == data@,
            r is Ok ==> data@.len() >= 16 && r.unwrap().header.prg_size_of_unit == data@[4]
                && r.unwrap().header.chr_size_of_unit == data@[5] && r.unwrap().header.flags6
                == data@[6] && r.unwrap().header.flags7 == data@[7],
            r is Err ==> r.unwrap_err() == LoadError::InvalidHeader,
            data@.len() >= 16 ==> ({
                let h = [
                    data@[0],
                    data@[1],
                    data@[2],
                    data@[3],
                    data@[11],
                    data@[12],
                    data@[13],
                    data@[14],
                    data@[15],
                ];
                (r is Err) == (h[0] != 0x4E || h[1] != 0x45 || h[2] != 0x53 || h[3] != 0x1A || h[4]
                    != 0 || h[5] != 0 || h[6] != 0 || h[7] != 0 || h[8] != 0 || data@[4] == 0 || 16
                    + data@[4] * PRG_BANK_SIZE + data@[5] * CHR_BANK_SIZE > data@.len())
            }),
            data@.len() < 16 ==> r is Err,
    {
        if data.len() < 16 {
            return Err(LoadError::InvalidHeader);
        }
        let header_bytes: [u8; 16] = [
            data[0],
            data[1],
            data[2],
            data[3],
            data[4],
            data[5],
            data[6],
            data[7],
            data[8],
            data[9],
            data[10],
            data[11],
            data[12],
            data[13],
            data[14],
            data[15],
        ];
        let header = NESFileHeader::parse(&header_bytes);
        if !header.valid() {
            return Err(LoadError::InvalidHeader);
        }
        if header.prg_size_of_unit == 0 {
            return Err(LoadError::InvalidHeader);
        }
        let need: usize = 16 + header.prg_size_of_unit * PRG_BANK_SIZE + header.chr_size_of_unit
            * CHR_BANK_SIZE;
        if need > data.len() {
            return Err(LoadError::InvalidHeader);
        }
        Ok(NESFile { header, row_data: data })
    }

    /// Copy `count` bytes starting at `first`; returns them and the offset
    /// just past them.
    pub fn read_bytes(&self, first: usize, count: usize) -> (r: (Vec<u8>, usize))
        requires
            first + count <= self.row_data.len(),
        ensures
            r.0@ == self.row_data@.subrange(first as int, (first + count) as int),
            r.1 == first + count,
    {
        let len = self.row_data.len();
        let mut v: Vec<u8> = Vec::new();
        let mut i: usize = 0;
        while i < count
            invariant
                i <= count,
                first + count <= len,
                len == self.row_data.len(),
                v@.len() == i,
                forall|j: int| 0 <= j < i ==> v@[j] == self.row_data@[first + j],
            decreases count - i,
        {
            v.push(self.row_data[first + i]);
            i = i + 1;
        }
        proof {
            assert(v@ =~= self.row_data@.subrange(first as int, (first + count) as int));
        }
        (v, first + count)
    }

    /// The PRG banks, starting at `first`.
    pub fn read_prg_rom(&self, first: usize, rom_size: usize) -> (r: (Vec<u8>, usize))
        requires
            first + self.header.prg_size_of_unit * rom_size <= self.row_data.len(),
        ensures
            r.0@ == self.row_data@.subrange(
                first as int,
                first + self.header.prg_size_of_unit * rom_size,
            ),
            r.1 == first + self.header.prg_size_of_unit * rom_size,
    {
        self.read_bytes(first, self.header.prg_size_of_unit * rom_size)
    }

    /// The CHR banks starting at `first`, or `None` when the cartridge has
    /// CHR RAM instead.
    pub fn read_chr_rom(&self, first: usize, rom_size: usize) -> (r: Option<(Vec<u8>, usize)>)
        requires
            self.header.chr_size_of_unit > 0 ==> first + self.header.chr_size_of_unit * rom_size
                <= self.row_data.len(),
        ensures
            (r is None) == (self.header.chr_size_of_unit == 0),
            r is Some ==> r.unwrap().0@ == self.row_data@.subrange(
                first as int,
                first + self.header.chr_size_of_unit * rom_size,
            ),
    {
        if self.header.chr_size_of_unit == 0 {
            None
        } else {
            Some(self.read_bytes(first, self.header.chr_size_of_unit * rom_size))
        }
    }

    /// The nametable mirroring flags 6 bit 0 selects.
    pub fn mirroring(&self) -> (r: Mirroring)
        ensures
            r == (if self.header.flags6 & 1 == 0 {
                Mirroring::Horizontal
            } else {
                Mirroring::Vertical
            }),
    {
        if self.header.flags6 & 1 == 0 {
            Mirroring::Horizontal
        } else {
            Mirroring::Vertical
        }
    }

    /// The mapper number: high nibble of flags 7, high nibble of flags 6.
    pub fn mapper_no(&self) -> (r: u8)
        ensures
            r == ((self.header.flags7 & 0xF0) | (self.header.flags6 >> 4)),
    {
        proof {
            lemma_and_le_mask8(self.header.flags7, 0xF0);
        }
        (self.header.flags7 & 0xF0) | (self.header.flags6 >> 4)
    }
}

} // verus!

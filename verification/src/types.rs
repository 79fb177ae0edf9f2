//! The memory abstraction shared by the CPU core and its buses.
//!
//! A `Memory` is an address space of 16-bit addresses and 8-bit cells.  Reads
//! may have side effects (the PPU's registers change state when read), so the
//! trait models a read as a transition `v_post_read` on the abstract view and
//! a result `v_read_result`, and a write as a transition `v_post_write`.

use vstd::prelude::*;

verus! {

/// Physical arrangement of the cartridge's nametable mirroring.
#[derive(Debug, Copy, Clone, PartialEq, Eq, Structural)]
pub enum Mirroring {
    Vertical,
    Horizontal,
}

/// An 8-bit-wide, 16-bit-addressed memory with possibly effectful reads.
pub trait Memory: View + Sized {
    /// Invariant that all states of this memory satisfy.
    spec fn inv(&self) -> bool;

    /// The byte a read at `addr` returns, as a function of the abstract state.
    spec fn v_read_result(m: Self::V, addr: u16) -> u8;

    /// The abstract state after a read at `addr`.
    spec fn v_post_read(m: Self::V, addr: u16) -> Self::V;

    /// The abstract state after a write of `value` at `addr`.
    spec fn v_post_write(m: Self::V, addr: u16, value: u8) -> Self::V;

    /// The memory's notion of elapsed display time.  Bus reads and writes
    /// never advance it; only stepping the attached clock source does.
    spec fn v_clock(m: Self::V) -> int;

    /// Reads and writes leave the clock where it was.
    proof fn clock_stable(m: Self::V, addr: u16, value: u8)
        ensures
            Self::v_clock(Self::v_post_read(m, addr)) == Self::v_clock(m),
            Self::v_clock(Self::v_post_write(m, addr, value)) == Self::v_clock(m),
    ;

    fn read(&mut self, addr: u16) -> (r: u8)
        requires
            old(self).inv(),
        ensures
            final(self).inv(),
            r == Self::v_read_result(old(self)@, addr),
            final(self)@ == Self::v_post_read(old(self)@, addr),
    ;

    fn write(&mut self, addr: u16, value: u8)
        requires
            old(self).inv(),
        ensures
            final(self).inv(),
            final(self)@ == Self::v_post_write(old(self)@, addr, value),
    ;

    /// A side-effect-free read, for the trace formatter.
    fn peek(&self, addr: u16) -> (r: u8)
        requires
            self.inv(),
        ensures
            r == Self::v_read_result(self@, addr),
    ;
}

/// A flat 64 KiB memory with no decode and no read side effects.
pub struct FlatMemory {
    pub cells: Vec<u8>,
}

impl View for FlatMemory {
    type V = Seq<u8>;

    open spec fn view(&self) -> Seq<u8> {
        self.cells@
    }
}

impl FlatMemory {
    pub fn new() -> (r: FlatMemory)
        ensures
            r.inv(),
            r@.len() == 0x10000,
            forall|i: int| 0 <= i < 0x10000 ==> r@[i] == 0u8,
    {
        FlatMemory { cells: zero_vec(0x10000) }
    }
}

impl Memory for FlatMemory {
    open spec fn inv(&self) -> bool {
        self.cells@.len() == 0x10000
    }

    open spec fn v_read_result(m: Seq<u8>, addr: u16) -> u8 {
        m[addr as int]
    }

    open spec fn v_post_read(m: Seq<u8>, addr: u16) -> Seq<u8> {
        m
    }

    open spec fn v_post_write(m: Seq<u8>, addr: u16, value: u8) -> Seq<u8> {
        m.update(addr as int, value)
    }

    open spec fn v_clock(m: Seq<u8>) -> int {
        0
    }

    proof fn clock_stable(m: Seq<u8>, addr: u16, value: u8) {
    }

    fn read(&mut self, addr: u16) -> (r: u8) {
        self.cells[addr as usize]
    }

    fn write(&mut self, addr: u16, value: u8) {
        self.cells[addr as usize] = value;
    }

    fn peek(&self, addr: u16) -> (r: u8) {
        self.cells[addr as usize]
    }
}

/// A masked value never exceeds the mask.
pub proof fn lemma_and_le_mask16(x: u16, m: u16)
    ensures
        x & m <= m,
{
    assert(x & m <= m) by (bit_vector);
}

/// A masked value never exceeds the mask.
pub proof fn lemma_and_le_mask8(x: u8, m: u8)
    ensures
        x & m <= m,
{
    assert(x & m <= m) by (bit_vector);
}

/// Two single bits assemble into a 2-bit value.
pub proof fn lemma_two_bits16(h: u16, l: u16)
    requires
        h <= 1,
        l <= 1,
    ensures
        ((h << 1) | l) <= 3,
{
    assert(h <= 1 && l <= 1 ==> ((h << 1) | l) <= 3) by (bit_vector);
}

/// A vector of `n` zero bytes.
pub fn zero_vec(n: usize) -> (r: Vec<u8>)
    ensures
        r@.len() == n,
        forall|i: int| 0 <= i < n ==> r@[i] == 0u8,
{
    let mut v: Vec<u8> = Vec::new();
    let mut i: usize = 0;
    while i < n
        invariant
            i <= n,
            v@.len() == i,
            forall|j: int| 0 <= j < i ==> v@[j] == 0u8,
        decreases n - i,
    {
        v.push(0);
        i = i + 1;
    }
    v
}

} // verus!

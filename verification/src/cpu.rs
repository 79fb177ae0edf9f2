//! The 6502-variant CPU core: registers, bus access, stack discipline and
//! the three hardware interrupt entries plus BRK.
//!
//! Every bus access costs exactly one cycle; all observable cycle counts are
//! bus accesses plus the fixed dummy cycles the instruction set adds.

pub mod addressing_modes;
pub mod instructions;
pub mod status;
pub mod trace;

use vstd::prelude::*;

use crate::types::Memory;
use instructions::{decode, execute, spec_step};
use status::{CPUStatus, FLAG_I, INTERRUPTED_B, OPERATED_B};

verus! {

/// Monotonic cycle counter; wide enough never to wrap in practice.
pub type CPUCycle = u128;

/// CPU registers plus the bus the core drives.
pub struct CPU<M: Memory> {
    /// Accumulator.
    pub a: u8,
    /// Index register X.
    pub x: u8,
    /// Index register Y.
    pub y: u8,
    /// Stack pointer; the stack lives at 0x0100 + S.
    pub s: u8,
    /// Processor status.
    pub p: CPUStatus,
    /// Program counter.
    pub pc: u16,
    /// Cycles consumed since power-on.
    pub cycles: CPUCycle,
    /// The memory fabric this core reads and writes.
    pub bus: M,
}

/// The CPU's whole machine state over an abstract bus: the ghost value the
/// step-level contracts are stated over.
pub struct CPUState<V> {
    pub a: u8,
    pub x: u8,
    pub y: u8,
    pub s: u8,
    pub p: u8,
    pub pc: u16,
    pub cycles: CPUCycle,
    pub bus: V,
}

/// The machine state a CPU currently holds.
pub open spec fn cpu_state<M: Memory>(c: &CPU<M>) -> CPUState<M::V> {
    CPUState {
        a: c.a,
        x: c.x,
        y: c.y,
        s: c.s,
        p: c.p.0,
        pc: c.pc,
        cycles: c.cycles,
        bus: c.bus@,
    }
}

/// Address of the stack cell the stack pointer `s` designates.
pub open spec fn spec_stack_addr(s: u8) -> u16 {
    (0x100 + s) as u16
}

/// The RESET entry as a state transition: 7 cycles, I set, S down by three
/// without writes, PC loaded from 0xFFFC/D.
pub open spec fn spec_reset_entry<M: Memory>(s: CPUState<M::V>) -> CPUState<M::V> {
    let low = M::v_read_result(s.bus, 0xFFFC);
    let v1 = M::v_post_read(s.bus, 0xFFFC);
    let high = M::v_read_result(v1, 0xFFFD);
    CPUState {
        pc: (low as u16) | ((high as u16) << 8),
        p: s.p | status::FLAG_I,
        s: s.s.wrapping_sub(3),
        cycles: s.cycles.wrapping_add(7),
        bus: M::v_post_read(v1, 0xFFFD),
        ..s
    }
}

/// An interrupt entry as a state transition: pushes `pc_pushed` and
/// `pushed_p`, sets I, and loads PC from `vector`.
pub open spec fn spec_interrupt_entry<M: Memory>(
    s: CPUState<M::V>,
    pc_pushed: u16,
    pushed_p: u8,
    vector: u16,
) -> CPUState<M::V> {
    let v1 = M::v_post_write(s.bus, spec_stack_addr(s.s), (pc_pushed >> 8) as u8);
    let v2 = M::v_post_write(v1, spec_stack_addr(s.s.wrapping_sub(1)), (pc_pushed & 0xFF) as u8);
    let v3 = M::v_post_write(v2, spec_stack_addr(s.s.wrapping_sub(2)), pushed_p);
    let low = M::v_read_result(v3, vector);
    let v4 = M::v_post_read(v3, vector);
    let high = M::v_read_result(v4, vector.wrapping_add(1));
    CPUState {
        pc: (low as u16) | ((high as u16) << 8),
        p: s.p | status::FLAG_I,
        s: s.s.wrapping_sub(3),
        cycles: s.cycles.wrapping_add(7),
        bus: M::v_post_read(v4, vector.wrapping_add(1)),
        ..s
    }
}

/// Cycles after a one-cycle write at `addr`: a write to the OAM DMA port
/// costs 513 cycles in all, plus one more when the CPU was on an odd cycle.
pub open spec fn spec_write_cycles(cycles: CPUCycle, addr: u16) -> CPUCycle {
    if addr == 0x4014 {
        cycles.wrapping_add((513 + cycles % 2) as u128)
    } else {
        cycles.wrapping_add(1)
    }
}

impl<M: Memory> CPU<M> {
    /// The bus invariant, which every CPU operation preserves.
    pub open spec fn inv(&self) -> bool {
        self.bus.inv()
    }

    pub fn new(cpu_bus: M) -> (r: CPU<M>)
        requires
            cpu_bus.inv(),
        ensures
            r.inv(),
            r.a == 0 && r.x == 0 && r.y == 0 && r.s == 0,
            r.p.0 == 0,
            r.pc == 0,
            r.cycles == 0,
            r.bus == cpu_bus,
    {
        CPU {
            a: 0x00,
            x: 0x00,
            y: 0x00,
            s: 0x00,
            p: CPUStatus::new(0),
            pc: 0x00,
            cycles: 0,
            bus: cpu_bus,
        }
    }

    /// Execute exactly one instruction: fetch the opcode byte at PC, decode
    /// it, evaluate the operand and run it.  The machine ends in exactly
    /// the state `spec_step` assigns; the cycle counter advances by at
    /// least 1 (the fetch) and at most 621.
    pub fn step(&mut self)
        requires
            old(self).inv(),
        ensures
            final(self).inv(),
            M::v_clock(final(self).bus@) == M::v_clock(old(self).bus@),
            cpu_state(final(self)) == spec_step::<M>(cpu_state(old(self))),
            final(self).cycles == old(self).cycles.wrapping_add(
                final(self).cycles.wrapping_sub(old(self).cycles),
            ),
            1 <= final(self).cycles.wrapping_sub(old(self).cycles) <= 621,
    {
        let instruction = self.fetch();
        let opcode = decode(instruction);
        execute(self, opcode);
    }

    /// Fetch the opcode byte at PC and advance PC past it.
    pub fn fetch(&mut self) -> (r: u8)
        requires
            old(self).inv(),
        ensures
            final(self).inv(),
            M::v_clock(final(self).bus@) == M::v_clock(old(self).bus@),
            r == M::v_read_result(old(self).bus@, old(self).pc),
            final(self).bus@ == M::v_post_read(old(self).bus@, old(self).pc),
            final(self).pc == old(self).pc.wrapping_add(1),
            final(self).cycles == old(self).cycles.wrapping_add(1),
            final(self).a == old(self).a,
            final(self).x == old(self).x,
            final(self).y == old(self).y,
            final(self).s == old(self).s,
            final(self).p == old(self).p,
    {
        let pc = self.pc;
        let opcode = self.read(pc);
        self.pc = self.pc.wrapping_add(1);
        opcode
    }

    /// One bus read; costs one cycle.
    pub fn read(&mut self, addr: u16) -> (r: u8)
        requires
            old(self).inv(),
        ensures
            final(self).inv(),
            M::v_clock(final(self).bus@) == M::v_clock(old(self).bus@),
            r == M::v_read_result(old(self).bus@, addr),
            final(self).bus@ == M::v_post_read(old(self).bus@, addr),
            final(self).cycles == old(self).cycles.wrapping_add(1),
            final(self).a == old(self).a,
            final(self).x == old(self).x,
            final(self).y == old(self).y,
            final(self).s == old(self).s,
            final(self).p == old(self).p,
            final(self).pc == old(self).pc,
    {
        proof {
            M::clock_stable(self.bus@, addr, 0);
        }
        self.cycles = self.cycles.wrapping_add(1);
        self.bus.read(addr)
    }

    /// Two bus reads, little endian: low byte at `addr`, high at `addr + 1`.
    pub fn read_word(&mut self, addr: u16) -> (r: u16)
        requires
            old(self).inv(),
        ensures
            final(self).inv(),
            M::v_clock(final(self).bus@) == M::v_clock(old(self).bus@),
            ({
                let v0 = old(self).bus@;
                let low = M::v_read_result(v0, addr);
                let v1 = M::v_post_read(v0, addr);
                let high = M::v_read_result(v1, addr.wrapping_add(1));
                r == (low as u16) | ((high as u16) << 8)
                    && final(self).bus@ == M::v_post_read(v1, addr.wrapping_add(1))
            }),
            final(self).cycles == old(self).cycles.wrapping_add(2),
            final(self).a == old(self).a,
            final(self).x == old(self).x,
            final(self).y == old(self).y,
            final(self).s == old(self).s,
            final(self).p == old(self).p,
            final(self).pc == old(self).pc,
    {
        let low = self.read(addr);
        let high = self.read(addr.wrapping_add(1));
        (low as u16) | ((high as u16) << 8)
    }

    /// Two bus reads of a 16-bit pointer whose high-byte fetch keeps the
    /// pointer's page: when the low byte of `operand` is 0xFF the second read
    /// wraps to the start of the same page (the 6502 indirect-read bug).
    pub fn read_on_indirect(&mut self, operand: u16) -> (r: u16)
        requires
            old(self).inv(),
        ensures
            final(self).inv(),
            M::v_clock(final(self).bus@) == M::v_clock(old(self).bus@),
            ({
                let v0 = old(self).bus@;
                let low = M::v_read_result(v0, operand);
                let v1 = M::v_post_read(v0, operand);
                let high_addr = (operand & 0xFF00) | (operand.wrapping_add(1) & 0x00FF);
                let high = M::v_read_result(v1, high_addr);
                r == (low as u16) | ((high as u16) << 8)
                    && final(self).bus@ == M::v_post_read(v1, high_addr)
            }),
            final(self).cycles == old(self).cycles.wrapping_add(2),
            final(self).a == old(self).a,
            final(self).x == old(self).x,
            final(self).y == old(self).y,
            final(self).s == old(self).s,
            final(self).p == old(self).p,
            final(self).pc == old(self).pc,
    {
        let low = self.read(operand);
        let high_addr = (operand & 0xFF00) | (operand.wrapping_add(1) & 0x00FF);
        let high = self.read(high_addr);
        (low as u16) | ((high as u16) << 8)
    }

    /// One bus write; costs one cycle, plus the DMA stall at 0x4014.
    pub fn write(&mut self, addr: u16, value: u8)
        requires
            old(self).inv(),
        ensures
            final(self).inv(),
            M::v_clock(final(self).bus@) == M::v_clock(old(self).bus@),
            final(self).bus@ == M::v_post_write(old(self).bus@, addr, value),
            final(self).cycles == spec_write_cycles(old(self).cycles, addr),
            final(self).a == old(self).a,
            final(self).x == old(self).x,
            final(self).y == old(self).y,
            final(self).s == old(self).s,
            final(self).p == old(self).p,
            final(self).pc == old(self).pc,
    {
        proof {
            M::clock_stable(self.bus@, addr, value);
        }
        let parity: u128 = self.cycles % 2;
        self.cycles = self.cycles.wrapping_add(1);
        self.bus.write(addr, value);
        if addr == 0x4014 {
            self.cycles = self.cycles.wrapping_add(512 + parity);
        }
    }
}

// Stack operations: push writes then decrements S; pull increments S then
// reads.  S wraps as a pure 8-bit index.
impl<M: Memory> CPU<M> {
    pub fn push_stack(&mut self, value: u8)
        requires
            old(self).inv(),
        ensures
            final(self).inv(),
            M::v_clock(final(self).bus@) == M::v_clock(old(self).bus@),
            final(self).bus@ == M::v_post_write(old(self).bus@, spec_stack_addr(old(self).s), value),
            final(self).s == old(self).s.wrapping_sub(1),
            final(self).cycles == old(self).cycles.wrapping_add(1),
            final(self).a == old(self).a,
            final(self).x == old(self).x,
            final(self).y == old(self).y,
            final(self).p == old(self).p,
            final(self).pc == old(self).pc,
    {
        let addr: u16 = 0x100 + self.s as u16;
        self.write(addr, value);
        self.s = self.s.wrapping_sub(1);
    }

    pub fn push_stack_word(&mut self, word: u16)
        requires
            old(self).inv(),
        ensures
            final(self).inv(),
            M::v_clock(final(self).bus@) == M::v_clock(old(self).bus@),
            ({
                let high = (word >> 8) as u8;
                let low = (word & 0xFF) as u8;
                let v1 = M::v_post_write(old(self).bus@, spec_stack_addr(old(self).s), high);
                final(self).bus@ == M::v_post_write(
                    v1,
                    spec_stack_addr(old(self).s.wrapping_sub(1)),
                    low,
                )
            }),
            final(self).s == old(self).s.wrapping_sub(2),
            final(self).cycles == old(self).cycles.wrapping_add(2),
            final(self).a == old(self).a,
            final(self).x == old(self).x,
            final(self).y == old(self).y,
            final(self).p == old(self).p,
            final(self).pc == old(self).pc,
    {
        self.push_stack((word >> 8) as u8);
        self.push_stack((word & 0xFF) as u8);
    }

    pub fn pull_stack(&mut self) -> (r: u8)
        requires
            old(self).inv(),
        ensures
            final(self).inv(),
            M::v_clock(final(self).bus@) == M::v_clock(old(self).bus@),
            r == M::v_read_result(old(self).bus@, spec_stack_addr(old(self).s.wrapping_add(1))),
            final(self).bus@ == M::v_post_read(
                old(self).bus@,
                spec_stack_addr(old(self).s.wrapping_add(1)),
            ),
            final(self).s == old(self).s.wrapping_add(1),
            final(self).cycles == old(self).cycles.wrapping_add(1),
            final(self).a == old(self).a,
            final(self).x == old(self).x,
            final(self).y == old(self).y,
            final(self).p == old(self).p,
            final(self).pc == old(self).pc,
    {
        self.s = self.s.wrapping_add(1);
        let addr: u16 = 0x100 + self.s as u16;
        self.read(addr)
    }

    pub fn pull_stack_word(&mut self) -> (r: u16)
        requires
            old(self).inv(),
        ensures
            final(self).inv(),
            M::v_clock(final(self).bus@) == M::v_clock(old(self).bus@),
            ({
                let a1 = spec_stack_addr(old(self).s.wrapping_add(1));
                let a2 = spec_stack_addr(old(self).s.wrapping_add(2));
                let v0 = old(self).bus@;
                let low = M::v_read_result(v0, a1);
                let v1 = M::v_post_read(v0, a1);
                let high = M::v_read_result(v1, a2);
                r == ((high as u16) << 8) | (low as u16) && final(self).bus@ == M::v_post_read(
                    v1,
                    a2,
                )
            }),
            final(self).s == old(self).s.wrapping_add(2),
            final(self).cycles == old(self).cycles.wrapping_add(2),
            final(self).a == old(self).a,
            final(self).x == old(self).x,
            final(self).y == old(self).y,
            final(self).p == old(self).p,
            final(self).pc == old(self).pc,
    {
        let low = self.pull_stack();
        let high = self.pull_stack();
        ((high as u16) << 8) | (low as u16)
    }
}

// Interrupt entries.  Each is a 7-cycle sequence; hardware entries push P
// with the B bit clear, and every entry sets I and loads its vector.
impl<M: Memory> CPU<M> {
    /// The I flag is set, so a pending IRQ would be ignored.
    pub fn interrupted(&self) -> (r: bool)
        ensures
            r == (self.p.0 & FLAG_I == FLAG_I),
    {
        self.p.is_set(FLAG_I)
    }

    /// RESET: 7 cycles, loads PC from 0xFFFC/D, sets I, and decrements S by
    /// three without writing (the bus is held in reset during the pushes).
    pub fn reset(&mut self)
        requires
            old(self).inv(),
        ensures
            final(self).inv(),
            M::v_clock(final(self).bus@) == M::v_clock(old(self).bus@),
            cpu_state(final(self)) == spec_reset_entry::<M>(cpu_state(old(self))),
            ({
                let v0 = old(self).bus@;
                let low = M::v_read_result(v0, 0xFFFC);
                let v1 = M::v_post_read(v0, 0xFFFC);
                let high = M::v_read_result(v1, 0xFFFD);
                final(self).pc == (low as u16) | ((high as u16) << 8) && final(self).bus@
                    == M::v_post_read(v1, 0xFFFD)
            }),
            final(self).p.0 == old(self).p.0 | FLAG_I,
            final(self).s == old(self).s.wrapping_sub(3),
            final(self).cycles == old(self).cycles.wrapping_add(7),
            final(self).a == old(self).a,
            final(self).x == old(self).x,
            final(self).y == old(self).y,
    {
        self.cycles = self.cycles.wrapping_add(5);
        self.pc = self.read_word(0xFFFC);
        self.p.set(FLAG_I);
        self.s = self.s.wrapping_sub(3);
    }

    /// NMI entry: pushes PC and P (B clear, R set), sets I, loads 0xFFFA/B.
    pub fn non_markable_interrupt(&mut self)
        requires
            old(self).inv(),
        ensures
            final(self).inv(),
            M::v_clock(final(self).bus@) == M::v_clock(old(self).bus@),
            cpu_state(final(self)) == spec_interrupt_entry::<M>(
                cpu_state(old(self)),
                old(self).pc,
                old(self).p.0 | INTERRUPTED_B,
                0xFFFA,
            ),
            ({
                let v0 = old(self).bus@;
                let s0 = old(self).s;
                let pch = (old(self).pc >> 8) as u8;
                let pcl = (old(self).pc & 0xFF) as u8;
                let v1 = M::v_post_write(v0, spec_stack_addr(s0), pch);
                let v2 = M::v_post_write(v1, spec_stack_addr(s0.wrapping_sub(1)), pcl);
                let v3 = M::v_post_write(
                    v2,
                    spec_stack_addr(s0.wrapping_sub(2)),
                    old(self).p.0 | INTERRUPTED_B,
                );
                let low = M::v_read_result(v3, 0xFFFA);
                let v4 = M::v_post_read(v3, 0xFFFA);
                let high = M::v_read_result(v4, 0xFFFB);
                final(self).pc == (low as u16) | ((high as u16) << 8) && final(self).bus@
                    == M::v_post_read(v4, 0xFFFB)
            }),
            final(self).p.0 == old(self).p.0 | FLAG_I,
            final(self).s == old(self).s.wrapping_sub(3),
            final(self).cycles == old(self).cycles.wrapping_add(7),
            final(self).a == old(self).a,
            final(self).x == old(self).x,
            final(self).y == old(self).y,
    {
        self.cycles = self.cycles.wrapping_add(2);
        let pc = self.pc;
        self.push_stack_word(pc);
        let pushed = self.p.bits() | INTERRUPTED_B;
        self.push_stack(pushed);
        self.p.set(FLAG_I);
        self.pc = self.read_word(0xFFFA);
    }

    /// IRQ entry: as NMI, but through the 0xFFFE/F vector.
    pub fn interrupt_request(&mut self)
        requires
            old(self).inv(),
        ensures
            final(self).inv(),
            M::v_clock(final(self).bus@) == M::v_clock(old(self).bus@),
            cpu_state(final(self)) == spec_interrupt_entry::<M>(
                cpu_state(old(self)),
                old(self).pc,
                old(self).p.0 | INTERRUPTED_B,
                0xFFFE,
            ),
            ({
                let v0 = old(self).bus@;
                let s0 = old(self).s;
                let pch = (old(self).pc >> 8) as u8;
                let pcl = (old(self).pc & 0xFF) as u8;
                let v1 = M::v_post_write(v0, spec_stack_addr(s0), pch);
                let v2 = M::v_post_write(v1, spec_stack_addr(s0.wrapping_sub(1)), pcl);
                let v3 = M::v_post_write(
                    v2,
                    spec_stack_addr(s0.wrapping_sub(2)),
                    old(self).p.0 | INTERRUPTED_B,
                );
                let low = M::v_read_result(v3, 0xFFFE);
                let v4 = M::v_post_read(v3, 0xFFFE);
                let high = M::v_read_result(v4, 0xFFFF);
                final(self).pc == (low as u16) | ((high as u16) << 8) && final(self).bus@
                    == M::v_post_read(v4, 0xFFFF)
            }),
            final(self).p.0 == old(self).p.0 | FLAG_I,
            final(self).s == old(self).s.wrapping_sub(3),
            final(self).cycles == old(self).cycles.wrapping_add(7),
            final(self).a == old(self).a,
            final(self).x == old(self).x,
            final(self).y == old(self).y,
    {
        self.cycles = self.cycles.wrapping_add(2);
        let pc = self.pc;
        self.push_stack_word(pc);
        let pushed = self.p.bits() | INTERRUPTED_B;
        self.push_stack(pushed);
        self.p.set(FLAG_I);
        self.pc = self.read_word(0xFFFE);
    }

    /// BRK entry: advances PC by one before pushing, so RTI returns to the
    /// byte after the BRK padding byte; then as IRQ, except that a software
    /// interrupt pushes P with the B bit set.
    pub fn break_interrupt(&mut self)
        requires
            old(self).inv(),
        ensures
            final(self).inv(),
            M::v_clock(final(self).bus@) == M::v_clock(old(self).bus@),
            cpu_state(final(self)) == spec_interrupt_entry::<M>(
                cpu_state(old(self)),
                old(self).pc.wrapping_add(1),
                old(self).p.0 | OPERATED_B,
                0xFFFE,
            ),
            ({
                let v0 = old(self).bus@;
                let s0 = old(self).s;
                let pc1 = old(self).pc.wrapping_add(1);
                let pch = (pc1 >> 8) as u8;
                let pcl = (pc1 & 0xFF) as u8;
                let v1 = M::v_post_write(v0, spec_stack_addr(s0), pch);
                let v2 = M::v_post_write(v1, spec_stack_addr(s0.wrapping_sub(1)), pcl);
                let v3 = M::v_post_write(
                    v2,
                    spec_stack_addr(s0.wrapping_sub(2)),
                    old(self).p.0 | OPERATED_B,
                );
                let low = M::v_read_result(v3, 0xFFFE);
                let v4 = M::v_post_read(v3, 0xFFFE);
                let high = M::v_read_result(v4, 0xFFFF);
                final(self).pc == (low as u16) | ((high as u16) << 8) && final(self).bus@
                    == M::v_post_read(v4, 0xFFFF)
            }),
            final(self).p.0 == old(self).p.0 | FLAG_I,
            final(self).s == old(self).s.wrapping_sub(3),
            final(self).cycles == old(self).cycles.wrapping_add(7),
            final(self).a == old(self).a,
            final(self).x == old(self).x,
            final(self).y == old(self).y,
    {
        self.cycles = self.cycles.wrapping_add(2);
        self.pc = self.pc.wrapping_add(1);
        let pc = self.pc;
        self.push_stack_word(pc);
        let pushed = self.p.bits() | OPERATED_B;
        self.push_stack(pushed);
        self.p.set(FLAG_I);
        self.pc = self.read_word(0xFFFE);
    }
}

/// Whether `from + value` leaves the 256-byte page of `from` (unsigned).
pub fn page_crossed_u16(value: u16, from: u16) -> (r: bool)
    ensures
        r == ((from.wrapping_add(value) & 0xFF00) != (from & 0xFF00)),
{
    (from.wrapping_add(value) & 0xFF00) != (from & 0xFF00)
}

/// Whether `from + value` leaves the 256-byte page of `from`, with a signed
/// displacement (used by taken branches).
pub fn page_crossed(value: i64, from: i64) -> (r: bool)
    ensures
        r == ((from.wrapping_add(value) & 0xFF00) != (from & 0xFF00)),
{
    (from.wrapping_add(value) & 0xFF00) != (from & 0xFF00)
}

/// Every reachable CPU state keeps its registers in their hardware ranges:
/// PC in [0, 0xFFFF], S, A, X and Y each in [0, 0xFF].
pub proof fn lemma_cpu_registers_bounded<M: Memory>(cpu: CPU<M>)
    ensures
        0 <= cpu.pc <= 0xFFFF,
        0 <= cpu.s <= 0xFF,
        0 <= cpu.a <= 0xFF,
        0 <= cpu.x <= 0xFF,
        0 <= cpu.y <= 0xFF,
{
}

} // verus!

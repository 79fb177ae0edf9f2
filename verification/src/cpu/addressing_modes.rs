//! Addressing modes: how an opcode obtains its operand address or value,
//! and which cycles the evaluation itself consumes.

use vstd::prelude::*;

use crate::cpu::{cpu_state, CPUState, CPU, CPUCycle};
use crate::types::Memory;

verus! {

/// The operand an addressing mode yields: an address for memory modes, the
/// accumulator value for `Accumulator`, the raw offset byte for `Relative`.
pub type Operand = u16;

#[derive(Debug, Copy, Clone, PartialEq, Eq, Structural)]
pub enum AddressingMode {
    Implicit,
    Accumulator,
    Immediate,
    ZeroPage,
    ZeroPageX,
    ZeroPageY,
    Absolute,
    AbsoluteX { penalty: bool },
    AbsoluteY { penalty: bool },
    Relative,
    Indirect,
    IndexedIndirect,
    IndirectIndexed,
}

/// The value `read_word` returns on view `v0` at `addr`.
pub open spec fn spec_word_at<M: Memory>(v0: M::V, addr: u16) -> u16 {
    let low = M::v_read_result(v0, addr);
    let high = M::v_read_result(M::v_post_read(v0, addr), addr.wrapping_add(1));
    (low as u16) | ((high as u16) << 8)
}

/// The view after `read_word` on `v0` at `addr`.
pub open spec fn spec_post_word<M: Memory>(v0: M::V, addr: u16) -> M::V {
    M::v_post_read(M::v_post_read(v0, addr), addr.wrapping_add(1))
}

/// The address of the high byte of a pointer at `addr`, wrapping inside the
/// page (the 6502 indirect-read bug).
pub open spec fn spec_indirect_high_addr(addr: u16) -> u16 {
    (addr & 0xFF00) | (addr.wrapping_add(1) & 0x00FF)
}

/// The pointer `read_on_indirect` returns on view `v0` at `addr`.
pub open spec fn spec_indirect_at<M: Memory>(v0: M::V, addr: u16) -> u16 {
    let low = M::v_read_result(v0, addr);
    let high = M::v_read_result(M::v_post_read(v0, addr), spec_indirect_high_addr(addr));
    (low as u16) | ((high as u16) << 8)
}

/// The view after `read_on_indirect` on `v0` at `addr`.
pub open spec fn spec_post_indirect<M: Memory>(v0: M::V, addr: u16) -> M::V {
    M::v_post_read(M::v_post_read(v0, addr), spec_indirect_high_addr(addr))
}

/// Whether `from + value` leaves the page of `from`.
pub open spec fn spec_page_crossed_u16(value: u16, from: u16) -> bool {
    (from.wrapping_add(value) & 0xFF00) != (from & 0xFF00)
}

/// Operand evaluation as a state transition: the operand the mode yields,
/// and the machine state after the mode's reads, PC advances and dummy
/// cycles.
#[verifier::opaque]
pub open spec fn spec_get_operand<M: Memory>(s: CPUState<M::V>, mode: AddressingMode) -> (
    u16,
    CPUState<M::V>,
) {
    match mode {
        AddressingMode::Implicit => (0u16, s),
        AddressingMode::Accumulator => (s.a as u16, s),
        AddressingMode::Immediate => (
            s.pc,
            CPUState { pc: s.pc.wrapping_add(1), ..s },
        ),
        AddressingMode::ZeroPage => (
            M::v_read_result(s.bus, s.pc) as u16,
            CPUState {
                pc: s.pc.wrapping_add(1),
                bus: M::v_post_read(s.bus, s.pc),
                cycles: s.cycles.wrapping_add(1),
                ..s
            },
        ),
        AddressingMode::ZeroPageX => (
            ((M::v_read_result(s.bus, s.pc) + s.x) as u16) & 0xFF,
            CPUState {
                pc: s.pc.wrapping_add(1),
                bus: M::v_post_read(s.bus, s.pc),
                cycles: s.cycles.wrapping_add(2),
                ..s
            },
        ),
        AddressingMode::ZeroPageY => (
            ((M::v_read_result(s.bus, s.pc) + s.y) as u16) & 0xFF,
            CPUState {
                pc: s.pc.wrapping_add(1),
                bus: M::v_post_read(s.bus, s.pc),
                cycles: s.cycles.wrapping_add(2),
                ..s
            },
        ),
        AddressingMode::Absolute => (
            spec_word_at::<M>(s.bus, s.pc),
            CPUState {
                pc: s.pc.wrapping_add(2),
                bus: spec_post_word::<M>(s.bus, s.pc),
                cycles: s.cycles.wrapping_add(2),
                ..s
            },
        ),
        AddressingMode::AbsoluteX { penalty } => {
            let data = spec_word_at::<M>(s.bus, s.pc);
            let extra: CPUCycle = if penalty {
                if spec_page_crossed_u16(s.x as u16, data) {
                    3
                } else {
                    2
                }
            } else {
                3
            };
            (
                data.wrapping_add(s.x as u16),
                CPUState {
                    pc: s.pc.wrapping_add(2),
                    bus: spec_post_word::<M>(s.bus, s.pc),
                    cycles: s.cycles.wrapping_add(extra),
                    ..s
                },
            )
        },
        AddressingMode::AbsoluteY { penalty } => {
            let data = spec_word_at::<M>(s.bus, s.pc);
            let extra: CPUCycle = if penalty {
                if spec_page_crossed_u16(s.y as u16, data) {
                    3
                } else {
                    2
                }
            } else {
                3
            };
            (
                data.wrapping_add(s.y as u16),
                CPUState {
                    pc: s.pc.wrapping_add(2),
                    bus: spec_post_word::<M>(s.bus, s.pc),
                    cycles: s.cycles.wrapping_add(extra),
                    ..s
                },
            )
        },
        AddressingMode::Relative => (
            M::v_read_result(s.bus, s.pc) as u16,
            CPUState {
                pc: s.pc.wrapping_add(1),
                bus: M::v_post_read(s.bus, s.pc),
                cycles: s.cycles.wrapping_add(1),
                ..s
            },
        ),
        AddressingMode::Indirect => {
            let data = spec_word_at::<M>(s.bus, s.pc);
            let v1 = spec_post_word::<M>(s.bus, s.pc);
            (
                spec_indirect_at::<M>(v1, data),
                CPUState {
                    pc: s.pc.wrapping_add(2),
                    bus: spec_post_indirect::<M>(v1, data),
                    cycles: s.cycles.wrapping_add(4),
                    ..s
                },
            )
        },
        AddressingMode::IndexedIndirect => {
            let data = M::v_read_result(s.bus, s.pc);
            let v1 = M::v_post_read(s.bus, s.pc);
            let ptr = (data.wrapping_add(s.x) as u16) & 0xFF;
            (
                spec_indirect_at::<M>(v1, ptr),
                CPUState {
                    pc: s.pc.wrapping_add(1),
                    bus: spec_post_indirect::<M>(v1, ptr),
                    cycles: s.cycles.wrapping_add(4),
                    ..s
                },
            )
        },
        AddressingMode::IndirectIndexed => {
            let data = M::v_read_result(s.bus, s.pc);
            let v1 = M::v_post_read(s.bus, s.pc);
            let base = spec_indirect_at::<M>(v1, data as u16);
            let extra: CPUCycle = if spec_page_crossed_u16(s.y as u16, base) {
                4
            } else {
                3
            };
            (
                base.wrapping_add(s.y as u16),
                CPUState {
                    pc: s.pc.wrapping_add(1),
                    bus: spec_post_indirect::<M>(v1, data as u16),
                    cycles: s.cycles.wrapping_add(extra),
                    ..s
                },
            )
        },
    }
}

impl AddressingMode {
    /// Evaluate the operand: advance PC past the operand bytes, perform the
    /// mode's reads, and charge the mode's extra dummy cycles.
    pub fn get_operand<M: Memory>(&self, cpu: &mut CPU<M>) -> (r: Operand)
        requires
            old(cpu).inv(),
        ensures
            final(cpu).inv(),
            M::v_clock(final(cpu).bus@) == M::v_clock(old(cpu).bus@),
            r == spec_get_operand::<M>(cpu_state(old(cpu)), *self).0,
            cpu_state(final(cpu)) == spec_get_operand::<M>(cpu_state(old(cpu)), *self).1,
            final(cpu).a == old(cpu).a,
            final(cpu).x == old(cpu).x,
            final(cpu).y == old(cpu).y,
            final(cpu).s == old(cpu).s,
            final(cpu).p == old(cpu).p,
            ({
                let v0 = old(cpu).bus@;
                let pc = old(cpu).pc;
                let x = old(cpu).x;
                let y = old(cpu).y;
                let c = old(cpu).cycles;
                let rpc = final(cpu).pc;
                let rbus = final(cpu).bus@;
                let rc = final(cpu).cycles;
                match *self {
                    AddressingMode::Implicit => {
                        r == 0 && rpc == pc && rbus == v0 && rc == c
                    },
                    AddressingMode::Accumulator => {
                        r == old(cpu).a as u16 && rpc == pc && rbus == v0 && rc == c
                    },
                    AddressingMode::Immediate => {
                        r == pc && rpc == pc.wrapping_add(1) && rbus == v0 && rc == c
                    },
                    AddressingMode::ZeroPage => {
                        r == M::v_read_result(v0, pc) as u16 && rpc == pc.wrapping_add(1)
                            && rbus == M::v_post_read(v0, pc) && rc == c.wrapping_add(1)
                    },
                    AddressingMode::ZeroPageX => {
                        r == (((M::v_read_result(v0, pc) + x) as u16) & 0xFF)
                            && rpc == pc.wrapping_add(1) && rbus == M::v_post_read(v0, pc)
                            && rc == c.wrapping_add(2)
                    },
                    AddressingMode::ZeroPageY => {
                        r == (((M::v_read_result(v0, pc) + y) as u16) & 0xFF)
                            && rpc == pc.wrapping_add(1) && rbus == M::v_post_read(v0, pc)
                            && rc == c.wrapping_add(2)
                    },
                    AddressingMode::Absolute => {
                        r == spec_word_at::<M>(v0, pc) && rpc == pc.wrapping_add(2)
                            && rbus == spec_post_word::<M>(v0, pc) && rc == c.wrapping_add(2)
                    },
                    AddressingMode::AbsoluteX { penalty } => {
                        let data = spec_word_at::<M>(v0, pc);
                        let extra: CPUCycle = if penalty {
                            if spec_page_crossed_u16(x as u16, data) { 3 } else { 2 }
                        } else {
                            3
                        };
                        r == data.wrapping_add(x as u16) && rpc == pc.wrapping_add(2)
                            && rbus == spec_post_word::<M>(v0, pc) && rc == c.wrapping_add(extra)
                    },
                    AddressingMode::AbsoluteY { penalty } => {
                        let data = spec_word_at::<M>(v0, pc);
                        let extra: CPUCycle = if penalty {
                            if spec_page_crossed_u16(y as u16, data) { 3 } else { 2 }
                        } else {
                            3
                        };
                        r == data.wrapping_add(y as u16) && rpc == pc.wrapping_add(2)
                            && rbus == spec_post_word::<M>(v0, pc) && rc == c.wrapping_add(extra)
                    },
                    AddressingMode::Relative => {
                        r == M::v_read_result(v0, pc) as u16 && rpc == pc.wrapping_add(1)
                            && rbus == M::v_post_read(v0, pc) && rc == c.wrapping_add(1)
                    },
                    AddressingMode::Indirect => {
                        let data = spec_word_at::<M>(v0, pc);
                        let v1 = spec_post_word::<M>(v0, pc);
                        r == spec_indirect_at::<M>(v1, data) && rpc == pc.wrapping_add(2)
                            && rbus == spec_post_indirect::<M>(v1, data) && rc == c.wrapping_add(4)
                    },
                    AddressingMode::IndexedIndirect => {
                        let data = M::v_read_result(v0, pc);
                        let v1 = M::v_post_read(v0, pc);
                        let ptr = (data.wrapping_add(x) as u16) & 0xFF;
                        r == spec_indirect_at::<M>(v1, ptr) && rpc == pc.wrapping_add(1)
                            && rbus == spec_post_indirect::<M>(v1, ptr) && rc == c.wrapping_add(4)
                    },
                    AddressingMode::IndirectIndexed => {
                        let data = M::v_read_result(v0, pc);
                        let v1 = M::v_post_read(v0, pc);
                        let base = spec_indirect_at::<M>(v1, data as u16);
                        let extra: CPUCycle = if spec_page_crossed_u16(y as u16, base) {
                            4
                        } else {
                            3
                        };
                        r == base.wrapping_add(y as u16) && rpc == pc.wrapping_add(1)
                            && rbus == spec_post_indirect::<M>(v1, data as u16)
                            && rc == c.wrapping_add(extra)
                    },
                }
            }),
    {
        proof {
            reveal(spec_get_operand);
        }
        match self {
            AddressingMode::Implicit => 0x0000,
            AddressingMode::Accumulator => cpu.a as u16,
            AddressingMode::Immediate => {
                let operand = cpu.pc;
                cpu.pc = cpu.pc.wrapping_add(1);
                operand
            },
            AddressingMode::ZeroPage => {
                let pc = cpu.pc;
                let operand = cpu.read(pc) as u16;
                cpu.pc = cpu.pc.wrapping_add(1);
                operand
            },
            AddressingMode::ZeroPageX => {
                let pc = cpu.pc;
                let operand = (cpu.read(pc) as u16 + cpu.x as u16) & 0xFF;
                cpu.pc = cpu.pc.wrapping_add(1);
                cpu.cycles = cpu.cycles.wrapping_add(1);
                operand
            },
            AddressingMode::ZeroPageY => {
                let pc = cpu.pc;
                let operand = (cpu.read(pc) as u16 + cpu.y as u16) & 0xFF;
                cpu.pc = cpu.pc.wrapping_add(1);
                cpu.cycles = cpu.cycles.wrapping_add(1);
                operand
            },
            AddressingMode::Absolute => {
                let pc = cpu.pc;
                let operand = cpu.read_word(pc);
                cpu.pc = cpu.pc.wrapping_add(2);
                operand
            },
            AddressingMode::AbsoluteX { penalty } => {
                let pc = cpu.pc;
                let data = cpu.read_word(pc);
                let operand = data.wrapping_add(cpu.x as u16);
                cpu.pc = cpu.pc.wrapping_add(2);
                if *penalty {
                    if crate::cpu::page_crossed_u16(cpu.x as u16, data) {
                        cpu.cycles = cpu.cycles.wrapping_add(1);
                    }
                } else {
                    cpu.cycles = cpu.cycles.wrapping_add(1);
                }
                operand
            },
            AddressingMode::AbsoluteY { penalty } => {
                let pc = cpu.pc;
                let data = cpu.read_word(pc);
                let operand = data.wrapping_add(cpu.y as u16);
                cpu.pc = cpu.pc.wrapping_add(2);
                if *penalty {
                    if crate::cpu::page_crossed_u16(cpu.y as u16, data) {
                        cpu.cycles = cpu.cycles.wrapping_add(1);
                    }
                } else {
                    cpu.cycles = cpu.cycles.wrapping_add(1);
                }
                operand
            },
            AddressingMode::Relative => {
                let pc = cpu.pc;
                let operand = cpu.read(pc) as u16;
                cpu.pc = cpu.pc.wrapping_add(1);
                operand
            },
            AddressingMode::Indirect => {
                let pc = cpu.pc;
                let data = cpu.read_word(pc);
                let operand = cpu.read_on_indirect(data);
                cpu.pc = cpu.pc.wrapping_add(2);
                operand
            },
            AddressingMode::IndexedIndirect => {
                let pc = cpu.pc;
                let data = cpu.read(pc);
                let ptr = (data.wrapping_add(cpu.x) as u16) & 0xFF;
                let operand = cpu.read_on_indirect(ptr);
                cpu.pc = cpu.pc.wrapping_add(1);
                cpu.cycles = cpu.cycles.wrapping_add(1);
                operand
            },
            AddressingMode::IndirectIndexed => {
                let pc = cpu.pc;
                let data = cpu.read(pc);
                let base = cpu.read_on_indirect(data as u16);
                let operand = base.wrapping_add(cpu.y as u16);
                cpu.pc = cpu.pc.wrapping_add(1);
                if crate::cpu::page_crossed_u16(cpu.y as u16, base) {
                    cpu.cycles = cpu.cycles.wrapping_add(1);
                }
                operand
            },
        }
    }
}

} // verus!

//! The top-level scheduler: polls the interrupt latch, runs one CPU
//! instruction, then ticks the PPU three dots per CPU cycle, latching any
//! NMI the PPU raises for the next pre-instruction poll.

use vstd::prelude::*;

use crate::cpu::instructions::spec_step;
use crate::cpu::status::FLAG_I;
use crate::cpu::status::{INTERRUPTED_B, OPERATED_B};
use crate::cpu::trace::Trace;
use crate::cpu::{cpu_state, spec_interrupt_entry, spec_reset_entry, CPUCycle, CPUState, CPU};
use crate::interrupt::spec_highest;
use crate::memory_map::CPUBusView;
use crate::interrupt::{Interrupt, INT_BRK, INT_IRQ, INT_NMI, INT_RESET, NO_INTERRUPT};
use crate::memory_map::{CPUBus, PPUBus};

use crate::ppu::{spec_scan_index, PPU};
use crate::rom::mapper_0::Mapper0;
use crate::rom::ROM;
use crate::types::{zero_vec, Memory, Mirroring};

verus! {

/// The console: CPU with its bus fabric (which owns the PPU), the pending
/// interrupt latch, and a frame-relative cycle counter.
pub struct NES {
    pub cpu: CPU<CPUBus>,
    pub interrupt: Interrupt,
    pub cycles: u128,
}

/// A blank cartridge: 16 KiB of zeroed PRG and 8 KiB of CHR RAM.
fn blank_mapper() -> (r: Mapper0)
    ensures
        r.wf(),
{
    Mapper0 {
        prg: zero_vec(0x4000),
        chr: zero_vec(0x2000),
        mirroring: Mirroring::Horizontal,
        mirrored: true,
    }
}

/// The pre-instruction poll as a state transition: the machine and latch
/// after servicing the highest-priority pending request.  RESET and NMI are
/// unconditional; IRQ and BRK run only with the I flag clear; with nothing
/// serviceable, nothing changes.
pub open spec fn spec_handle_interrupt(s: CPUState<CPUBusView>, latch: u8) -> (
    CPUState<CPUBusView>,
    u8,
) {
    let h = spec_highest(latch);
    if h == INT_RESET {
        (spec_reset_entry::<CPUBus>(s), latch & !INT_RESET)
    } else if h == INT_NMI {
        (spec_interrupt_entry::<CPUBus>(s, s.pc, s.p | INTERRUPTED_B, 0xFFFA), latch & !INT_NMI)
    } else if h == INT_IRQ {
        if s.p & FLAG_I == FLAG_I {
            (s, latch)
        } else {
            (
                spec_interrupt_entry::<CPUBus>(s, s.pc, s.p | INTERRUPTED_B, 0xFFFE),
                latch & !INT_IRQ,
            )
        }
    } else if h == INT_BRK {
        if s.p & FLAG_I == FLAG_I {
            (s, latch)
        } else {
            (
                spec_interrupt_entry::<CPUBus>(s, s.pc.wrapping_add(1), s.p | OPERATED_B, 0xFFFE),
                latch & !INT_BRK,
            )
        }
    } else {
        (s, latch)
    }
}

impl Default for NES {
    /// A console with a blank cartridge inserted.
    fn default() -> (r: NES)
        ensures
            r.inv(),
    {
        let ppu_bus = PPUBus::new(blank_mapper());
        let ppu = PPU::new(ppu_bus);
        let cpu_bus = CPUBus::new(blank_mapper(), ppu);
        NES { cpu: CPU::new(cpu_bus), interrupt: Interrupt::new(NO_INTERRUPT), cycles: 0 }
    }
}

impl NES {
    pub open spec fn inv(&self) -> bool {
        self.cpu.inv()
    }

    /// Hardware power-on register state.
    pub fn power_on(&mut self)
        requires
            old(self).inv(),
        ensures
            final(self).inv(),
            final(self).cpu.a == 0 && final(self).cpu.x == 0 && final(self).cpu.y == 0,
            final(self).cpu.s == 0xFD,
            final(self).cpu.p.0 == 0x34,
    {
        self.cpu.a = 0x00;
        self.cpu.x = 0x00;
        self.cpu.y = 0x00;
        self.cpu.s = 0xFD;
        self.cpu.p = crate::cpu::status::CPUStatus::new(0x34);
    }

    /// Request a reset: latches RESET for the next pre-instruction poll and
    /// resets the PPU at once.  CPU registers are untouched; the reset entry
    /// itself runs at the next poll.
    pub fn reset(&mut self)
        requires
            old(self).inv(),
        ensures
            final(self).inv(),
            final(self).interrupt.0 == old(self).interrupt.0 | INT_RESET,
            final(self).cpu.bus.ppu.reg == crate::ppu::register::spec_reg_reset(
                old(self).cpu.bus.ppu.reg,
            ),
            final(self).cpu.bus.ppu.scan == (crate::ppu::Scan { dot: 0, line: 0 }),
            final(self).cpu.bus.ppu.frames == 0,
            final(self).cpu.bus.ppu.bus@ == old(self).cpu.bus.ppu.bus@,
            final(self).cpu.bus.ppu.primary_oam@ == old(self).cpu.bus.ppu.primary_oam@,
            final(self).cpu.bus.wram@ == old(self).cpu.bus.wram@,
            final(self).cpu.a == old(self).cpu.a,
            final(self).cpu.x == old(self).cpu.x,
            final(self).cpu.y == old(self).cpu.y,
            final(self).cpu.s == old(self).cpu.s,
            final(self).cpu.p == old(self).cpu.p,
            final(self).cpu.pc == old(self).cpu.pc,
            final(self).cpu.cycles == old(self).cpu.cycles,
    {
        self.interrupt.set(INT_RESET);
        self.cpu.bus.ppu.reset();
    }

    /// Insert a cartridge: rebuilds both buses around its mapper and puts
    /// the console in its initial state: a fresh CPU with zeroed registers
    /// on a bus routed to the cartridge's PRG, and a fresh PPU whose
    /// pattern space is the cartridge's CHR.
    pub fn load(&mut self, rom: ROM)
        requires
            rom.mapper.wf(),
        ensures
            final(self).inv(),
            final(self).interrupt.0 == NO_INTERRUPT,
            final(self).cycles == 0,
            final(self).cpu.cycles == 0,
            final(self).cpu.a == 0 && final(self).cpu.x == 0 && final(self).cpu.y == 0,
            final(self).cpu.s == 0 && final(self).cpu.p.0 == 0 && final(self).cpu.pc == 0,
            final(self).cpu.bus.mapper.prg@ == rom.mapper.prg@,
            final(self).cpu.bus.mapper.mirrored == rom.mapper.mirrored,
            final(self).cpu.bus.ppu.bus.mapper.prg@ == rom.mapper.prg@,
            final(self).cpu.bus.ppu.bus.mapper.chr@ == rom.mapper.chr@,
            final(self).cpu.bus.ppu.bus.mirroring == rom.mapper.mirroring,
            forall|i: int| 0 <= i < 0x800 ==> final(self).cpu.bus.wram@[i] == 0u8,
            forall|i: int| 0 <= i < 0x800 ==> final(self).cpu.bus.ppu.bus.name_table@[i] == 0u8,
            forall|i: int| 0 <= i < 0x20 ==> final(self).cpu.bus.ppu.bus.pallete_ram_idx@[i] == 0u8,
            final(self).cpu.bus.ppu.frames == 0,
            final(self).cpu.bus.ppu.scan == (crate::ppu::Scan { dot: 0, line: 0 }),
            final(self).cpu.bus.ppu.reg.status.0 == 0 && final(self).cpu.bus.ppu.reg.controller.0
                == 0 && final(self).cpu.bus.ppu.reg.mask.0 == 0,
    {
        let prg_for_ppu = rom.mapper.prg.clone();
        let chr_for_ppu = rom.mapper.chr.clone();
        let mapper_for_ppu = Mapper0 {
            prg: prg_for_ppu,
            chr: chr_for_ppu,
            mirroring: rom.mapper.mirroring,
            mirrored: rom.mapper.mirrored,
        };
        proof {
            assert(mapper_for_ppu.prg@ =~= rom.mapper.prg@);
            assert(mapper_for_ppu.chr@ =~= rom.mapper.chr@);
        }
        let ppu_bus = PPUBus::new(mapper_for_ppu);
        let ppu = PPU::new(ppu_bus);
        let cpu_bus = CPUBus::new(rom.mapper, ppu);
        *self = NES {
            cpu: CPU::new(cpu_bus),
            interrupt: Interrupt::new(NO_INTERRUPT),
            cycles: 0,
        };
    }

    /// Elapsed cycles between two counter readings, with wraparound.
    //

    pub fn diff_cycles(before: CPUCycle, after: CPUCycle) -> (r: CPUCycle)
        ensures
            r == after.wrapping_sub(before),
    {
        after.wrapping_sub(before)
    }

    /// The pre-instruction interrupt poll: service the highest-priority
    /// pending request.  RESET and NMI are unconditional; IRQ and BRK are
    /// taken only with the I flag clear.  A serviced entry costs 7 cycles,
    /// sets I, and clears its latch bit; otherwise nothing changes.
    #[verifier::rlimit(60)]
    pub fn handle_interrupt(&mut self)
        requires
            old(self).inv(),
        ensures
            final(self).inv(),
            final(self).cpu.cycles == old(self).cpu.cycles || final(self).cpu.cycles == old(
                self,
            ).cpu.cycles.wrapping_add(7),
            final(self).cpu.bus.ppu.frames == old(self).cpu.bus.ppu.frames,
            final(self).cpu.bus.ppu.scan == old(self).cpu.bus.ppu.scan,
            cpu_state(&final(self).cpu) == spec_handle_interrupt(
                cpu_state(&old(self).cpu),
                old(self).interrupt.0,
            ).0,
            final(self).interrupt.0 == spec_handle_interrupt(
                cpu_state(&old(self).cpu),
                old(self).interrupt.0,
            ).1,
            final(self).cycles == old(self).cycles,
    {
        let pending = self.interrupt.get();
        if pending.0 == INT_RESET {
            self.cpu.reset();
            self.interrupt.unset(INT_RESET);
        } else if pending.0 == INT_NMI {
            self.cpu.non_markable_interrupt();
            self.interrupt.unset(INT_NMI);
        } else if pending.0 == INT_IRQ {
            if !self.cpu.interrupted() {
                self.cpu.interrupt_request();
                self.interrupt.unset(INT_IRQ);
            }
        } else if pending.0 == INT_BRK {
            if !self.cpu.interrupted() {
                self.cpu.break_interrupt();
                self.interrupt.unset(INT_BRK);
            }
        }
    }

    /// One scheduler step for the CPU alone: poll interrupts, execute one
    /// instruction, and report the cycles consumed.
    pub fn cpu_step(&mut self) -> (r: CPUCycle)
        requires
            old(self).inv(),
        ensures
            final(self).inv(),
            1 <= r <= 700,
            final(self).cycles == old(self).cycles,
            final(self).cpu.cycles == old(self).cpu.cycles.wrapping_add(r),
            final(self).cpu.bus.ppu.frames == old(self).cpu.bus.ppu.frames,
            final(self).cpu.bus.ppu.scan == old(self).cpu.bus.ppu.scan,
            ({
                let polled = spec_handle_interrupt(cpu_state(&old(self).cpu), old(self).interrupt.0);
                cpu_state(&final(self).cpu) == spec_step::<CPUBus>(polled.0)
                    && final(self).interrupt.0 == polled.1
            }),
    {
        let before = self.cpu.cycles;
        self.handle_interrupt();
        let ghost mid = self.cpu.cycles;
        self.cpu.step();
        let after = self.cpu.cycles;
        proof {
            crate::memory_map::lemma_clock_components(
                final(self).cpu.bus.ppu.frames,
                final(self).cpu.bus.ppu.scan,
                old(self).cpu.bus.ppu.frames,
                old(self).cpu.bus.ppu.scan,
            );
            let d1 = if mid == before {
                0u128
            } else {
                7u128
            };
            let d2 = after.wrapping_sub(mid);
            assert(mid == before.wrapping_add(d1));
            assert(after == mid.wrapping_add(d2));
            assert(after == before.wrapping_add((d1 + d2) as u128));
            assert(after.wrapping_sub(before) == d1 + d2);
        }
        Self::diff_cycles(before, after)
    }

    /// One scheduler step: poll, run one CPU instruction, then tick the PPU
    /// exactly three dots per consumed CPU cycle, latching any NMI a dot
    /// raises for the next poll.  The CPU side ends in the `spec_step` state
    /// of the polled machine; the PPU's frame counter and scan position
    /// advance by exactly those dots.
    #[verifier::rlimit(100)]
    pub fn step(&mut self)
        requires
            old(self).inv(),
        ensures
            final(self).inv(),
            final(self).cpu.bus.ppu.frames != old(self).cpu.bus.ppu.frames || spec_scan_index(
                final(self).cpu.bus.ppu.scan,
            ) > spec_scan_index(old(self).cpu.bus.ppu.scan),
            final(self).cpu.bus.ppu.frames == old(self).cpu.bus.ppu.frames
                || final(self).cpu.bus.ppu.frames == old(self).cpu.bus.ppu.frames.wrapping_add(1),
            ({
                let d = final(self).cpu.cycles.wrapping_sub(old(self).cpu.cycles);
                &&& 1 <= d <= 700
                &&& final(self).cpu.cycles == old(self).cpu.cycles.wrapping_add(d)
                &&& final(self).cycles == old(self).cycles.wrapping_add(d)
                &&& (final(self).cpu.bus.ppu.frames == old(self).cpu.bus.ppu.frames
                    ==> spec_scan_index(final(self).cpu.bus.ppu.scan) == spec_scan_index(
                    old(self).cpu.bus.ppu.scan,
                ) + 3 * d)
                &&& (final(self).cpu.bus.ppu.frames != old(self).cpu.bus.ppu.frames ==> (89342
                    + spec_scan_index(final(self).cpu.bus.ppu.scan) == spec_scan_index(
                    old(self).cpu.bus.ppu.scan,
                ) + 3 * d || 89342 + spec_scan_index(final(self).cpu.bus.ppu.scan)
                    == spec_scan_index(old(self).cpu.bus.ppu.scan) + 3 * d + 1))
            }),
            ({
                let polled = spec_handle_interrupt(cpu_state(&old(self).cpu), old(self).interrupt.0);
                let stepped = spec_step::<CPUBus>(polled.0);
                let delta = stepped.cycles.wrapping_sub(old(self).cpu.cycles);
                let rendering = crate::ppu::register::spec_rendering_enabled(
                    stepped.bus.ppu.reg,
                );
                &&& final(self).cpu.a == stepped.a
                &&& final(self).cpu.x == stepped.x
                &&& final(self).cpu.y == stepped.y
                &&& final(self).cpu.s == stepped.s
                &&& final(self).cpu.p.0 == stepped.p
                &&& final(self).cpu.pc == stepped.pc
                &&& final(self).cpu.cycles == stepped.cycles
                &&& final(self).cycles == old(self).cycles.wrapping_add(delta)
                &&& (final(self).interrupt.0 == polled.1 || final(self).interrupt.0 == (polled.1
                    | INT_NMI))
                &&& (final(self).cpu.bus.ppu.frames, final(self).cpu.bus.ppu.scan)
                    == crate::ppu::spec_scan_advance(
                    old(self).cpu.bus.ppu.frames,
                    old(self).cpu.bus.ppu.scan,
                    rendering,
                    (3 * delta) as nat,
                )
            }),
    {
        let ghost f0 = self.cpu.bus.ppu.frames;
        let ghost s0 = self.cpu.bus.ppu.scan;
        let ghost i0 = spec_scan_index(self.cpu.bus.ppu.scan);

        let cpu_cycles = self.cpu_step();
        self.cycles = self.cycles.wrapping_add(cpu_cycles);

        let ghost csched = self.cycles;
        let ghost ca = self.cpu.a;
        let ghost cx = self.cpu.x;
        let ghost cy = self.cpu.y;
        let ghost cs = self.cpu.s;
        let ghost cp = self.cpu.p;
        let ghost cpc = self.cpu.pc;
        let ghost ccycles = self.cpu.cycles;
        let ghost l1 = self.interrupt.0;
        let ghost rnd = crate::ppu::register::spec_rendering_enabled(self.cpu.bus.ppu.reg);

        let n: u64 = (cpu_cycles as u64) * 3;
        let mut i: u64 = 0;
        let ghost mut m: u64 = 0;
        let ghost mut skips: int = 0;
        while i < n
            invariant
                self.inv(),
                i <= n,
                3 <= n <= 2100,
                m <= 1,
                m <= i,
                0 <= skips <= m,
                89342 * m + spec_scan_index(self.cpu.bus.ppu.scan) == i0 + i + skips,
                self.cpu.a == ca && self.cpu.x == cx && self.cpu.y == cy,
                self.cpu.s == cs && self.cpu.p == cp && self.cpu.pc == cpc,
                self.cpu.cycles == ccycles,
                self.cycles == csched,
                self.interrupt.0 == l1 || self.interrupt.0 == (l1 | INT_NMI),
                rnd == crate::ppu::register::spec_rendering_enabled(self.cpu.bus.ppu.reg),
                (self.cpu.bus.ppu.frames, self.cpu.bus.ppu.scan) == crate::ppu::spec_scan_advance(
                    f0,
                    s0,
                    rnd,
                    i as nat,
                ),
                self.cpu.bus.ppu.frames == f0.wrapping_add(m),
                m == 0 ==> spec_scan_index(self.cpu.bus.ppu.scan) == i0 + i,
                m == 1 ==> spec_scan_index(self.cpu.bus.ppu.scan) < i,
                0 <= i0 < 89342,
            decreases n - i,
        {
            let ghost scan_before = self.cpu.bus.ppu.scan;
            let r = self.cpu.bus.ppu.step();
            match r {
                Some(interrupt) => {
                    proof {
                        let a = l1;
                        assert((a | 0x04u8) | 0x04u8 == a | 0x04u8) by (bit_vector);
                    }
                    self.interrupt.set(interrupt.0);
                },
                None => {},
            }
            proof {
                crate::ppu::lemma_scan_advance_snoc(f0, s0, rnd, i as nat);
                if self.cpu.bus.ppu.frames == f0.wrapping_add(m) {
                    // No frame wrap this dot: the scan advanced by one.
                    crate::ppu::lemma_scan_advances_one_dot(scan_before);
                } else {
                    // A wrap needs the scan at the end of the pre-render
                    // line, which a second wrap cannot reach in this loop.
                    assert(m == 0) by {
                        if m == 1 {
                            assert(spec_scan_index(scan_before) < i);
                            assert(scan_before.line == 261) by {
                                crate::ppu::lemma_scan_advances_one_dot(scan_before);
                            }
                        }
                    }
                    m = (m + 1) as u64;
                    if scan_before.line == 261 && scan_before.dot == 339 {
                        // the odd-frame skip covers two grid positions
                        skips = skips + 1;
                    } else {
                        crate::ppu::lemma_scan_advances_one_dot(scan_before);
                    }
                }
            }
            i = i + 1;
        }
        proof {
            if m >= 1 {
                assert(f0.wrapping_add(m) != f0);
            }
            let polled = spec_handle_interrupt(cpu_state(&old(self).cpu), old(self).interrupt.0);
            let stepped = spec_step::<CPUBus>(polled.0);
            assert(stepped.cycles == old(self).cpu.cycles.wrapping_add(cpu_cycles));
            assert(stepped.cycles.wrapping_sub(old(self).cpu.cycles) == cpu_cycles);
            assert(3 * stepped.cycles.wrapping_sub(old(self).cpu.cycles) == n as int);
        }
    }

    /// Run scheduler steps until the PPU finishes the current frame: the
    /// frame counter ends exactly one ahead, and the PPU advanced three dots
    /// for every CPU cycle the run consumed (one dot fewer when this frame
    /// was an odd rendering frame with its pre-render dot skipped); each
    /// step latches any NMI its dots raised for the next poll.
    pub fn frame(&mut self)
        requires
            old(self).inv(),
        ensures
            final(self).inv(),
            final(self).cpu.bus.ppu.frames == old(self).cpu.bus.ppu.frames.wrapping_add(1),
            ({
                let d = final(self).cpu.cycles.wrapping_sub(old(self).cpu.cycles);
                &&& final(self).cpu.cycles == old(self).cpu.cycles.wrapping_add(d)
                &&& final(self).cycles == old(self).cycles.wrapping_add(d)
                &&& (89342 + spec_scan_index(final(self).cpu.bus.ppu.scan) == spec_scan_index(
                    old(self).cpu.bus.ppu.scan,
                ) + 3 * d || 89342 + spec_scan_index(final(self).cpu.bus.ppu.scan)
                    == spec_scan_index(old(self).cpu.bus.ppu.scan) + 3 * d + 1)
            }),
    {
        let current = self.cpu.bus.ppu.frames;
        let ghost c0 = self.cpu.cycles;
        let ghost sched0 = self.cycles;
        let ghost i0 = spec_scan_index(self.cpu.bus.ppu.scan);
        let ghost mut tc: int = 0;
        loop
            invariant_except_break
                self.inv(),
                self.cpu.bus.ppu.frames == current,
                0 <= tc,
                3 * tc <= 89341,
                self.cpu.cycles == c0.wrapping_add(tc as u128),
                self.cycles == sched0.wrapping_add(tc as u128),
                spec_scan_index(self.cpu.bus.ppu.scan) == i0 + 3 * tc,
                0 <= i0 < 89342,
            ensures
                self.inv(),
                self.cpu.bus.ppu.frames == current.wrapping_add(1),
                ({
                    let d = self.cpu.cycles.wrapping_sub(c0);
                    &&& self.cpu.cycles == c0.wrapping_add(d)
                    &&& self.cycles == sched0.wrapping_add(d)
                    &&& (89342 + spec_scan_index(self.cpu.bus.ppu.scan) == i0 + 3 * d || 89342
                        + spec_scan_index(self.cpu.bus.ppu.scan) == i0 + 3 * d + 1)
                }),
            decreases 89342 - spec_scan_index(self.cpu.bus.ppu.scan),
        {
            let ghost prev_cycles = self.cpu.cycles;
            self.step();
            proof {
                let d_step = self.cpu.cycles.wrapping_sub(prev_cycles);
                assert(self.cpu.cycles == c0.wrapping_add((tc + d_step) as u128));
                assert(self.cycles == sched0.wrapping_add((tc + d_step) as u128));
                tc = tc + d_step;
                assert(self.cpu.cycles.wrapping_sub(c0) == tc);
            }
            if current != self.cpu.bus.ppu.frames {
                break ;
            }
            proof {
                // no frame wrap: the scan index grew within the frame grid
                crate::ppu::lemma_scan_advances_one_dot(self.cpu.bus.ppu.scan);
            }
        }
    }
}

// The nestest conformance harness.
impl NES {
    /// Run the nestest start sequence: PC at 0xC000, P at 0x24, the cycle
    /// counter at 7, then execute instructions until the counter passes
    /// 26554, capturing a trace record immediately before each one (after
    /// the pre-instruction interrupt poll): the captured cycle counters
    /// grow strictly, one capture per executed instruction.
    #[verifier::rlimit(100)]
    pub fn nestest(&mut self) -> (r: Vec<Trace>)
        requires
            old(self).inv(),
        ensures
            final(self).inv(),
            final(self).cpu.cycles > 26554,
            r@.len() >= 1,
            forall|j: int| 0 <= j < r@.len() ==> #[trigger] r@[j].cycle <= 26561,
            forall|j: int| 0 <= j && j + 1 < r@.len() ==> #[trigger] r@[j].cycle < r@[j + 1].cycle,
            forall|j: int|
                0 <= j < r@.len() ==> crate::cpu::trace::spec_ascii(
                    #[trigger] r@[j].assembly_code@,
                ),
            old(self).interrupt.0 == NO_INTERRUPT ==> (r@[0].pc == 0xC000 && r@[0].cycle == 7
                && r@[0].p == 0x24 && r@[0].a == old(self).cpu.a && r@[0].x == old(self).cpu.x
                && r@[0].y == old(self).cpu.y && r@[0].sp == old(self).cpu.s),
    {
        self.cpu.cycles = 7;
        self.cpu.pc = 0xC000;
        self.cpu.p = crate::cpu::status::CPUStatus::new(0x24);

        let mut traces: Vec<Trace> = Vec::new();
        while self.cpu.cycles <= 26554
            invariant
                self.inv(),
                self.cpu.cycles <= 0x10000,
                traces@.len() >= 1 || self.cpu.cycles == 7,
                traces@.len() == 0 ==> (self.cpu.a == old(self).cpu.a && self.cpu.x == old(
                    self,
                ).cpu.x && self.cpu.y == old(self).cpu.y && self.cpu.s == old(self).cpu.s
                    && self.cpu.pc == 0xC000 && self.cpu.p.0 == 0x24 && self.interrupt.0 == old(
                    self,
                ).interrupt.0),
                forall|j: int| 0 <= j < traces@.len() ==> #[trigger] traces@[j].cycle <= 26561,
                forall|j: int|
                    0 <= j && j + 1 < traces@.len() ==> #[trigger] traces@[j].cycle < traces@[j
                        + 1].cycle,
                traces@.len() >= 1 ==> traces@[traces@.len() - 1].cycle < self.cpu.cycles,
                old(self).interrupt.0 == NO_INTERRUPT && traces@.len() >= 1 ==> (traces@[0].pc
                    == 0xC000 && traces@[0].cycle == 7 && traces@[0].p == 0x24 && traces@[0].a
                    == old(self).cpu.a && traces@[0].x == old(self).cpu.x && traces@[0].y == old(
                    self,
                ).cpu.y && traces@[0].sp == old(self).cpu.s),
                forall|j: int|
                    0 <= j < traces@.len() ==> crate::cpu::trace::spec_ascii(
                        #[trigger] traces@[j].assembly_code@,
                    ),
            decreases (if self.cpu.cycles <= 26555 {
                26555int - self.cpu.cycles
            } else {
                0int
            }),
        {
            let ghost c0 = self.cpu.cycles;
            proof {
                // a cleared latch services nothing at the poll
                if old(self).interrupt.0 == NO_INTERRUPT {
                    assert(0u8 & INT_RESET != INT_RESET && 0u8 & INT_NMI != INT_NMI && 0u8 & INT_IRQ
                        != INT_IRQ && 0u8 & INT_BRK != INT_BRK) by (bit_vector);
                }
            }
            self.handle_interrupt();
            let t = Trace::trace(&self.cpu);
            let ghost traces_before = traces@;
            traces.push(t);
            proof {
                let n_before = traces_before.len() as int;
                assert(traces@ == traces_before.push(t));
                assert forall|i: int| 0 <= i < n_before implies #[trigger] traces@[i]
                    == traces_before[i] by {
                    assert(traces@[i] == traces_before.push(t)[i]);
                }
                assert(traces@[n_before] == traces_before.push(t)[n_before]);
                if n_before >= 1 {
                    assert(traces_before[n_before - 1].cycle < c0);
                }
                assert(t.cycle == c0 || t.cycle == c0 + 7);
            }

            let before = self.cpu.cycles;
            self.cpu.step();
            let after = self.cpu.cycles;
            let cpu_cycles = Self::diff_cycles(before, after);

            let n: u64 = (cpu_cycles as u64) * 3;
            let mut i: u64 = 0;
            while i < n
                invariant
                    self.inv(),
                    self.cpu.cycles == after,
                    before < after <= 0x10000,
                decreases n - i,
            {
                let r = self.cpu.bus.ppu.step();
                match r {
                    Some(interrupt) => {
                        self.interrupt.set(interrupt.0);
                    },
                    None => {},
                }
                i = i + 1;
            }
            proof {
                assert(before == c0 || before == c0 + 7);
                assert(self.cpu.cycles > c0);
                assert(self.cpu.cycles > before);
                let n_before = traces_before.len() as int;
                assert forall|j: int|
                    0 <= j && j + 1 < traces@.len() implies #[trigger] traces@[j].cycle < traces@[j
                    + 1].cycle by {
                    assert(traces@[j] == traces_before.push(t)[j]);
                    assert(traces@[j + 1] == traces_before.push(t)[j + 1]);
                    if j + 1 < n_before {
                        assert(traces_before[j].cycle < traces_before[j + 1].cycle);
                    }
                }
                assert(traces@[0] == traces_before.push(t)[0]);
            }
        }
        traces
    }
}


} // verus!

use rustnes::cpu::status::CPUStatus;
use rustnes::cpu::trace::Trace;
use rustnes::cpu::CPU;
use rustnes::types::FlatMemory;

fn new_cpu() -> CPU<FlatMemory> {
    CPU::new(FlatMemory::new())
}

// The canonical first nestest line: JMP absolute at the entry point.
#[test]
fn trace_line_jmp_absolute() {
    let mut cpu = new_cpu();
    cpu.write(0xC000, 0x4C);
    cpu.write(0xC001, 0xF5);
    cpu.write(0xC002, 0xC5);
    cpu.pc = 0xC000;
    cpu.s = 0xFD;
    cpu.p = CPUStatus::new(0x24);
    cpu.cycles = 7;

    let t = Trace::trace(&cpu);
    assert_eq!(
        t.line(),
        "C000  4C F5 C5  JMP $C5F5                       A:00 X:00 Y:00 P:24 SP:FD CYC:7"
    );
}

#[test]
fn trace_line_implied() {
    let mut cpu = new_cpu();
    cpu.write(0xC5F5, 0x78);
    cpu.pc = 0xC5F5;
    cpu.s = 0xFD;
    cpu.p = CPUStatus::new(0x24);
    cpu.cycles = 10;

    let t = Trace::trace(&cpu);
    assert_eq!(
        t.line(),
        "C5F5  78        SEI                             A:00 X:00 Y:00 P:24 SP:FD CYC:10"
    );
}

#[test]
fn trace_line_zero_page() {
    let mut cpu = new_cpu();
    cpu.write(0xC5F7, 0xA5);
    cpu.write(0xC5F8, 0x10);
    cpu.write(0x0010, 0x42);
    cpu.pc = 0xC5F7;
    cpu.a = 0x33;
    cpu.s = 0xFB;
    cpu.p = CPUStatus::new(0x26);
    cpu.cycles = 44;

    let t = Trace::trace(&cpu);
    assert_eq!(
        t.line(),
        "C5F7  A5 10     LDA $10 = 42                    A:33 X:00 Y:00 P:26 SP:FB CYC:44"
    );
}

// An undocumented opcode carries the star prefix.
#[test]
fn trace_line_undocumented() {
    let mut cpu = new_cpu();
    cpu.write(0xD000, 0x04);
    cpu.write(0xD001, 0x20);
    cpu.write(0x0020, 0x00);
    cpu.pc = 0xD000;
    cpu.s = 0xFD;
    cpu.p = CPUStatus::new(0x24);
    cpu.cycles = 100;

    let t = Trace::trace(&cpu);
    assert_eq!(
        t.line(),
        "D000  04 20    *NOP $20 = 00                    A:00 X:00 Y:00 P:24 SP:FD CYC:100"
    );
}

// Tracing is side-effect-free: the machine state is untouched.
#[test]
fn trace_does_not_advance_state() {
    let mut cpu = new_cpu();
    cpu.write(0x8000, 0xA9);
    cpu.write(0x8001, 0x55);
    cpu.pc = 0x8000;
    let cycles = cpu.cycles;

    let t = Trace::trace(&cpu);
    assert_eq!(t.pc, 0x8000);
    assert_eq!(t.operation, 0xA9);
    assert_eq!(t.operand_1, 0x55);
    assert_eq!(cpu.pc, 0x8000);
    assert_eq!(cpu.cycles, cycles);
}

// The indirect-indexed operand column renders pointer, effective address
// and the value there.
#[test]
fn trace_line_indirect_indexed() {
    let mut cpu = new_cpu();
    cpu.write(0xD400, 0xB1);
    cpu.write(0xD401, 0x89);
    cpu.write(0x0089, 0x00);
    cpu.write(0x008A, 0x03);
    cpu.write(0x0300, 0x89);
    cpu.y = 0x00;
    cpu.a = 0x89;
    cpu.pc = 0xD400;
    cpu.s = 0xF0;
    cpu.p = CPUStatus::new(0x65);
    cpu.cycles = 3000;

    let t = Trace::trace(&cpu);
    assert_eq!(
        t.line(),
        "D400  B1 89     LDA ($89),Y = 0300 @ 0300 = 89  A:89 X:00 Y:00 P:65 SP:F0 CYC:3000"
    );
}

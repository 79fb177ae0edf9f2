use rustnes::cpu::addressing_modes::AddressingMode;
use rustnes::cpu::CPU;
use rustnes::types::FlatMemory;

fn new_cpu() -> CPU<FlatMemory> {
    let mut cpu = CPU::new(FlatMemory::new());
    cpu.x = 0x05;
    cpu.y = 0x80;
    cpu.pc = 0x8234;
    cpu.write(0x8234, 0x90);
    cpu.write(0x8235, 0x94);
    cpu.write(0x9490, 0x33);
    cpu.write(0x9491, 0x81);
    cpu
}

#[test]
fn implicit() {
    let mut cpu = new_cpu();

    let before = cpu.pc;
    let operand = AddressingMode::Implicit.get_operand(&mut cpu);
    assert_eq!(operand, 0x00);
    assert_eq!(cpu.pc - before, 0);
}

#[test]
fn accumulator() {
    let mut cpu = new_cpu();
    cpu.a = 0xFA;

    let before = cpu.pc;
    let operand = AddressingMode::Accumulator.get_operand(&mut cpu);
    assert_eq!(operand, 0xFA);
    assert_eq!(cpu.pc - before, 0);
}

#[test]
fn immediate() {
    let mut cpu = new_cpu();

    let before = cpu.pc;
    let operand = AddressingMode::Immediate.get_operand(&mut cpu);
    assert_eq!(operand, 0x8234);
    assert_eq!(cpu.pc - before, 1);
}

#[test]
fn zero_page() {
    let mut cpu = new_cpu();

    let before = cpu.pc;
    let operand = AddressingMode::ZeroPage.get_operand(&mut cpu);
    assert_eq!(operand, 0x0090);
    assert_eq!(cpu.pc - before, 1);
}

#[test]
fn zero_page_x() {
    let mut cpu = new_cpu();

    let before = cpu.pc;
    let operand = AddressingMode::ZeroPageX.get_operand(&mut cpu);
    assert_eq!(operand, 0x0095);
    assert_eq!(cpu.pc - before, 1);
}

#[test]
fn zero_page_y() {
    let mut cpu = new_cpu();

    let before = cpu.pc;
    let operand = AddressingMode::ZeroPageY.get_operand(&mut cpu);
    assert_eq!(operand, 0x0010);
    assert_eq!(cpu.pc - before, 1);
}

#[test]
fn absolute() {
    let mut cpu = new_cpu();

    let before = cpu.pc;
    let operand = AddressingMode::Absolute.get_operand(&mut cpu);
    assert_eq!(operand, 0x9490);
    assert_eq!(cpu.pc - before, 2);
}

#[test]
fn absolute_x() {
    let mut cpu = new_cpu();

    let before = cpu.pc;
    let operand = AddressingMode::AbsoluteX { penalty: false }.get_operand(&mut cpu);
    assert_eq!(operand, 0x9495);
    assert_eq!(cpu.pc - before, 2);
}

#[test]
fn absolute_y() {
    let mut cpu = new_cpu();

    let before = cpu.pc;
    let operand = AddressingMode::AbsoluteY { penalty: false }.get_operand(&mut cpu);
    assert_eq!(operand, 0x9510);
    assert_eq!(cpu.pc - before, 2);
}

#[test]
fn relative() {
    let mut cpu = new_cpu();
    cpu.pc = 0x0050;
    cpu.write(0x0050, 0x78);

    let before = cpu.pc;
    let operand = AddressingMode::Relative.get_operand(&mut cpu);
    assert_eq!(operand, 0x78);
    assert_eq!(cpu.pc - before, 1);
}

#[test]
fn indirect() {
    let mut cpu = new_cpu();

    let before = cpu.pc;
    let operand = AddressingMode::Indirect.get_operand(&mut cpu);
    assert_eq!(operand, 0x8133);
    assert_eq!(cpu.pc - before, 2);
}

#[test]
fn indexed_indirect() {
    let mut cpu = new_cpu();
    cpu.write(0x0095, 0xFF);
    cpu.write(0x0096, 0xF0);

    let before = cpu.pc;
    let operand = AddressingMode::IndexedIndirect.get_operand(&mut cpu);
    assert_eq!(operand, 0xF0FF);
    assert_eq!(cpu.pc - before, 1);
}

#[test]
fn indirect_indexed() {
    let mut cpu = new_cpu();
    cpu.write(0x0090, 0x43);
    cpu.write(0x0091, 0xC0);

    let before = cpu.pc;
    let operand = AddressingMode::IndirectIndexed.get_operand(&mut cpu);
    assert_eq!(operand, 0xC0C3);
    assert_eq!(cpu.pc - before, 1);
}

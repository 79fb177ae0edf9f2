use rustnes::cpu::addressing_modes::AddressingMode;
use rustnes::cpu::instructions::{decode, Mnemonic};
use rustnes::cpu::status::{CPUStatus, FLAG_C, FLAG_I, FLAG_N, FLAG_V, FLAG_Z};
use rustnes::cpu::CPU;
use rustnes::memory_map::{CPUBus, PPUBus};
use rustnes::ppu::PPU;
use rustnes::rom::mapper_0::Mapper0;
use rustnes::types::{FlatMemory, Memory, Mirroring};

fn new_cpu() -> CPU<FlatMemory> {
    CPU::new(FlatMemory::new())
}

#[test]
fn fetch() {
    let mut cpu = new_cpu();
    cpu.write(0x9051, 0x90);
    cpu.write(0x9052, 0x3F);
    cpu.write(0x9053, 0x81);
    cpu.write(0x9054, 0x90);

    cpu.pc = 0x9052;

    let instruction = cpu.fetch();
    assert_eq!(instruction, 0x3F);

    let instruction = cpu.fetch();
    assert_eq!(instruction, 0x81);
}

#[test]
fn reset() {
    let mut cpu = new_cpu();

    cpu.a = 0xFA;
    cpu.x = 0x1F;
    cpu.y = 0x59;
    cpu.s = 0x37;
    cpu.p = CPUStatus::new(FLAG_N | FLAG_V);
    cpu.pc = 0b01010110_10001101;

    cpu.write(0xFFFB, 1);
    cpu.write(0xFFFC, 32);
    cpu.write(0xFFFD, 127);
    cpu.write(0xFFFE, 64);

    cpu.reset();

    assert_eq!(cpu.a, 0xFA);
    assert_eq!(cpu.x, 0x1F);
    assert_eq!(cpu.y, 0x59);
    assert_eq!(cpu.s, 0x34);
    assert_eq!(cpu.p.bits(), FLAG_N | FLAG_V | FLAG_I);
    assert_eq!(cpu.pc, 0b01111111_00100000);
}

#[test]
fn stack() {
    let mut cpu = new_cpu();
    cpu.s = 0xFF;

    cpu.push_stack(0x83);
    cpu.push_stack(0x14);

    assert_eq!(cpu.pull_stack(), 0x14);
    assert_eq!(cpu.pull_stack(), 0x83);
}

#[test]
fn stack_word() {
    let mut cpu = new_cpu();
    cpu.s = 0xFF;

    cpu.push_stack_word(0x98AF);
    cpu.push_stack_word(0x003A);

    assert_eq!(cpu.pull_stack_word(), 0x003A);
    assert_eq!(cpu.pull_stack_word(), 0x98AF);
}

// The indirect-JMP page-wrap bug: the high byte of the pointer is fetched
// from the start of the pointer's own page.
#[test]
fn jmp_indirect_page_wrap() {
    let mut cpu = new_cpu();
    cpu.write(0x30FF, 0x40);
    cpu.write(0x3000, 0x80);
    cpu.write(0x3100, 0x50);
    cpu.write(0x8000, 0x6C);
    cpu.write(0x8001, 0xFF);
    cpu.write(0x8002, 0x30);
    cpu.pc = 0x8000;

    let before = cpu.cycles;
    cpu.step();

    assert_eq!(cpu.pc, 0x8040);
    assert_eq!(cpu.cycles - before, 5);
}

// The ADC overflow flag: 0x50 + 0x50 overflows signed but not unsigned.
#[test]
fn adc_overflow_flag() {
    let mut cpu = new_cpu();
    cpu.a = 0x50;
    cpu.write(0x8000, 0x69);
    cpu.write(0x8001, 0x50);
    cpu.pc = 0x8000;

    cpu.step();

    assert_eq!(cpu.a, 0xA0);
    assert!(cpu.p.is_set(FLAG_N));
    assert!(cpu.p.is_set(FLAG_V));
    assert!(!cpu.p.is_set(FLAG_C));
    assert!(!cpu.p.is_set(FLAG_Z));
}

// The CMP carry: C holds exactly when A >= M.
#[test]
fn cmp_carry() {
    let mut cpu = new_cpu();
    cpu.a = 0x40;
    cpu.write(0x8000, 0xC9);
    cpu.write(0x8001, 0x41);
    cpu.write(0x8002, 0xC9);
    cpu.write(0x8003, 0x40);
    cpu.write(0x8004, 0xC9);
    cpu.write(0x8005, 0x3F);
    cpu.pc = 0x8000;

    cpu.step();
    assert!(!cpu.p.is_set(FLAG_C));
    assert!(!cpu.p.is_set(FLAG_Z));
    assert!(cpu.p.is_set(FLAG_N));

    cpu.step();
    assert!(cpu.p.is_set(FLAG_C));
    assert!(cpu.p.is_set(FLAG_Z));
    assert!(!cpu.p.is_set(FLAG_N));

    cpu.step();
    assert!(cpu.p.is_set(FLAG_C));
    assert!(!cpu.p.is_set(FLAG_Z));
    assert!(!cpu.p.is_set(FLAG_N));
}

// Taken branch that lands on another page than its opcode: four cycles.
#[test]
fn branch_page_cross_timing() {
    let mut cpu = new_cpu();
    cpu.write(0x80FE, 0xF0);
    cpu.write(0x80FF, 0x04);
    cpu.pc = 0x80FE;
    cpu.p.set(FLAG_Z);

    let before = cpu.cycles;
    cpu.step();

    assert_eq!(cpu.pc, 0x8104);
    assert_eq!(cpu.cycles - before, 4);
}

// Stack wrap: a push at S = 0x00 writes 0x0100 and S wraps to 0xFF.
#[test]
fn stack_wrap() {
    let mut cpu = new_cpu();
    cpu.s = 0x00;
    cpu.a = 0x5A;
    cpu.write(0x8000, 0x48);
    cpu.write(0x8001, 0x68);
    cpu.pc = 0x8000;

    cpu.step();
    assert_eq!(cpu.bus.cells[0x0100], 0x5A);
    assert_eq!(cpu.s, 0xFF);

    cpu.a = 0x00;
    cpu.step();
    assert_eq!(cpu.a, 0x5A);
    assert_eq!(cpu.s, 0x00);
}

// PHP then PLP: every P bit survives except B (cleared) and R (forced set).
#[test]
fn php_plp_round_trip() {
    let mut cpu = new_cpu();
    cpu.s = 0xFD;
    cpu.p = CPUStatus::new(0b1100_1011);
    cpu.write(0x8000, 0x08);
    cpu.write(0x8001, 0x28);
    cpu.pc = 0x8000;

    cpu.step();
    cpu.step();

    assert_eq!(cpu.p.bits(), 0b1110_1011);
    assert_eq!(cpu.s, 0xFD);

    cpu.p = CPUStatus::new(0b0011_0100);
    cpu.write(0x8002, 0x08);
    cpu.write(0x8003, 0x28);
    cpu.step();
    cpu.step();
    assert_eq!(cpu.p.bits(), 0b0010_0100);
}

// A read-modify-write opcode leaves exactly the rewritten value in memory
// and charges its fixed cycles.
#[test]
fn rmw_inc_memory() {
    let mut cpu = new_cpu();
    cpu.write(0x0010, 0x7F);
    cpu.write(0x8000, 0xE6);
    cpu.write(0x8001, 0x10);
    cpu.pc = 0x8000;

    let before = cpu.cycles;
    cpu.step();

    assert_eq!(cpu.bus.cells[0x0010], 0x80);
    assert!(cpu.p.is_set(FLAG_N));
    assert_eq!(cpu.cycles - before, 5);
}

// A write to 0x4014 copies the named 256-byte CPU page into primary OAM
// and stalls the CPU for the DMA transfer.
#[test]
fn oam_dma_copies_a_page() {
    let mapper = || Mapper0 {
        prg: vec![0u8; 0x4000],
        chr: vec![0u8; 0x2000],
        mirroring: Mirroring::Horizontal,
        mirrored: true,
    };
    let ppu = PPU::new(PPUBus::new(mapper()));
    let mut cpu = CPU::new(CPUBus::new(mapper(), ppu));

    for i in 0..256u16 {
        cpu.write(0x0200 + i, (i % 256) as u8);
    }
    // 256 one-cycle writes put the CPU on an even cycle: the DMA costs 513.
    let before = cpu.cycles;
    cpu.write(0x4014, 0x02);
    assert_eq!(cpu.cycles - before, 513);
    for i in 0..256usize {
        assert_eq!(cpu.bus.ppu.primary_oam[i], (i % 256) as u8);
    }
}

// The opcode table: documented entries decode to their mnemonic and mode,
// and unlisted bytes fall back to an implied NOP.
#[test]
fn decode_table_entries() {
    let lda = decode(0xA9);
    assert_eq!(lda.mnemonic, Mnemonic::LDA);
    assert_eq!(lda.addressing_mode, AddressingMode::Immediate);

    let sta = decode(0x9D);
    assert_eq!(sta.mnemonic, Mnemonic::STA);
    assert_eq!(sta.addressing_mode, AddressingMode::AbsoluteX { penalty: false });

    let jmp = decode(0x6C);
    assert_eq!(jmp.mnemonic, Mnemonic::JMP);
    assert_eq!(jmp.addressing_mode, AddressingMode::Indirect);

    let unlisted = decode(0x02);
    assert_eq!(unlisted.mnemonic, Mnemonic::NOP);
    assert_eq!(unlisted.addressing_mode, AddressingMode::Implicit);
}

// The latched BRK entry is a software interrupt: the status byte it pushes
// has both B and R set.
#[test]
fn brk_entry_pushes_b_set() {
    let mut cpu = new_cpu();
    cpu.s = 0xFD;
    cpu.p = CPUStatus::new(0x01);
    cpu.pc = 0x8000;
    cpu.write(0xFFFE, 0x00);
    cpu.write(0xFFFF, 0x90);

    cpu.break_interrupt();

    // the pushed status byte sits below the two PC bytes
    assert_eq!(cpu.bus.cells[0x01FB], 0x01 | 0x30);
    assert!(cpu.p.is_set(FLAG_I));
    assert_eq!(cpu.pc, 0x9000);
    assert_eq!(cpu.s, 0xFA);
}

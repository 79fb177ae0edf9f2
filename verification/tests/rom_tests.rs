use rustnes::rom::nesfile::NESFileHeader;
use rustnes::rom::{LoadError, ROM};
use rustnes::NES;

#[test]
fn valid_header() {
    let data = [
        0x4E, 0x45, 0x53, 0x1A, 0x93, 0x34, 0xF1, 0xF2, 0xF3, 0xF4, 0xF5, 0x00, 0x00, 0x00, 0x00,
        0x00,
    ];

    let header = NESFileHeader::parse(&data);

    assert!(header.valid());
    assert_eq!(header.prg_size_of_unit, 0x93);
    assert_eq!(header.chr_size_of_unit, 0x34);
    assert_eq!(header.flags6, 0xF1);
    assert_eq!(header.flags7, 0xF2);
    assert_eq!(header._flags8, 0xF3);
    assert_eq!(header._flags9, 0xF4);
    assert_eq!(header._flags10, 0xF5);
}

#[test]
fn invalid_header() {
    let data = [
        0x4E, 0x45, 0x53, 0x1B, 0x93, 0x34, 0xF1, 0xF2, 0xF3, 0xF4, 0xF5, 0x00, 0x00, 0x00, 0x00,
        0x00,
    ];

    let header = NESFileHeader::parse(&data);

    assert!(!header.valid());
}

/// A minimal one-bank image: a tiny program at 0x8000 and the reset vector
/// pointing at it.
fn sample_image() -> Vec<u8> {
    let mut data = vec![0u8; 16 + 0x4000 + 0x2000];
    data[0] = 0x4E;
    data[1] = 0x45;
    data[2] = 0x53;
    data[3] = 0x1A;
    data[4] = 1;
    data[5] = 1;
    // program: LDA #$42; JMP $8002 (spin)
    data[16] = 0xA9;
    data[17] = 0x42;
    data[18] = 0x4C;
    data[19] = 0x02;
    data[20] = 0x80;
    // reset vector 0x8000 at PRG offset 0x3FFC
    data[16 + 0x3FFC] = 0x00;
    data[16 + 0x3FFD] = 0x80;
    data
}

#[test]
fn load_rejects_bad_magic() {
    let mut data = sample_image();
    data[3] = 0x1B;
    assert_eq!(ROM::load(data).err(), Some(LoadError::InvalidHeader));
}

#[test]
fn load_rejects_truncated_image() {
    let mut data = sample_image();
    data.truncate(16 + 0x1000);
    assert_eq!(ROM::load(data).err(), Some(LoadError::InvalidHeader));
}

#[test]
fn load_rejects_unsupported_mapper() {
    let mut data = sample_image();
    data[6] = 0x10;
    assert_eq!(ROM::load(data).err(), Some(LoadError::UnsupportedMapper(1)));
}

#[test]
fn load_accepts_one_bank_image() {
    let rom = ROM::load(sample_image()).unwrap();
    assert!(rom.mapper.mirrored);
    assert_eq!(rom.mapper.prg.len(), 0x4000);
    assert_eq!(rom.mapper.chr.len(), 0x2000);
}

// End to end: load a cartridge, reset, and run whole frames; the CPU spins
// on its tiny program while the PPU finishes frames on schedule.
#[test]
fn frame_advances_frame_counter() {
    let rom = ROM::load(sample_image()).unwrap();
    let mut nes = NES::default();
    nes.load(rom);
    nes.power_on();
    nes.reset();

    nes.frame();
    assert_eq!(nes.cpu.bus.ppu.frames, 1);
    assert_eq!(nes.cpu.a, 0x42);
    nes.frame();
    assert_eq!(nes.cpu.bus.ppu.frames, 2);
}

// The nestest harness: start at 0xC000 with P = 0x24 and 7 cycles on the
// counter, tracing each instruction until the counter passes 26554.
#[test]
fn nestest_harness_traces_from_entry() {
    let mut data = vec![0u8; 16 + 0x4000 + 0x2000];
    data[0] = 0x4E;
    data[1] = 0x45;
    data[2] = 0x53;
    data[3] = 0x1A;
    data[4] = 1;
    data[5] = 1;
    // at 0xC000 (PRG offset 0 under mirroring): JMP $C000
    data[16] = 0x4C;
    data[17] = 0x00;
    data[18] = 0xC0;

    let rom = ROM::load(data).unwrap();
    let mut nes = NES::default();
    nes.load(rom);
    nes.power_on();

    let traces = nes.nestest();
    assert!(traces.len() > 8000);
    assert_eq!(
        traces[0].line(),
        "C000  4C 00 C0  JMP $C000                       A:00 X:00 Y:00 P:24 SP:FD CYC:7"
    );
    assert_eq!(
        traces[1].line(),
        "C000  4C 00 C0  JMP $C000                       A:00 X:00 Y:00 P:24 SP:FD CYC:10"
    );
    assert!(nes.cpu.cycles > 26554);
}
